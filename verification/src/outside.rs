//! What the library takes from other crates, and what it relies on there.
//!
//! Nothing in this file is proved: each contract repeats what the crate in
//! question documents or shows.

use ahash::AHashSet;
use solana_sdk::signature::Keypair;
use solana_sdk::signer::Signer;
use vstd::prelude::*;

verus! {

/// `ahash::RandomState`, the hasher of the sets below. Nothing is known of it.
#[verifier::external_type_specification]
#[verifier::external_body]
pub struct ExRandomState(ahash::RandomState);

/// `ahash::AHashSet`, a hash set. Its contents are [`held`].
#[verifier::external_type_specification]
#[verifier::external_body]
#[verifier::reject_recursive_types(T)]
#[verifier::reject_recursive_types(S)]
pub struct ExAHashSet<T, S>(AHashSet<T, S>);

/// `solana_sdk::signature::Keypair`, which signs for an account.
#[verifier::external_type_specification]
#[verifier::external_body]
pub struct ExKeypair(Keypair);

/// The byte strings that a set holds.
pub uninterp spec fn held(s: AHashSet<Vec<u8>>) -> Set<Seq<u8>>;

/// The address of the account that a key pair signs for.
pub uninterp spec fn address_of(k: Keypair) -> Seq<u8>;

/// `AHashSet::new`: a set that holds nothing.
#[verifier::external_body]
pub(crate) fn byte_set() -> (r: AHashSet<Vec<u8>>)
    ensures
        held(r) == Set::<Seq<u8>>::empty(),
{
    AHashSet::new()
}

/// `insert` on an `AHashSet`, which is that of the standard hash set: the set
/// holds the item afterwards, and the result says whether it did not before.
#[verifier::external_body]
pub(crate) fn byte_set_insert(s: &mut AHashSet<Vec<u8>>, item: &[u8]) -> (added: bool)
    ensures
        held(*final(s)) == held(*old(s)).insert(item@),
        added == !held(*old(s)).contains(item@),
{
    s.insert(item.to_vec())
}

/// `is_empty` on an `AHashSet`, which is that of the standard hash set: whether
/// the set holds nothing.
#[verifier::external_body]
pub(crate) fn byte_set_is_empty(s: &AHashSet<Vec<u8>>) -> (r: bool)
    ensures
        r == (held(*s) == Set::<Seq<u8>>::empty()),
{
    s.is_empty()
}

/// `Signer::pubkey` on a `Keypair`: the address of the account it signs for,
/// which depends on the key pair alone.
#[verifier::external_body]
pub(crate) fn keypair_address(k: &Keypair) -> (r: [u8; 32])
    ensures
        r@ == address_of(*k),
{
    k.pubkey().to_bytes()
}

} // verus!
