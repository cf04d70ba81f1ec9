//! Keeping track of what has been fired.
//!
//! A transaction that could be built is watched from then on, whether or not the
//! platform takes it. One that could not be built is left out, and the others go
//! on.

use ahash::AHashSet;
use crate::key::Signature;
use crate::outside::{byte_set_insert, held};
use vstd::prelude::*;

verus! {

/// The signatures of a list, as byte strings.
pub open spec fn signatures(list: Seq<Signature>) -> Set<Seq<u8>> {
    Set::new(|s: Seq<u8>| exists|i: int| 0 <= i < list.len() && #[trigger] list[i]@ == s)
}

/// Takes note of a built transaction and hands it on to be sent.
///
/// Where it was built, its signature is watched. Where it was not, nothing
/// changes but for the error.
pub fn fire_client<T, E>(
    built: Result<(Signature, T), E>,
    sigs: &mut AHashSet<Vec<u8>>,
) -> (r: Result<T, E>)
    ensures
        match built {
            Ok((sig, tx)) => r == Ok::<T, E>(tx) && held(*final(sigs)) == held(*old(sigs)).insert(
                sig@,
            ),
            Err(e) => r == Err::<T, E>(e) && held(*final(sigs)) == held(*old(sigs)),
        },
{
    match built {
        Ok((sig, tx)) => {
            byte_set_insert(sigs, sig.bytes.as_slice());
            Ok(tx)
        },
        Err(e) => Err(e),
    }
}

/// Takes note of a built version 1 transaction. The versions differ in how a
/// transaction is built, not in how it is watched.
pub fn fire_v1_client<T, E>(
    built: Result<(Signature, T), E>,
    sigs: &mut AHashSet<Vec<u8>>,
) -> (r: Result<T, E>)
    ensures
        match built {
            Ok((sig, tx)) => r == Ok::<T, E>(tx) && held(*final(sigs)) == held(*old(sigs)).insert(
                sig@,
            ),
            Err(e) => r == Err::<T, E>(e) && held(*final(sigs)) == held(*old(sigs)),
        },
{
    fire_client(built, sigs)
}

/// Watches signatures that were gathered side by side.
pub fn watch_all(fired: &[Signature], sigs: &mut AHashSet<Vec<u8>>)
    ensures
        held(*final(sigs)) == held(*old(sigs)).union(signatures(fired@)),
{
    let ghost before = held(*sigs);
    let mut i: usize = 0;
    assert(held(*sigs) =~= before.union(signatures(fired@.take(0))));
    while i < fired.len()
        invariant
            i <= fired@.len(),
            held(*sigs) == before.union(signatures(fired@.take(i as int))),
        decreases fired@.len() - i,
    {
        byte_set_insert(sigs, fired[i].bytes.as_slice());
        proof {
            lemma_signatures_step(fired@, i as int);
            assert(held(*sigs) =~= before.union(signatures(fired@.take(i + 1))));
        }
        i = i + 1;
    }
    assert(fired@.take(i as int) =~= fired@);
}

proof fn lemma_signatures_step(list: Seq<Signature>, n: int)
    requires
        0 <= n < list.len(),
    ensures
        signatures(list.take(n + 1)) == signatures(list.take(n)).insert(list[n]@),
{
    let less = list.take(n);
    let more = list.take(n + 1);
    assert forall|s: Seq<u8>| signatures(more).contains(s) == signatures(less).insert(
        list[n]@,
    ).contains(s) by {
        if signatures(more).contains(s) {
            let i = choose|i: int| 0 <= i < more.len() && #[trigger] more[i]@ == s;
            if i < n {
                assert(less[i]@ == s);
            }
        }
        if signatures(less).contains(s) {
            let i = choose|i: int| 0 <= i < less.len() && #[trigger] less[i]@ == s;
            assert(more[i]@ == s);
        }
        assert(more[n]@ == list[n]@);
    }
    assert(signatures(more) =~= signatures(less).insert(list[n]@));
}

} // verus!
