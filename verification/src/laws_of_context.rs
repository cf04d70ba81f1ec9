//! What contexts and lookup tables do, told from arguments and results.

use crate::context::{
    has_key, is_new, merge_alts, merged, new_tables, tables, AddressLookupTableAccount, HashParam,
    SendContext, TableView,
};
use crate::key::{Pubkey, TxHash};
use crate::outside::address_of;
use solana_sdk::signature::Keypair;
use std::sync::Arc;
use vstd::prelude::*;

verus! {

/// Whether two tables have the same account and the same addresses.
pub open spec fn same_table(a: AddressLookupTableAccount, b: AddressLookupTableAccount) -> bool {
    a.key.bytes@ == b.key.bytes@ && a.addresses@ == b.addresses@
}

/// Whether the table at place `i` of a batch is one to add: its account is neither
/// among the existing ones nor earlier in the batch.
pub open spec fn to_add(
    existing: Seq<AddressLookupTableAccount>,
    batch: Seq<AddressLookupTableAccount>,
    i: int,
) -> bool {
    &&& 0 <= i < batch.len()
    &&& forall|j: int|
        0 <= j < existing.len() ==> (#[trigger] existing[j]).key.bytes@ != batch[i].key.bytes@
    &&& forall|j: int| 0 <= j < i ==> (#[trigger] batch[j]).key.bytes@ != batch[i].key.bytes@
}

/// Whether `picks` are the places of a batch that are to be added, in order.
pub open spec fn all_picked(
    existing: Seq<AddressLookupTableAccount>,
    batch: Seq<AddressLookupTableAccount>,
    picks: Seq<int>,
) -> bool {
    &&& forall|j: int| 0 <= j < picks.len() ==> to_add(existing, batch, #[trigger] picks[j])
    &&& forall|j: int, k: int|
        0 <= j < k < picks.len() ==> #[trigger] picks[j] < #[trigger] picks[k]
    &&& forall|i: int| #[trigger] to_add(existing, batch, i) ==> picks.contains(i)
}

/// Whether a list is the existing tables, unchanged and first, and behind them the
/// tables of a batch that are to be added, in the order of the batch.
pub open spec fn joined(
    existing: Seq<AddressLookupTableAccount>,
    batch: Seq<AddressLookupTableAccount>,
    list: Seq<AddressLookupTableAccount>,
    added: nat,
) -> bool {
    &&& list.len() == existing.len() + added
    &&& forall|i: int| 0 <= i < existing.len() ==> same_table(#[trigger] list[i], existing[i])
    &&& exists|picks: Seq<int>| #[trigger]
        all_picked(existing, batch, picks) && picks.len() == added && forall|j: int|
            0 <= j < added ==> same_table(
                #[trigger] list[existing.len() + j],
                batch[picks[j]],
            )
}

proof fn lemma_new_is_to_add(
    existing: Seq<AddressLookupTableAccount>,
    batch: Seq<AddressLookupTableAccount>,
    i: int,
)
    requires
        0 <= i < batch.len(),
    ensures
        is_new(tables(existing), tables(batch), i) <==> to_add(existing, batch, i),
{
    let e = tables(existing);
    let b = tables(batch);
    let key = batch[i].key.bytes@;
    assert(b[i].key == key);
    if is_new(e, b, i) {
        assert forall|j: int| 0 <= j < existing.len() implies (#[trigger] existing[j]).key.bytes@
            != key by {
            assert(e[j].key == existing[j].key.bytes@);
        }
        assert forall|j: int| 0 <= j < i implies (#[trigger] batch[j]).key.bytes@ != key by {
            assert(b.take(i)[j].key == batch[j].key.bytes@);
        }
    }
    if to_add(existing, batch, i) {
        if has_key(e, key) {
            let j = choose|j: int| 0 <= j < e.len() && (#[trigger] e[j]).key == key;
            assert(existing[j].key.bytes@ == key);
        }
        if has_key(b.take(i), key) {
            let j = choose|j: int| 0 <= j < b.take(i).len() && (#[trigger] b.take(i)[j]).key == key;
            assert(batch[j].key.bytes@ == key);
        }
    }
}

/// The places of the new tables among the first `n` of a batch.
proof fn lemma_picks(
    existing: Seq<AddressLookupTableAccount>,
    batch: Seq<AddressLookupTableAccount>,
    n: nat,
) -> (picks: Seq<int>)
    requires
        n <= batch.len(),
    ensures
        picks.len() == new_tables(tables(existing), tables(batch), n).len(),
        forall|j: int|
            0 <= j < picks.len() ==> to_add(existing, batch, #[trigger] picks[j]) && picks[j] < n
                && new_tables(tables(existing), tables(batch), n)[j] == batch[picks[j]]@,
        forall|j: int, k: int|
            0 <= j < k < picks.len() ==> #[trigger] picks[j] < #[trigger] picks[k],
        forall|i: int| 0 <= i < n && #[trigger] to_add(existing, batch, i) ==> picks.contains(i),
    decreases n,
{
    if n == 0 {
        seq![]
    } else {
        let m = (n - 1) as nat;
        let before = lemma_picks(existing, batch, m);
        lemma_new_is_to_add(existing, batch, m as int);
        if is_new(tables(existing), tables(batch), m as int) {
            let after = before.push(m as int);
            assert forall|i: int|
                0 <= i < n && #[trigger] to_add(existing, batch, i) implies after.contains(i) by {
                if i < m {
                    let j = choose|j: int| 0 <= j < before.len() && before[j] == i;
                    assert(after[j] == i);
                } else {
                    assert(after[before.len() as int] == i);
                }
            }
            after
        } else {
            before
        }
    }
}

proof fn lemma_joined(
    existing: Seq<AddressLookupTableAccount>,
    batch: Seq<AddressLookupTableAccount>,
    list: Seq<AddressLookupTableAccount>,
)
    requires
        tables(list) == merged(tables(existing), tables(batch)),
    ensures
        joined(
            existing,
            batch,
            list,
            new_tables(tables(existing), tables(batch), batch.len()).len(),
        ),
{
    let e = tables(existing);
    let b = tables(batch);
    let fresh = new_tables(e, b, batch.len());
    let picks = lemma_picks(existing, batch, batch.len());
    assert(tables(list).len() == list.len());
    assert forall|i: int| 0 <= i < existing.len() implies same_table(
        #[trigger] list[i],
        existing[i],
    ) by {
        assert(tables(list)[i] == list[i]@);
        assert(e[i] == existing[i]@);
        assert(tables(list)[i] == e[i]);
    }
    assert forall|j: int| 0 <= j < fresh.len() implies same_table(
        #[trigger] list[existing.len() + j],
        batch[picks[j]],
    ) by {
        assert(tables(list)[existing.len() + j] == list[existing.len() + j]@);
        assert(tables(list)[existing.len() + j] == fresh[j]);
        assert(fresh[j] == batch[picks[j]]@);
    }
    assert(all_picked(existing, batch, picks));
}

/// Merging keeps the existing tables as they are and in front, adds each account
/// of the batch that they lack once, by its first table, and counts them.
pub proof fn lemma_merge_alts(
    existing: &[AddressLookupTableAccount],
    batch: Vec<AddressLookupTableAccount>,
    r: (Vec<AddressLookupTableAccount>, usize),
)
    requires
        call_ensures(merge_alts, (existing, batch), r),
    ensures
        joined(existing@, batch@, r.0@, r.1 as nat),
{
    lemma_joined(existing@, batch@, r.0@);
}

/// A table duplicates to the same table.
pub proof fn lemma_duplicate(t: AddressLookupTableAccount, r: AddressLookupTableAccount)
    requires
        call_ensures(AddressLookupTableAccount::duplicate, (&t,), r),
    ensures
        same_table(r, t),
{
}

/// A context is made of its parts.
pub proof fn lemma_new_context(
    payer: Arc<Keypair>,
    hash_param: HashParam,
    alt: Arc<Vec<AddressLookupTableAccount>>,
    r: SendContext,
)
    requires
        call_ensures(SendContext::new, (payer, hash_param, alt), r),
    ensures
        r.payer == payer,
        r.hash_param == hash_param,
        r.alt == alt,
{
}

/// Whether a context rests on a nonce account, with the payer as its authority.
pub open spec fn rests_on_nonce(
    context: SendContext,
    payer: Arc<Keypair>,
    nonce_account: Pubkey,
    nonce_hash: TxHash,
) -> bool {
    &&& context.payer == payer
    &&& context.hash_param matches HashParam::NonceAccount { account, authority, hash }
        && account == nonce_account && hash == nonce_hash && authority.bytes@ == address_of(
        *payer,
    )
}

/// A nonce context: the account, its hash, the payer in charge, and the tables of
/// the batch, each account once.
pub proof fn lemma_from_nonce(
    payer: Arc<Keypair>,
    nonce_account: Pubkey,
    hash: TxHash,
    alts: Vec<AddressLookupTableAccount>,
    plain: SendContext,
    with: SendContext,
)
    requires
        call_ensures(SendContext::from_nonce, (payer, nonce_account, hash), plain),
        call_ensures(SendContext::from_nonce_with_alts, (payer, nonce_account, hash, alts), with),
    ensures
        rests_on_nonce(plain, payer, nonce_account, hash),
        rests_on_nonce(with, payer, nonce_account, hash),
        plain.alt@.len() == 0,
        joined(seq![], alts@, with.alt@, with.alt@.len()),
{
    lemma_from_nothing(alts@, with.alt@);
    assert(tables(plain.alt@).len() == plain.alt@.len());
}

/// A blockhash context: the hash, the payer, and the tables of the batch, each
/// account once.
pub proof fn lemma_from_blockhash(
    payer: Arc<Keypair>,
    hash: TxHash,
    alts: Vec<AddressLookupTableAccount>,
    plain: SendContext,
    with: SendContext,
)
    requires
        call_ensures(SendContext::from_blockhash, (payer, hash), plain),
        call_ensures(SendContext::from_blockhash_with_alts, (payer, hash, alts), with),
    ensures
        plain.payer == payer,
        with.payer == payer,
        plain.hash_param == HashParam::Blockhash(hash),
        with.hash_param == HashParam::Blockhash(hash),
        plain.alt@.len() == 0,
        joined(seq![], alts@, with.alt@, with.alt@.len()),
{
    lemma_from_nothing(alts@, with.alt@);
    assert(tables(plain.alt@).len() == plain.alt@.len());
}

proof fn lemma_from_nothing(
    batch: Seq<AddressLookupTableAccount>,
    list: Seq<AddressLookupTableAccount>,
)
    requires
        tables(list) == merged(seq![], tables(batch)),
    ensures
        joined(seq![], batch, list, list.len()),
{
    let none = Seq::<AddressLookupTableAccount>::empty();
    assert(tables(none) =~= Seq::<TableView>::empty());
    assert(none =~= seq![]);
    lemma_joined(none, batch, list);
    assert(tables(list).len() == list.len());
}

/// Adding tables to a context leaves its payer and its hash alone, joins the batch
/// to its tables, and returns how many were added. Where none was, the list is the
/// same.
pub proof fn lemma_add_alt(alts: Vec<AddressLookupTableAccount>, added: usize)
    ensures
        forall|context: &mut SendContext| #[trigger]
            call_ensures(SendContext::add_alt, (context, alts), added) ==> {
                &&& final(context).payer == context.payer
                &&& final(context).hash_param == context.hash_param
                &&& joined(context.alt@, alts@, final(context).alt@, added as nat)
                &&& added == 0 ==> final(context).alt == context.alt
            },
{
    assert forall|context: &mut SendContext| #[trigger]
        call_ensures(SendContext::add_alt, (context, alts), added) implies {
        &&& final(context).payer == context.payer
        &&& final(context).hash_param == context.hash_param
        &&& joined(context.alt@, alts@, final(context).alt@, added as nat)
        &&& added == 0 ==> final(context).alt == context.alt
    } by {
        lemma_joined(context.alt@, alts@, final(context).alt@);
    }
}

/// The chained form adds the same tables.
pub proof fn lemma_with_alts(
    context: SendContext,
    alts: Vec<AddressLookupTableAccount>,
    r: SendContext,
)
    requires
        call_ensures(SendContext::with_alts, (context, alts), r),
    ensures
        r.payer == context.payer,
        r.hash_param == context.hash_param,
        r.alt@.len() >= context.alt@.len(),
        joined(
            context.alt@,
            alts@,
            r.alt@,
            (r.alt@.len() - context.alt@.len()) as nat,
        ),
        r.alt@.len() == context.alt@.len() ==> r.alt == context.alt,
{
    lemma_joined(context.alt@, alts@, r.alt@);
}

} // verus!
