//! The context of a send: who pays, which hash the transaction rests on, and
//! which address lookup tables it may use.

use ahash::AHashSet;
use crate::key::{Pubkey, TxHash};
use crate::outside::{address_of, byte_set, byte_set_insert, held, keypair_address};
use solana_sdk::signature::Keypair;
use std::sync::Arc;
use vstd::prelude::*;

verus! {

/// An address lookup table, loaded.
#[derive(Clone, Debug, PartialEq, Eq)]
pub struct AddressLookupTableAccount {
    pub key: Pubkey,
    pub addresses: Vec<Pubkey>,
}

/// What a lookup table amounts to: its account and its addresses.
pub struct TableView {
    pub key: Seq<u8>,
    pub addresses: Seq<Pubkey>,
}

impl View for AddressLookupTableAccount {
    type V = TableView;

    open spec fn view(&self) -> TableView {
        TableView { key: self.key@, addresses: self.addresses@ }
    }
}

impl AddressLookupTableAccount {
    /// The same table once more.
    pub fn duplicate(&self) -> (r: AddressLookupTableAccount)
        ensures
            r@ == self@,
    {
        let mut addresses: Vec<Pubkey> = Vec::new();
        let mut i: usize = 0;
        while i < self.addresses.len()
            invariant
                i <= self.addresses@.len(),
                addresses@ == self.addresses@.take(i as int),
            decreases self.addresses@.len() - i,
        {
            addresses.push(self.addresses[i]);
            proof {
                let more = self.addresses@.take(i + 1);
                assert(more.drop_last() =~= self.addresses@.take(i as int));
                assert(addresses@ =~= more);
            }
            i = i + 1;
        }
        assert(self.addresses@.take(i as int) =~= self.addresses@);
        AddressLookupTableAccount { key: self.key, addresses }
    }
}

/// What a list of lookup tables amounts to.
pub open spec fn tables(list: Seq<AddressLookupTableAccount>) -> Seq<TableView> {
    list.map_values(|t: AddressLookupTableAccount| t@)
}

/// Whether a list has a table with this account.
pub open spec fn has_key(list: Seq<TableView>, key: Seq<u8>) -> bool {
    exists|i: int| 0 <= i < list.len() && (#[trigger] list[i]).key == key
}

/// Whether the table at place `i` of a batch is new: neither among the existing
/// ones nor earlier in the batch.
pub open spec fn is_new(existing: Seq<TableView>, batch: Seq<TableView>, i: int) -> bool {
    !has_key(existing, batch[i].key) && !has_key(batch.take(i), batch[i].key)
}

/// The new tables among the first `n` of a batch, in their order.
pub open spec fn new_tables(
    existing: Seq<TableView>,
    batch: Seq<TableView>,
    n: nat,
) -> Seq<TableView>
    decreases n,
{
    if n == 0 {
        seq![]
    } else {
        let before = new_tables(existing, batch, (n - 1) as nat);
        if is_new(existing, batch, n - 1) {
            before.push(batch[n - 1])
        } else {
            before
        }
    }
}

/// Two lists of tables merged: the existing ones, and behind them the new ones.
pub open spec fn merged(existing: Seq<TableView>, batch: Seq<TableView>) -> Seq<TableView> {
    existing + new_tables(existing, batch, batch.len())
}

/// The hash that a transaction rests on.
#[derive(Clone, Copy, Debug, PartialEq, Eq)]
pub enum HashParam {
    /// A recent blockhash.
    Blockhash(TxHash),
    /// The hash that a nonce account holds, and the account that may advance it.
    NonceAccount { account: Pubkey, authority: Pubkey, hash: TxHash },
}

/// What a send needs besides the instructions.
#[derive(Clone)]
pub struct SendContext {
    pub payer: Arc<Keypair>,
    pub hash_param: HashParam,
    /// The lookup tables; empty where none is used.
    pub alt: Arc<Vec<AddressLookupTableAccount>>,
}

impl SendContext {
    /// What the lookup tables amount to.
    pub open spec fn tables(self) -> Seq<TableView> {
        tables(self.alt@)
    }

    /// Whether the context rests on a nonce account, with the payer in charge of
    /// it.
    pub open spec fn on_nonce(self, nonce_account: Pubkey, nonce_hash: TxHash) -> bool {
        self.hash_param matches HashParam::NonceAccount { account, authority, hash }
            && account == nonce_account && authority@ == address_of(*self.payer) && hash
            == nonce_hash
    }

    /// A context from its parts.
    pub fn new(
        payer: Arc<Keypair>,
        hash_param: HashParam,
        alt: Arc<Vec<AddressLookupTableAccount>>,
    ) -> (r: SendContext)
        ensures
            r.payer == payer,
            r.hash_param == hash_param,
            r.alt == alt,
    {
        SendContext { payer, hash_param, alt }
    }

    /// A context on a nonce account, without lookup tables. `hash` is what the
    /// account holds.
    pub fn from_nonce(payer: Arc<Keypair>, nonce_account: Pubkey, hash: TxHash) -> (r: SendContext)
        ensures
            r.payer == payer,
            r.on_nonce(nonce_account, hash),
            r.tables() == Seq::<TableView>::empty(),
    {
        Self::from_nonce_with_alts(payer, nonce_account, hash, Vec::new())
    }

    /// A context on a nonce account, with lookup tables. A table that comes twice
    /// is taken once.
    pub fn from_nonce_with_alts(
        payer: Arc<Keypair>,
        nonce_account: Pubkey,
        hash: TxHash,
        alts: Vec<AddressLookupTableAccount>,
    ) -> (r: SendContext)
        ensures
            r.payer == payer,
            r.on_nonce(nonce_account, hash),
            r.tables() == merged(seq![], tables(alts@)),
    {
        let none: Vec<AddressLookupTableAccount> = Vec::new();
        let (alt, _) = merge_alts(none.as_slice(), alts);
        assert(tables(none@) =~= seq![]);
        let authority = Pubkey { bytes: keypair_address(&payer) };
        SendContext {
            payer,
            hash_param: HashParam::NonceAccount { account: nonce_account, authority, hash },
            alt: Arc::new(alt),
        }
    }

    /// A context on a recent blockhash, without lookup tables.
    pub fn from_blockhash(payer: Arc<Keypair>, hash: TxHash) -> (r: SendContext)
        ensures
            r.payer == payer,
            r.hash_param == HashParam::Blockhash(hash),
            r.tables() == Seq::<TableView>::empty(),
    {
        Self::from_blockhash_with_alts(payer, hash, Vec::new())
    }

    /// A context on a recent blockhash, with lookup tables. A table that comes
    /// twice is taken once.
    pub fn from_blockhash_with_alts(
        payer: Arc<Keypair>,
        hash: TxHash,
        alts: Vec<AddressLookupTableAccount>,
    ) -> (r: SendContext)
        ensures
            r.payer == payer,
            r.hash_param == HashParam::Blockhash(hash),
            r.tables() == merged(seq![], tables(alts@)),
    {
        let none: Vec<AddressLookupTableAccount> = Vec::new();
        let (alt, _) = merge_alts(none.as_slice(), alts);
        assert(tables(none@) =~= seq![]);
        SendContext { payer, hash_param: HashParam::Blockhash(hash), alt: Arc::new(alt) }
    }

    /// Adds lookup tables behind the present ones and returns how many were new.
    ///
    /// A table is known by its account: one that is present already, or that
    /// came earlier in the batch, is skipped. Where none is new, the list stays the
    /// same value.
    pub fn add_alt(&mut self, alts: Vec<AddressLookupTableAccount>) -> (added: usize)
        ensures
            final(self).payer == old(self).payer,
            final(self).hash_param == old(self).hash_param,
            final(self).tables() == merged(old(self).tables(), tables(alts@)),
            added == new_tables(old(self).tables(), tables(alts@), alts@.len()).len(),
            added == 0 ==> final(self).alt == old(self).alt,
    {
        let (list, added) = merge_alts(self.alt.as_slice(), alts);
        if added > 0 {
            self.alt = Arc::new(list);
        } else {
            assert(merged(old(self).tables(), tables(alts@)) =~= old(self).tables());
        }
        added
    }

    /// The context with lookup tables added, as [`SendContext::add_alt`] does.
    pub fn with_alts(self, alts: Vec<AddressLookupTableAccount>) -> (r: SendContext)
        ensures
            r.payer == self.payer,
            r.hash_param == self.hash_param,
            r.tables() == merged(self.tables(), tables(alts@)),
            new_tables(self.tables(), tables(alts@), alts@.len()).len() == 0 ==> r.alt == self.alt,
    {
        let mut context = self;
        context.add_alt(alts);
        context
    }
}

/// The accounts of the first `n` tables of a list.
spec fn keys(list: Seq<TableView>, n: int) -> Set<Seq<u8>> {
    Set::new(|k: Seq<u8>| has_key(list.take(n), k))
}

proof fn lemma_keys_step(list: Seq<TableView>, n: int)
    requires
        0 <= n < list.len(),
    ensures
        keys(list, n + 1) == keys(list, n).insert(list[n].key),
{
    let less = list.take(n);
    let more = list.take(n + 1);
    assert forall|k: Seq<u8>| keys(list, n + 1).contains(k) == keys(list, n).insert(
        list[n].key,
    ).contains(k) by {
        if has_key(more, k) {
            let i = choose|i: int| 0 <= i < more.len() && (#[trigger] more[i]).key == k;
            if i < n {
                assert(less[i].key == k);
            }
        }
        if has_key(less, k) {
            let i = choose|i: int| 0 <= i < less.len() && (#[trigger] less[i]).key == k;
            assert(more[i].key == k);
        }
        assert(more[n] == list[n]);
    }
    assert(keys(list, n + 1) =~= keys(list, n).insert(list[n].key));
}

/// A table more in a list is a table more in what the list amounts to.
proof fn lemma_tables_step(
    shorter: Seq<AddressLookupTableAccount>,
    more: AddressLookupTableAccount,
)
    ensures
        tables(shorter.push(more)) == tables(shorter).push(more@),
{
    assert(tables(shorter.push(more)) =~= tables(shorter).push(more@));
}

/// Merges two lists of lookup tables and counts the new ones.
///
/// The existing tables come first and stay as they are. A table of the batch is
/// new unless its account is among theirs or came earlier in the batch.
pub fn merge_alts(
    existing: &[AddressLookupTableAccount],
    new: Vec<AddressLookupTableAccount>,
) -> (r: (Vec<AddressLookupTableAccount>, usize))
    ensures
        tables(r.0@) == merged(tables(existing@), tables(new@)),
        r.1 == new_tables(tables(existing@), tables(new@), new@.len()).len(),
{
    let ghost present = tables(existing@);
    let ghost batch = tables(new@);
    let mut seen: AHashSet<Vec<u8>> = byte_set();
    let mut list: Vec<AddressLookupTableAccount> = Vec::new();
    let mut i: usize = 0;
    assert(held(seen) =~= keys(present, 0));
    assert(tables(list@) =~= present.take(0));
    while i < existing.len()
        invariant
            i <= existing@.len(),
            present == tables(existing@),
            held(seen) == keys(present, i as int),
            tables(list@) == present.take(i as int),
        decreases existing@.len() - i,
    {
        byte_set_insert(&mut seen, existing[i].key.bytes.as_slice());
        let ghost shorter = list@;
        let table = existing[i].duplicate();
        list.push(table);
        proof {
            lemma_keys_step(present, i as int);
            lemma_tables_step(shorter, table);
            assert(table@ == present[i as int]);
            assert(present.take(i as int).push(present[i as int]) =~= present.take(i + 1));
        }
        i = i + 1;
    }
    assert(present.take(i as int) =~= present);
    let mut added: usize = 0;
    let mut j: usize = 0;
    assert(keys(batch, 0) =~= Set::<Seq<u8>>::empty());
    assert(held(seen) =~= keys(present, present.len() as int).union(keys(batch, 0)));
    assert(tables(list@) =~= present + new_tables(present, batch, 0));
    while j < new.len()
        invariant
            j <= new@.len(),
            added <= j,
            present == tables(existing@),
            batch == tables(new@),
            held(seen) == keys(present, present.len() as int).union(keys(batch, j as int)),
            tables(list@) == present + new_tables(present, batch, j as nat),
            added == new_tables(present, batch, j as nat).len(),
        decreases new@.len() - j,
    {
        let ghost before = held(seen);
        let fresh: bool = byte_set_insert(&mut seen, new[j].key.bytes.as_slice());
        proof {
            lemma_keys_step(batch, j as int);
            assert(present.take(present.len() as int) =~= present);
            assert(fresh == is_new(present, batch, j as int));
            assert(held(seen) =~= keys(present, present.len() as int).union(keys(batch, j + 1)));
        }
        if fresh {
            let ghost shorter = list@;
            let table = new[j].duplicate();
            list.push(table);
            added = added + 1;
            proof {
                lemma_tables_step(shorter, table);
                assert(table@ == batch[j as int]);
                assert(tables(list@) =~= present + new_tables(present, batch, (j + 1) as nat));
            }
        }
        j = j + 1;
    }
    (list, added)
}

/// Whether no two tables of a list have the same account.
pub open spec fn distinct(list: Seq<TableView>) -> bool {
    forall|i: int, j: int|
        0 <= i < j < list.len() ==> (#[trigger] list[i]).key != (#[trigger] list[j]).key
}

/// A merged list has the accounts of both lists and no others.
pub proof fn lemma_merge_has_all(existing: Seq<TableView>, batch: Seq<TableView>, key: Seq<u8>)
    ensures
        has_key(merged(existing, batch), key) <==> has_key(existing, key) || has_key(batch, key),
{
    let fresh = new_tables(existing, batch, batch.len());
    let all = merged(existing, batch);
    lemma_new_tables(existing, batch, batch.len(), key);
    assert(batch.take(batch.len() as int) =~= batch);
    if has_key(all, key) {
        let i = choose|i: int| 0 <= i < all.len() && (#[trigger] all[i]).key == key;
        if i < existing.len() {
            assert(existing[i].key == key);
        } else {
            assert(fresh[i - existing.len()].key == key);
        }
    }
    if has_key(existing, key) {
        let i = choose|i: int| 0 <= i < existing.len() && (#[trigger] existing[i]).key == key;
        assert(all[i].key == key);
    }
    if has_key(fresh, key) {
        let i = choose|i: int| 0 <= i < fresh.len() && (#[trigger] fresh[i]).key == key;
        assert(all[existing.len() + i].key == key);
    }
}

/// The new tables have exactly the accounts of the batch that are not among the
/// existing ones.
proof fn lemma_new_tables(
    existing: Seq<TableView>,
    batch: Seq<TableView>,
    n: nat,
    key: Seq<u8>,
)
    requires
        n <= batch.len(),
    ensures
        has_key(new_tables(existing, batch, n), key) <==> has_key(batch.take(n as int), key)
            && !has_key(existing, key),
    decreases n,
{
    if n > 0 {
        let m = (n - 1) as nat;
        let before = new_tables(existing, batch, m);
        let after = new_tables(existing, batch, n);
        let less = batch.take(m as int);
        let more = batch.take(n as int);
        lemma_new_tables(existing, batch, m, key);
        lemma_new_tables(existing, batch, m, batch[m as int].key);
        if has_key(after, key) {
            let i = choose|i: int| 0 <= i < after.len() && (#[trigger] after[i]).key == key;
            if i < before.len() {
                assert(before[i].key == key);
                let k = choose|k: int| 0 <= k < less.len() && (#[trigger] less[k]).key == key;
                assert(more[k].key == key);
            } else {
                assert(more[m as int].key == key);
            }
        }
        if has_key(more, key) && !has_key(existing, key) {
            let k = choose|k: int| 0 <= k < more.len() && (#[trigger] more[k]).key == key;
            if k < m {
                assert(less[k].key == key);
            }
            if has_key(less, key) {
                let i = choose|i: int| 0 <= i < before.len() && (#[trigger] before[i]).key == key;
                assert(after[i].key == key);
            } else {
                assert(is_new(existing, batch, m as int));
                assert(after[before.len() as int].key == key);
            }
        }
    }
}

/// Merging adds no duplicate: where the existing tables have different accounts,
/// so have the merged ones.
pub proof fn lemma_merge_adds_no_duplicate(existing: Seq<TableView>, batch: Seq<TableView>)
    requires
        distinct(existing),
    ensures
        distinct(merged(existing, batch)),
{
    lemma_prefix_distinct(existing, batch, batch.len());
}

proof fn lemma_prefix_distinct(existing: Seq<TableView>, batch: Seq<TableView>, n: nat)
    requires
        distinct(existing),
        n <= batch.len(),
    ensures
        distinct(existing + new_tables(existing, batch, n)),
    decreases n,
{
    if n == 0 {
        assert(existing + new_tables(existing, batch, n) =~= existing);
    } else {
        let m = (n - 1) as nat;
        let before = existing + new_tables(existing, batch, m);
        let after = existing + new_tables(existing, batch, n);
        lemma_prefix_distinct(existing, batch, m);
        if is_new(existing, batch, m as int) {
            let key = batch[m as int].key;
            lemma_new_tables(existing, batch, m, key);
            assert(after =~= before.push(batch[m as int]));
            assert forall|i: int| 0 <= i < before.len() implies (#[trigger] before[i]).key
                != key by {
                if i < existing.len() {
                    assert(existing[i].key != key);
                } else {
                    assert(new_tables(existing, batch, m)[i - existing.len()].key != key);
                }
            }
        }
    }
}

/// Merging the same batch once more changes nothing.
pub proof fn lemma_merge_again_adds_nothing(existing: Seq<TableView>, batch: Seq<TableView>)
    ensures
        merged(merged(existing, batch), batch) == merged(existing, batch),
        new_tables(merged(existing, batch), batch, batch.len()).len() == 0,
{
    let all = merged(existing, batch);
    lemma_known_batch(all, existing, batch, batch.len());
    assert(merged(all, batch) =~= all);
}

proof fn lemma_known_batch(
    all: Seq<TableView>,
    existing: Seq<TableView>,
    batch: Seq<TableView>,
    n: nat,
)
    requires
        all == merged(existing, batch),
        n <= batch.len(),
    ensures
        new_tables(all, batch, n).len() == 0,
    decreases n,
{
    if n > 0 {
        lemma_known_batch(all, existing, batch, (n - 1) as nat);
        let key = batch[n - 1].key;
        assert(has_key(batch, key));
        lemma_merge_has_all(existing, batch, key);
    }
}

} // verus!
