use sol_tx_dispacher::context::{
    merge_alts, AddressLookupTableAccount, HashParam, SendContext,
};
use sol_tx_dispacher::key::{Pubkey, TxHash};
use solana_sdk::signature::Keypair;
use solana_sdk::signer::Signer;
use std::sync::Arc;

fn new_key() -> Pubkey {
    Pubkey {
        bytes: solana_sdk::pubkey::Pubkey::new_unique().to_bytes(),
    }
}

fn new_hash() -> TxHash {
    TxHash {
        bytes: solana_sdk::pubkey::Pubkey::new_unique().to_bytes(),
    }
}

fn mk_alt(n: usize) -> AddressLookupTableAccount {
    AddressLookupTableAccount {
        key: new_key(),
        addresses: (0..n).map(|_| new_key()).collect(),
    }
}

#[test]
fn merge_alts_dedups_by_key_and_keeps_order() {
    let a = mk_alt(2);
    let b = mk_alt(3);
    let (merged, added) = merge_alts(&[a.clone()], vec![a.clone(), b.clone()]);
    assert_eq!(added, 1, "a table that is present already is not new");
    assert_eq!(merged.len(), 2);
    assert_eq!(merged[0].key, a.key, "the existing tables come first");
    assert_eq!(merged[1].key, b.key);
}

#[test]
fn merge_alts_skips_duplicates_inside_the_batch() {
    let a = mk_alt(1);
    let (merged, added) = merge_alts(&[], vec![a.clone(), a.clone(), a.clone()]);
    assert_eq!(added, 1);
    assert_eq!(merged.len(), 1);
}

#[test]
fn add_alt_reports_added_and_ignores_dupes() {
    let mut ctx = SendContext::new(
        Arc::new(Keypair::new()),
        HashParam::Blockhash(new_hash()),
        Arc::new(vec![mk_alt(1)]),
    );
    let dup = ctx.alt[0].clone();
    let fresh = mk_alt(2);
    assert_eq!(ctx.add_alt(vec![dup, fresh.clone()]), 1, "only the fresh one is new");
    assert_eq!(ctx.alt.len(), 2);
    assert_eq!(ctx.add_alt(vec![fresh]), 0, "the second time nothing is new");
    assert_eq!(ctx.alt.len(), 2);
}

#[test]
fn with_alts_is_chainable() {
    let a = mk_alt(1);
    let ctx = SendContext::new(
        Arc::new(Keypair::new()),
        HashParam::Blockhash(new_hash()),
        Arc::new(vec![]),
    )
    .with_alts(vec![a.clone(), a.clone()]);
    assert_eq!(ctx.alt.len(), 1, "a batch may hold a table twice");
    assert_eq!(ctx.alt[0].key, a.key);
}

#[test]
fn merging_keeps_the_addresses_of_every_table() {
    let a = mk_alt(3);
    let b = mk_alt(0);
    let c = mk_alt(5);
    let (merged, added) = merge_alts(&[a.clone(), b.clone()], vec![c.clone(), a.clone()]);
    assert_eq!(added, 1);
    assert_eq!(merged, vec![a, b, c]);
}

#[test]
fn existing_duplicates_are_left_alone() {
    let a = mk_alt(1);
    let (merged, added) = merge_alts(&[a.clone(), a.clone()], vec![a.clone()]);
    assert_eq!(added, 0);
    assert_eq!(merged.len(), 2);
}

#[test]
fn the_first_table_of_an_account_wins() {
    let first = mk_alt(2);
    let second = AddressLookupTableAccount {
        key: first.key,
        addresses: vec![new_key()],
    };
    let (merged, added) = merge_alts(&[], vec![first.clone(), second]);
    assert_eq!(added, 1);
    assert_eq!(merged, vec![first]);
}

#[test]
fn accounts_that_differ_in_the_last_byte_are_different() {
    let mut one = mk_alt(1);
    one.key.bytes = [7; 32];
    let mut other = one.clone();
    other.key.bytes[31] = 8;
    let (merged, added) = merge_alts(&[one.clone()], vec![other.clone()]);
    assert_eq!(added, 1);
    assert_eq!(merged, vec![one, other]);
}

#[test]
fn nothing_new_leaves_the_list_as_it_is() {
    let a = mk_alt(2);
    let mut ctx = SendContext::from_blockhash_with_alts(
        Arc::new(Keypair::new()),
        new_hash(),
        vec![a.clone()],
    );
    let before = ctx.alt.clone();
    assert_eq!(ctx.add_alt(vec![a.clone(), a.clone()]), 0);
    assert!(Arc::ptr_eq(&before, &ctx.alt));
    let ctx = ctx.with_alts(vec![]);
    assert!(Arc::ptr_eq(&before, &ctx.alt));
    let mut grown = ctx.clone();
    assert_eq!(grown.add_alt(vec![mk_alt(1)]), 1);
    assert_eq!(*ctx.alt, vec![a]);
}

#[test]
fn a_nonce_context_puts_the_payer_in_charge() {
    let payer = Arc::new(Keypair::new());
    let account = new_key();
    let hash = new_hash();
    let ctx = SendContext::from_nonce(payer.clone(), account, hash);
    assert!(ctx.alt.is_empty());
    assert_eq!(
        ctx.hash_param,
        HashParam::NonceAccount {
            account,
            authority: Pubkey {
                bytes: payer.pubkey().to_bytes()
            },
            hash,
        }
    );
}

#[test]
fn a_nonce_context_takes_each_table_once() {
    let a = mk_alt(1);
    let b = mk_alt(1);
    let ctx = SendContext::from_nonce_with_alts(
        Arc::new(Keypair::new()),
        new_key(),
        new_hash(),
        vec![a.clone(), b.clone(), a.clone()],
    );
    assert_eq!(*ctx.alt, vec![a, b]);
}

#[test]
fn a_blockhash_context_rests_on_the_hash() {
    let hash = new_hash();
    let a = mk_alt(4);
    let payer = Arc::new(Keypair::new());
    let plain = SendContext::from_blockhash(payer.clone(), hash);
    assert_eq!(plain.hash_param, HashParam::Blockhash(hash));
    assert!(plain.alt.is_empty());
    assert_eq!(plain.payer.pubkey(), payer.pubkey());
    let with = SendContext::from_blockhash_with_alts(payer, hash, vec![a.clone(), a.clone()]);
    assert_eq!(with.hash_param, HashParam::Blockhash(hash));
    assert_eq!(*with.alt, vec![a]);
}
