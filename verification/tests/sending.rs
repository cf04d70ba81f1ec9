use ahash::AHashSet;
use sol_tx_dispacher::bundle::{bundle_watch_set, BundleError};
use sol_tx_dispacher::failure::{
    into_tx_confirm_err, memo_tag, Attempt, TxConfirmError, TxVersion,
};
use sol_tx_dispacher::fire::{fire_client, fire_v1_client, watch_all};
use sol_tx_dispacher::key::Signature;
use sol_tx_dispacher::leader::NoopOracle;
use sol_tx_dispacher::platform::{Client, Platform};
use sol_tx_dispacher::{MultiBundleSender, MultiBundleSenderV1, SendRoute, TxDispacher};

fn sig(n: u8) -> Signature {
    Signature { bytes: [n; 64] }
}

fn holds(set: &AHashSet<Vec<u8>>, sigs: &[Signature]) {
    assert_eq!(set.len(), sigs.len());
    for s in sigs {
        assert!(set.contains(&s.bytes.to_vec()));
    }
}

#[test]
fn a_built_transaction_is_watched() {
    let mut sigs = AHashSet::new();
    assert_eq!(fire_client::<&str, ()>(Ok((sig(1), "tx")), &mut sigs), Ok("tx"));
    assert_eq!(fire_v1_client::<&str, ()>(Ok((sig(2), "tx1")), &mut sigs), Ok("tx1"));
    holds(&sigs, &[sig(1), sig(2)]);
    // The same signature again is still one to watch.
    assert_eq!(fire_client::<&str, ()>(Ok((sig(1), "tx")), &mut sigs), Ok("tx"));
    holds(&sigs, &[sig(1), sig(2)]);
}

#[test]
fn a_transaction_that_was_not_built_is_left_out() {
    let mut sigs = AHashSet::new();
    assert_eq!(fire_client::<(), &str>(Err("too large"), &mut sigs), Err("too large"));
    assert_eq!(fire_v1_client::<(), &str>(Err("no hash"), &mut sigs), Err("no hash"));
    holds(&sigs, &[]);
}

#[test]
fn signatures_gathered_side_by_side_are_all_watched() {
    let mut sigs = AHashSet::new();
    fire_client::<(), ()>(Ok((sig(9), ())), &mut sigs).unwrap();
    watch_all(&[sig(1), sig(2), sig(1), sig(9)], &mut sigs);
    holds(&sigs, &[sig(1), sig(2), sig(9)]);
    watch_all(&[], &mut sigs);
    holds(&sigs, &[sig(1), sig(2), sig(9)]);
}

/// A bundle of numbers that takes three of them.
fn take(n: u32) -> impl Fn(Vec<u32>) -> Result<Vec<u32>, BundleError<Vec<u32>>> {
    move |mut b| {
        if b.len() == 3 {
            return Err(BundleError {
                msg: format!("bundle full: {n} refused"),
                builder: b,
            });
        }
        b.push(n);
        Ok(b)
    }
}

#[test]
fn a_transaction_goes_into_every_bundle() {
    let multi = MultiBundleSender::new(vec!["jito", "astralane"], |_| Vec::<u32>::new());
    assert_eq!(multi.len(), 2);
    assert!(!multi.is_empty());
    let done = match multi.append(take(7)) {
        Ok(m) => match m.append(take(8)) {
            Ok(m) => m,
            Err(e) => panic!("{}", e.msg),
        },
        Err(e) => panic!("{}", e.msg),
    };
    assert_eq!(done.builders, vec![vec![7, 8], vec![7, 8]]);
}

#[test]
fn new_bundles_follow_the_senders() {
    let multi = MultiBundleSenderV1::new(vec![3u32, 1, 2], |s| vec![s]);
    assert_eq!(multi.builders, vec![vec![3], vec![1], vec![2]]);
}

#[test]
fn a_refused_transaction_loses_no_bundle() {
    let multi =
        MultiBundleSender::from_builders(vec![vec![1], vec![1, 2, 3], vec![4], vec![5, 6]]);
    let e = match multi.append(take(9)) {
        Ok(_) => panic!("the second bundle is full"),
        Err(e) => e,
    };
    assert_eq!(e.msg, "bundle full: 9 refused");
    assert_eq!(e.builders, vec![vec![1, 9], vec![1, 2, 3], vec![4], vec![5, 6]]);
    let again = MultiBundleSender::from_builders(e.into_builders());
    assert_eq!(again.len(), 4);
}

#[test]
fn no_bundle_takes_everything() {
    let none = MultiBundleSender::<Vec<u32>>::from_builders(vec![]);
    assert!(none.is_empty());
    match none.append(take(1)) {
        Ok(m) => assert_eq!(m.len(), 0),
        Err(_) => panic!("there is no bundle to refuse"),
    }
}

fn timed_out<T>(r: Result<T, TxConfirmError<()>>, secs: u64) {
    match r {
        Err(TxConfirmError::Timeout {
            expected_sigs,
            timeout_secs,
        }) => {
            assert!(expected_sigs.is_empty());
            assert_eq!(timeout_secs, secs);
        }
        _ => panic!("a timeout was expected"),
    }
}

#[test]
fn a_send_without_platforms_times_out_at_once() {
    timed_out(MultiBundleSender::<u32>::from_builders(vec![]).send(60), 60);
    let bundles: Result<Vec<u32>, TxConfirmError<()>> =
        MultiBundleSender::from_builders(vec![4, 5]).send(60);
    match bundles {
        Ok(b) => assert_eq!(b, vec![4, 5]),
        Err(_) => panic!("there are two bundles to send"),
    }
}

#[test]
fn every_signature_of_every_bundle_is_watched() {
    let sent = [
        Some(vec![sig(1), sig(2)]),
        None,
        Some(vec![sig(2), sig(3)]),
        Some(vec![]),
    ];
    let watched: Result<AHashSet<Vec<u8>>, TxConfirmError<()>> = bundle_watch_set(&sent, 30);
    match watched {
        Ok(set) => holds(&set, &[sig(1), sig(2), sig(3)]),
        Err(_) => panic!("there are signatures to watch"),
    }
}

#[test]
fn bundles_that_all_failed_count_as_timed_out() {
    timed_out(bundle_watch_set::<()>(&[None, None], 30), 30);
    timed_out(bundle_watch_set::<()>(&[Some(vec![])], 31), 31);
    timed_out(bundle_watch_set::<()>(&[], 32), 32);
}

#[test]
fn the_bundle_platforms_are_those_with_a_client() {
    let client = |min_tip| Client { min_tip };
    let d = TxDispacher::builder(NoopOracle)
        .flash_block(client(1))
        .jito(client(2))
        .temporal(client(3))
        .helius(None, Some(client(4)))
        .build();
    let multi = d.bundle_sender(|p| p);
    assert_eq!(multi.builders, vec![Platform::Jito, Platform::FlashBlock]);
    let all = TxDispacher::builder(NoopOracle)
        .helius(Some(client(4)), None)
        .flash_block(client(1))
        .astralane(client(5))
        .jito(client(2))
        .build()
        .bundle_sender(|p| p);
    assert_eq!(
        all.builders,
        vec![
            Platform::Jito,
            Platform::Astralane,
            Platform::FlashBlock,
            Platform::HeliusMax
        ]
    );
    assert!(TxDispacher::builder(NoopOracle).build().bundle_sender(|p| p).is_empty());
}

fn words(attempt: Attempt, version: TxVersion) -> String {
    match into_tx_confirm_err(attempt, version, 5u8, "timeout") {
        TxConfirmError::Other(text) => text,
        _ => panic!("words were expected"),
    }
}

#[test]
fn an_ordinary_send_hands_the_report_on() {
    for attempt in [Attempt::Send, Attempt::WithCost] {
        for version in [TxVersion::V0, TxVersion::V1] {
            match into_tx_confirm_err(attempt, version, 5u8, "timeout") {
                TxConfirmError::Confirm(report) => assert_eq!(report, 5),
                _ => panic!("the report was expected"),
            }
        }
    }
}

#[test]
fn the_other_sends_say_what_failed() {
    let v0 = TxVersion::V0;
    let v1 = TxVersion::V1;
    assert_eq!(words(Attempt::Cheap, v0), "send_cheap failed: timeout");
    assert_eq!(words(Attempt::Cheap, v1), "send_cheap_v1 failed: timeout");
    for (route, name) in [
        (SendRoute::Harmonic, "harmonic"),
        (SendRoute::Jito, "jito"),
        (SendRoute::Fallback, "fallback"),
        (SendRoute::TipOnly, "fallback"),
    ] {
        assert_eq!(
            words(Attempt::TipOnly(route), v0),
            format!("send_tip_only failed: send_tip_only({name}) failed: timeout")
        );
        assert_eq!(
            words(Attempt::TipOnly(route), v1),
            format!("send_tip_only_v1 failed: send_tip_only_v1({name}) failed: timeout")
        );
    }
}

#[test]
fn the_memo_has_a_default() {
    assert_eq!(memo_tag(None), "default");
    assert_eq!(memo_tag(Some("sniper".to_string())), "sniper");
    assert_eq!(memo_tag(Some(String::new())), "");
}
