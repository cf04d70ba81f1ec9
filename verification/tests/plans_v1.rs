use sol_tx_dispacher::binary64::F64;
use sol_tx_dispacher::fee::{CostTxConfig, Cu, V1TxConfig};
use sol_tx_dispacher::leader::NoopOracle;
use sol_tx_dispacher::plan::{Plan, Shot};
use sol_tx_dispacher::platform::{Client, Platform, QuicFeatures, Roster};
use sol_tx_dispacher::strategy::{
    dispatch, dispatch_cheap, dispatch_tip_only, dispatch_with_cost,
};
use sol_tx_dispacher::strategy_v1::{
    dispatch_cheap_v1, dispatch_tip_only_v1, dispatch_v1, dispatch_with_cost_v1,
};
use sol_tx_dispacher::{CostConfig, SendRoute, TipStrategy, TxDispacher};

const ROUTES: [SendRoute; 4] = [
    SendRoute::Harmonic,
    SendRoute::Jito,
    SendRoute::Fallback,
    SendRoute::TipOnly,
];

fn client(min_tip: u64) -> Client {
    Client { min_tip }
}

fn roster() -> Roster {
    TxDispacher::builder(NoopOracle)
        .transports(QuicFeatures {
            astralane_quic: true,
            everstake_quic: false,
        })
        .astralane(client(1_000))
        .astralane_quic(client(2_000))
        .everstake(client(3_000))
        .flash_block(client(5_000))
        .temporal(client(8_000))
        .helius(Some(client(9_000)), None)
        .jito(client(14_000))
        .harmonic(client(0))
        .build()
        .roster
}

fn config(priority_fee: Option<u64>) -> V1TxConfig {
    V1TxConfig {
        priority_fee,
        compute_unit_limit: Some(200_000),
        loaded_accounts_data_size_limit: Some(65_536),
        heap_size: Some(32_768),
    }
}

fn same_targets(a: &[Shot<Cu>], b: &[Shot<V1TxConfig>]) {
    let left: Vec<(Platform, Option<u64>)> = a.iter().map(|s| (s.platform, s.tip)).collect();
    let right: Vec<(Platform, Option<u64>)> = b.iter().map(|s| (s.platform, s.tip)).collect();
    assert_eq!(left, right);
}

fn same_but_fees(a: &Plan<Cu>, b: &Plan<V1TxConfig>) {
    same_targets(&a.direct, &b.direct);
    same_targets(&a.parallel, &b.parallel);
}

#[test]
fn version_one_hits_the_same_platforms_with_the_same_tips() {
    let r = roster();
    let ratio = TipStrategy::Ratio(F64::from_bits(1.3f64.to_bits()));
    for tip in [None, Some(TipStrategy::Absolute(12_345)), Some(ratio)] {
        for route in ROUTES {
            same_but_fees(
                &dispatch(&r, route, tip, (Some(200_000), Some(9))),
                &dispatch_v1(&r, route, tip, config(Some(9))),
            );
            same_but_fees(
                &dispatch_tip_only(&r, route, 6_000, 200_000),
                &dispatch_tip_only_v1(&r, route, 6_000, config(Some(9))),
            );
        }
        same_but_fees(
            &dispatch_cheap(&r, tip, (None, None)),
            &dispatch_cheap_v1(&r, tip, config(None)),
        );
    }
    let tip_rate = F64::from_bits(1.07f64.to_bits());
    for route in ROUTES {
        same_but_fees(
            &dispatch_with_cost(
                &r,
                route,
                CostConfig {
                    cost_amount: 40_000,
                    cu_limit: 200_000,
                    tip_rate,
                },
            ),
            &dispatch_with_cost_v1(
                &r,
                route,
                CostTxConfig {
                    cost: 40_000,
                    cu_limit: 200_000,
                    tip_rate,
                },
            ),
        );
    }
}

#[test]
fn the_harmonic_fee_is_a_total() {
    let r = roster();
    let own = |tip, fee| dispatch_v1(&r, SendRoute::Harmonic, tip, config(fee)).direct[0];
    let first = own(Some(TipStrategy::Absolute(12_345)), None);
    assert_eq!(first.platform, Platform::Harmonic);
    assert_eq!(first.tip, None);
    assert_eq!(first.fee, config(Some(12_345)));
    assert_eq!(own(Some(TipStrategy::Absolute(12_345)), Some(12_346)).fee, config(Some(12_346)));
    assert_eq!(own(None, Some(7)).fee, config(Some(7)));
    assert_eq!(own(None, None).fee, config(None));
    assert_eq!(own(Some(TipStrategy::Absolute(0)), Some(0)).fee, config(None));
    let plan = dispatch_v1(
        &r,
        SendRoute::Harmonic,
        Some(TipStrategy::Absolute(12_345)),
        config(Some(9)),
    );
    assert!(plan.direct[1..].iter().all(|s| s.fee == config(None)));
}

#[test]
fn a_jito_leader_is_paid_no_fee() {
    let r = roster();
    let plan = dispatch_v1(&r, SendRoute::Jito, None, config(Some(9)));
    assert_eq!(plan.direct.len(), 4);
    assert!(plan.direct.iter().all(|s| s.fee == config(None)));
}

#[test]
fn the_fallback_pays_the_fee_or_the_tip() {
    let r = roster();
    let tip = Some(TipStrategy::Absolute(50_000));
    let plan = dispatch_v1(&r, SendRoute::Fallback, tip, config(Some(9)));
    for s in &plan.direct {
        if s.fee == config(Some(9)) {
            let min = r.client(s.platform).unwrap().min_tip;
            assert_eq!(s.tip, Some((min as f64 * 1.05) as u64));
        } else {
            assert_eq!(s.fee, config(None));
            assert_eq!(s.tip, Some(50_000));
        }
    }
    let paid = plan.direct.iter().filter(|s| s.fee == config(Some(9))).count();
    assert_eq!((paid, plan.direct.len() - paid), (5, 4));
}

#[test]
fn a_tip_only_fee_stays_under_the_ceiling() {
    let r = roster();
    let fee = |asked| {
        let plan = dispatch_v1(&r, SendRoute::TipOnly, None, config(asked));
        assert!(plan.parallel.iter().all(|s| s.fee == plan.direct[0].fee));
        plan.direct[0].fee
    };
    assert_eq!(fee(None), config(Some(80_000)));
    assert_eq!(fee(Some(0)), config(Some(0)));
    assert_eq!(fee(Some(99_999)), config(Some(99_999)));
    assert_eq!(fee(Some(100_001)), config(Some(100_000)));
    assert_eq!(fee(Some(u64::MAX)), config(Some(100_000)));
}

#[test]
fn a_budget_becomes_a_fee_or_a_tip() {
    let r = roster();
    let cost = CostTxConfig {
        cost: 60_000,
        cu_limit: 150_000,
        tip_rate: F64::from_bits(1.2f64.to_bits()),
    };
    let fee = |priority_fee| V1TxConfig {
        priority_fee,
        compute_unit_limit: Some(150_000),
        ..V1TxConfig::default()
    };
    assert_eq!(cost.as_fee_config(), fee(Some(60_000)));
    assert_eq!(cost.as_tip_channel_config(), fee(None));
    for s in &dispatch_with_cost_v1(&r, SendRoute::Fallback, cost).direct {
        if s.fee == fee(Some(60_000)) {
            let min = r.client(s.platform).unwrap().min_tip;
            assert_eq!(s.tip, Some((min as f64 * 1.2) as u64));
        } else {
            assert_eq!(s.fee, fee(None));
            assert_eq!(s.tip, Some(60_000));
        }
    }
    let harmonic = dispatch_with_cost_v1(&r, SendRoute::Harmonic, cost);
    assert_eq!(harmonic.direct[0].fee, fee(Some(60_000)));
    assert!(harmonic.direct[1..].iter().all(|s| s.fee == fee(None)));
    let jito = dispatch_with_cost_v1(&r, SendRoute::Jito, cost);
    assert!(jito.direct.iter().all(|s| s.fee == fee(None) && s.tip == Some(60_000)));
    let tip_only = dispatch_with_cost_v1(&r, SendRoute::TipOnly, cost);
    assert!(tip_only.parallel.iter().all(|s| s.fee == fee(Some(80_000)) && s.tip == Some(60_000)));
}

#[test]
fn a_tip_only_leader_gets_one_shot_per_platform() {
    let r = roster();
    let plan = dispatch_v1(&r, SendRoute::TipOnly, None, config(None));
    let first: Vec<Platform> = plan.direct.iter().map(|s| s.platform).collect();
    let others: Vec<Platform> = plan.parallel.iter().map(|s| s.platform).collect();
    assert_eq!(first, vec![Platform::HeliusMax]);
    assert_eq!(
        others,
        vec![
            Platform::Everstake,
            Platform::AstralaneQuic,
            Platform::FlashBlock,
            Platform::Temporal
        ]
    );
}

#[test]
fn a_tip_only_send_pays_harmonic_the_floor() {
    let r = roster();
    let plan = dispatch_tip_only_v1(&r, SendRoute::Harmonic, 6_000, config(Some(9)));
    assert_eq!(plan.direct.len(), 1);
    assert_eq!(plan.direct[0].tip, None);
    assert_eq!(plan.direct[0].fee, config(Some(6_000)));
    assert!(plan.parallel.iter().all(|s| s.fee == config(None)));
    let none = dispatch_tip_only_v1(&r, SendRoute::Harmonic, 0, config(Some(9)));
    assert_eq!(none.direct[0].fee, config(None));
    let other = dispatch_tip_only_v1(&r, SendRoute::TipOnly, 6_000, config(Some(9)));
    assert!(other.direct.is_empty());
    assert_eq!(other.parallel, plan.parallel);
}

#[test]
fn a_cheap_send_keeps_the_configuration() {
    let r = roster();
    let plan = dispatch_cheap_v1(&r, None, config(Some(9)));
    let seen: Vec<Platform> = plan.direct.iter().map(|s| s.platform).collect();
    assert_eq!(
        seen,
        vec![
            Platform::Everstake,
            Platform::AstralaneQuic,
            Platform::FlashBlock,
            Platform::Jito
        ]
    );
    assert!(plan.direct.iter().all(|s| s.fee == config(Some(9)) && s.tip.is_none()));
}

#[test]
fn a_configuration_changes_its_fee_only() {
    assert_eq!(config(Some(9)).paying(None), config(None));
    assert_eq!(config(None).paying(Some(3)), config(Some(3)));
    assert_eq!(V1TxConfig::default().priority_fee, None);
    assert_eq!(V1TxConfig::default().heap_size, None);
}
