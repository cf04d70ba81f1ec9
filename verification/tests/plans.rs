use sol_tx_dispacher::binary64::F64;
use sol_tx_dispacher::failure::Attempt;
use sol_tx_dispacher::fee::Cu;
use sol_tx_dispacher::fifo::FIFO_LEADERS;
use sol_tx_dispacher::key::Pubkey;
use sol_tx_dispacher::leader::{LeaderInfo, NoopOracle, SlotOracle, TIP_ONLY_LEADERS};
use sol_tx_dispacher::plan::{Plan, Shot};
use sol_tx_dispacher::platform::{Client, Platform, QuicFeatures};
use sol_tx_dispacher::strategy::{
    dispatch, dispatch_cheap, dispatch_first_come, dispatch_tip_only, dispatch_with_cost,
};
use sol_tx_dispacher::{CostConfig, SendRoute, TipStrategy, TxDispacher, TxDispacherBuilder};

const NO_QUIC: QuicFeatures = QuicFeatures {
    astralane_quic: false,
    everstake_quic: false,
};
const QUIC: QuicFeatures = QuicFeatures {
    astralane_quic: true,
    everstake_quic: true,
};

fn client(min_tip: u64) -> Client {
    Client { min_tip }
}

/// All platforms that are reached over HTTP, each with a minimum of its own.
fn http<O: SlotOracle>(oracle: O) -> TxDispacherBuilder<O> {
    TxDispacher::builder(oracle)
        .astralane(client(1_000))
        .everstake(client(3_000))
        .flash_block(client(5_000))
        .nodeone(client(6_000))
        .blockrazor(client(7_000))
        .temporal(client(8_000))
        .helius(Some(client(9_000)), Some(client(10_000)))
        .zeroslot(client(11_000))
        .nextblock(client(12_000))
        .stellium(client(13_000))
        .jito(client(14_000))
        .harmonic(client(0))
}

/// The same and both QUIC transports.
fn full<O: SlotOracle>(oracle: O) -> TxDispacher<O> {
    http(oracle)
        .transports(QUIC)
        .astralane_quic(client(2_000))
        .everstake_quic(client(4_000))
        .build()
}

fn minimum(p: Platform) -> u64 {
    match p {
        Platform::Astralane => 1_000,
        Platform::AstralaneQuic => 2_000,
        Platform::Everstake => 3_000,
        Platform::EverstakeQuic => 4_000,
        Platform::FlashBlock => 5_000,
        Platform::NodeOne => 6_000,
        Platform::Blockrazor => 7_000,
        Platform::Temporal => 8_000,
        Platform::HeliusMax => 9_000,
        Platform::HeliusSwqos => 10_000,
        Platform::ZeroSlot => 11_000,
        Platform::NextBlock => 12_000,
        Platform::Stellium => 13_000,
        Platform::Jito => 14_000,
        Platform::Harmonic => 0,
    }
}

fn times(min: u64, ratio: f64) -> u64 {
    (min as f64 * ratio) as u64
}

fn shot(platform: Platform, tip: Option<u64>, fee: Cu) -> Shot<Cu> {
    Shot { platform, tip, fee }
}

fn platforms(shots: &[Shot<Cu>]) -> Vec<Platform> {
    shots.iter().map(|s| s.platform).collect()
}

fn all(plan: &Plan<Cu>) -> Vec<Shot<Cu>> {
    plan.direct.iter().chain(plan.parallel.iter()).copied().collect()
}

#[test]
fn harmonic_route_reaches_every_platform() {
    let d = full(NoopOracle);
    let cu: Cu = (Some(200_000), Some(50_000));
    let tip = Some(TipStrategy::Absolute(100_000));
    let plan = dispatch(&d.roster, SendRoute::Harmonic, tip, cu);
    let plain: Cu = (Some(200_000), None);
    let mut expected = vec![
        // 100_000 lamports over 200_000 units are 500_000 micro-lamports each.
        shot(Platform::Harmonic, None, (Some(200_000), Some(500_000))),
        shot(Platform::AstralaneQuic, Some(90_000), plain),
        shot(Platform::Temporal, Some(90_000), plain),
    ];
    for p in [
        Platform::EverstakeQuic,
        Platform::Everstake,
        Platform::FlashBlock,
        Platform::Astralane,
        Platform::NodeOne,
        Platform::Blockrazor,
        Platform::HeliusMax,
        Platform::HeliusSwqos,
        Platform::ZeroSlot,
        Platform::NextBlock,
        Platform::Stellium,
        Platform::Jito,
    ] {
        expected.push(shot(p, Some(100_000), plain));
    }
    assert_eq!(plan.direct, expected);
    assert!(plan.parallel.is_empty());
}

#[test]
fn harmonic_takes_the_higher_of_tip_and_price() {
    let d = TxDispacher::builder(NoopOracle).harmonic(client(0)).build();
    let own = |tip, cu| dispatch(&d.roster, SendRoute::Harmonic, tip, cu).direct[0].fee;
    let n = |n| Some(TipStrategy::Absolute(n));
    assert_eq!(own(n(1_000), (Some(100_000), Some(9_999))), (Some(100_000), Some(10_000)));
    assert_eq!(own(n(1_000), (Some(100_000), Some(10_001))), (Some(100_000), Some(10_001)));
    // Without a limit the price is reckoned over 200_000 units, and none is set.
    assert_eq!(own(n(1_000), (None, None)), (None, Some(5_000)));
    // A ratio has no minimum to start from.
    let ratio = Some(TipStrategy::Ratio(F64::from_bits(2.0f64.to_bits())));
    assert_eq!(own(ratio, (Some(100_000), None)), (Some(100_000), None));
    assert_eq!(own(None, (Some(100_000), Some(0))), (Some(100_000), None));
    assert_eq!(own(n(1_000), (Some(0), None)), (Some(0), None));
    assert_eq!(own(n(1_000), (Some(0), Some(7))), (Some(0), Some(7)));
    assert_eq!(own(n(u64::MAX), (Some(1), None)), (Some(1), Some(u64::MAX)));
}

#[test]
fn harmonic_route_without_a_strategy_leaves_the_tips_alone() {
    let d = full(NoopOracle);
    let plan = dispatch(&d.roster, SendRoute::Harmonic, None, (Some(1), None));
    assert_eq!(plan.direct.len(), 15);
    assert!(plan.direct.iter().all(|s| s.tip.is_none() && s.fee == (Some(1), None)));
}

#[test]
fn jito_route_tips_without_a_price() {
    let d = full(NoopOracle);
    let tip = Some(TipStrategy::Absolute(10_000));
    let plan = dispatch(&d.roster, SendRoute::Jito, tip, (Some(200_000), Some(50_000)));
    let plain: Cu = (Some(200_000), None);
    assert_eq!(
        plan.direct,
        vec![
            shot(Platform::AstralaneQuic, Some(10_000), plain),
            shot(Platform::FlashBlock, Some(10_000), plain),
            shot(Platform::Temporal, Some(10_000), plain),
            shot(Platform::ZeroSlot, Some(11_220), plain),
            shot(Platform::Jito, Some(14_280), plain),
        ]
    );
    assert!(plan.parallel.is_empty());
}

#[test]
fn http_stands_back_for_quic_by_transport() {
    let tip = Some(TipStrategy::Absolute(1));
    let cu: Cu = (None, None);
    let without = http(NoopOracle).build();
    assert_eq!(
        platforms(&dispatch_cheap(&without.roster, tip, cu).direct),
        vec![
            Platform::Everstake,
            Platform::Astralane,
            Platform::FlashBlock,
            Platform::Jito
        ]
    );
    // A transport that is built in counts, even without a client.
    let built_in = http(NoopOracle).transports(QUIC).build();
    assert_eq!(
        platforms(&dispatch_cheap(&built_in.roster, tip, cu).direct),
        vec![Platform::FlashBlock, Platform::Jito]
    );
    let one = http(NoopOracle)
        .transports(QuicFeatures {
            astralane_quic: true,
            everstake_quic: false,
        })
        .astralane_quic(client(2_000))
        .build();
    assert_eq!(
        platforms(&dispatch_cheap(&one.roster, tip, cu).direct),
        vec![
            Platform::Everstake,
            Platform::AstralaneQuic,
            Platform::FlashBlock,
            Platform::Jito
        ]
    );
    // A Harmonic leader gets both transports.
    let both = full(NoopOracle);
    let seen = platforms(&dispatch(&both.roster, SendRoute::Harmonic, tip, cu).direct);
    assert!(seen.contains(&Platform::Astralane) && seen.contains(&Platform::AstralaneQuic));
    assert!(seen.contains(&Platform::Everstake) && seen.contains(&Platform::EverstakeQuic));
}

#[test]
fn fallback_bids_by_price_and_by_tip() {
    let d = full(NoopOracle);
    let cu: Cu = (Some(200_000), Some(50_000));
    let plain: Cu = (Some(200_000), None);
    let plan = d.send(422_231_110, Some(TipStrategy::Absolute(20_000)), cu);
    let mut expected = Vec::new();
    for (p, priced, by_tip) in [
        (Platform::EverstakeQuic, true, false),
        (Platform::AstralaneQuic, true, true),
        (Platform::FlashBlock, true, true),
        (Platform::NodeOne, true, false),
        (Platform::Blockrazor, true, false),
        (Platform::Temporal, true, true),
        (Platform::HeliusMax, true, false),
        (Platform::HeliusSwqos, true, false),
        (Platform::ZeroSlot, true, true),
        (Platform::NextBlock, true, false),
        (Platform::Stellium, true, false),
        (Platform::Jito, false, true),
    ] {
        if priced {
            expected.push(shot(p, Some(times(minimum(p), 1.05)), cu));
        }
        if by_tip {
            expected.push(shot(p, Some(20_000), plain));
        }
    }
    assert_eq!(plan.direct, expected);
    assert!(plan.parallel.is_empty());
}

#[test]
fn fallback_over_http_uses_the_http_transports() {
    let d = http(NoopOracle).build();
    let seen = platforms(&d.send(1, None, (None, None)).direct);
    assert_eq!(seen[0], Platform::Everstake);
    assert_eq!(seen[1..3], [Platform::Astralane, Platform::Astralane]);
    assert_eq!(seen.len(), 16);
}

#[test]
fn fallback_without_a_strategy_leaves_the_plain_tips_alone() {
    let d = full(NoopOracle);
    let plan = d.send(1, None, (Some(9), Some(8)));
    for s in &plan.direct {
        if s.fee.1.is_some() {
            assert_eq!(s.tip, Some(times(minimum(s.platform), 1.05)));
        } else {
            assert_eq!(s.tip, None);
        }
    }
}

#[test]
fn tip_only_leaders_get_a_price_under_the_ceiling() {
    let d = full(NoopOracle);
    let fee = |cu| {
        let plan = dispatch(&d.roster, SendRoute::TipOnly, None, cu);
        let fees: Vec<Cu> = all(&plan).iter().map(|s| s.fee).collect();
        assert!(fees.iter().all(|f| *f == fees[0]));
        fees[0]
    };
    // 100_000 lamports over 200_000 units are 500_000 micro-lamports each.
    assert_eq!(fee((Some(200_000), None)), (Some(200_000), Some(400_000)));
    assert_eq!(fee((None, None)), (Some(200_000), Some(400_000)));
    assert_eq!(fee((Some(200_000), Some(499_999))), (Some(200_000), Some(499_999)));
    assert_eq!(fee((Some(200_000), Some(500_001))), (Some(200_000), Some(500_000)));
    assert_eq!(fee((Some(200_000), Some(0))), (Some(200_000), Some(0)));
    assert_eq!(fee((Some(3), None)), (Some(3), Some(26_666_666_666)));
    assert_eq!(fee((Some(1), None)), (Some(1), Some(80_000_000_000)));
    assert_eq!(fee((Some(u32::MAX), None)), (Some(u32::MAX), Some(18)));
}

#[test]
fn tip_only_leaders_get_helius_first_and_then_the_others() {
    let d = full(NoopOracle);
    let cu: Cu = (Some(200_000), None);
    let fee: Cu = (Some(200_000), Some(400_000));
    let plan = dispatch(&d.roster, SendRoute::TipOnly, None, cu);
    assert_eq!(plan.direct, vec![shot(Platform::HeliusMax, Some(9_000), fee)]);
    let order = [
        Platform::EverstakeQuic,
        Platform::AstralaneQuic,
        Platform::FlashBlock,
        Platform::Temporal,
        Platform::ZeroSlot,
        Platform::NodeOne,
        Platform::Blockrazor,
        Platform::HeliusSwqos,
        Platform::NextBlock,
        Platform::Stellium,
    ];
    let expected: Vec<Shot<Cu>> = order
        .iter()
        .map(|p| shot(*p, Some(minimum(*p).max(5_000)), fee))
        .collect();
    assert_eq!(plan.parallel, expected);
    let high = dispatch(
        &d.roster,
        SendRoute::TipOnly,
        Some(TipStrategy::Absolute(10_500)),
        cu,
    );
    for s in all(&high) {
        assert_eq!(s.tip, Some(minimum(s.platform).max(10_500)));
    }
    // A ratio starts from no minimum, so that the platforms' own minimums hold.
    let ratio = Some(TipStrategy::Ratio(F64::from_bits(3.0f64.to_bits())));
    for s in all(&dispatch(&d.roster, SendRoute::TipOnly, ratio, cu)) {
        assert_eq!(s.tip, Some(minimum(s.platform)));
    }
}

#[test]
fn a_tip_only_leader_without_helius_gets_the_broadcast_alone() {
    let d = TxDispacher::builder(NoopOracle).nodeone(client(1)).build();
    let plan = dispatch(&d.roster, SendRoute::TipOnly, None, (Some(1), None));
    assert!(plan.direct.is_empty());
    assert_eq!(platforms(&plan.parallel), vec![Platform::NodeOne]);
}

fn budget(cost_amount: u64, cu_limit: u32, tip_rate: f64) -> CostConfig {
    CostConfig {
        cost_amount,
        cu_limit,
        tip_rate: F64::from_bits(tip_rate.to_bits()),
    }
}

#[test]
fn a_budget_is_spent_by_price_or_by_tip() {
    let d = full(NoopOracle);
    let plan = d.send_with_cost(7, budget(50_000, 100_000, 1.1));
    let priced: Cu = (Some(100_000), Some(500_000));
    let plain: Cu = (Some(100_000), None);
    assert_eq!(plan.direct.len(), 16);
    for s in &plan.direct {
        if s.fee == priced {
            assert_eq!(s.tip, Some(times(minimum(s.platform), 1.1)));
            assert_ne!(s.platform, Platform::Jito);
        } else {
            assert_eq!(s.fee, plain);
            assert_eq!(s.tip, Some(50_000));
        }
    }
    let both: Vec<Platform> = plan
        .direct
        .iter()
        .filter(|s| s.fee == plain)
        .map(|s| s.platform)
        .collect();
    assert_eq!(
        both,
        vec![
            Platform::AstralaneQuic,
            Platform::FlashBlock,
            Platform::Temporal,
            Platform::ZeroSlot,
            Platform::Jito
        ]
    );
}

#[test]
fn a_budget_over_no_units_sets_no_price() {
    let d = full(NoopOracle);
    let plan = d.send_with_cost(7, budget(50_000, 0, 1.1));
    assert!(plan.direct.iter().all(|s| s.fee == (Some(0), None)));
}

#[test]
fn a_budget_is_the_tip_on_the_other_routes() {
    let d = full(NoopOracle);
    let config = budget(50_000, 100_000, 1.1);
    let tip = Some(TipStrategy::Absolute(50_000));
    let cu: Cu = (Some(100_000), None);
    for route in [SendRoute::Harmonic, SendRoute::Jito, SendRoute::TipOnly] {
        assert_eq!(
            dispatch_with_cost(&d.roster, route, config),
            dispatch(&d.roster, route, tip, cu)
        );
    }
    let harmonic = dispatch_with_cost(&d.roster, SendRoute::Harmonic, config);
    assert_eq!(
        harmonic.direct[0],
        shot(Platform::Harmonic, None, (Some(100_000), Some(500_000)))
    );
}

#[test]
fn a_tip_only_send_keeps_the_floor() {
    let d = full(NoopOracle);
    let plain: Cu = (Some(100_000), None);
    let by_tip = |route| dispatch_tip_only(&d.roster, route, 9_500, 100_000);
    let harmonic = by_tip(SendRoute::Harmonic);
    assert_eq!(
        harmonic.direct,
        vec![shot(Platform::Harmonic, None, (Some(100_000), Some(95_000)))]
    );
    let fallback = by_tip(SendRoute::Fallback);
    assert!(fallback.direct.is_empty());
    assert_eq!(fallback.parallel, harmonic.parallel);
    assert_eq!(fallback.parallel.len(), 11);
    for s in &fallback.parallel {
        assert_eq!(s.tip, Some(minimum(s.platform).max(9_500)));
        assert_eq!(s.fee, plain);
    }
    assert_eq!(by_tip(SendRoute::TipOnly), fallback);
    let jito = by_tip(SendRoute::Jito);
    assert!(jito.parallel.is_empty());
    assert_eq!(
        jito.direct,
        vec![
            shot(Platform::AstralaneQuic, Some(9_500), plain),
            shot(Platform::FlashBlock, Some(9_500), plain),
            shot(Platform::Temporal, Some(9_500), plain),
            shot(Platform::ZeroSlot, Some(11_000), plain),
            shot(Platform::Jito, Some(14_000), plain),
        ]
    );
    // A floor of nothing is no price for Harmonic.
    let none = dispatch_tip_only(&d.roster, SendRoute::Harmonic, 0, 100_000);
    assert_eq!(none.direct, vec![shot(Platform::Harmonic, None, plain)]);
}

#[test]
fn a_cheap_send_keeps_the_price_of_the_caller() {
    let d = full(NoopOracle);
    let cu: Cu = (Some(70_000), Some(3));
    let plan = d.send_cheap(None, cu);
    assert_eq!(
        plan.direct,
        vec![
            shot(Platform::EverstakeQuic, None, cu),
            shot(Platform::AstralaneQuic, None, cu),
            shot(Platform::FlashBlock, None, cu),
            shot(Platform::Jito, None, cu),
        ]
    );
    assert!(plan.parallel.is_empty());
}

#[test]
fn nobody_registered_means_nothing_sent() {
    let d = TxDispacher::builder(NoopOracle).transports(NO_QUIC).build();
    let tip = Some(TipStrategy::Absolute(1));
    for route in [
        SendRoute::Harmonic,
        SendRoute::Jito,
        SendRoute::Fallback,
        SendRoute::TipOnly,
    ] {
        let plan = dispatch(&d.roster, route, tip, (Some(1), Some(1)));
        assert!(plan.direct.is_empty() && plan.parallel.is_empty());
    }
}

/// An oracle that always describes the same leader.
struct Always(Option<LeaderInfo>);

impl SlotOracle for Always {
    fn leader_at(&self, _slot: u64) -> Option<LeaderInfo> {
        self.0
    }
}

fn first_come(account: [u8; 32], id: u16, jito: bool) -> Always {
    Always(Some(LeaderInfo {
        leader_pubkey: Some(Pubkey { bytes: account }),
        is_harmonic: false,
        is_jito: jito,
        client_type_id: Some(id),
    }))
}

#[test]
fn first_come_leaders_ignore_bids() {
    let (account, id) = FIFO_LEADERS[2];
    let d = full(first_come(account, id, false));
    assert_eq!(d.resolve_route(5), SendRoute::Fallback);
    let quiet = d.send(5, None, (Some(200_000), None));
    let loud = d.send(
        5,
        Some(TipStrategy::Absolute(9_999_999)),
        (Some(200_000), Some(77_777)),
    );
    assert_eq!(quiet, loud);
    assert_eq!(loud.direct.len(), 16);
    assert!(loud.direct.iter().all(|s| s.fee == (Some(200_000), None) && s.tip.is_none()));
    assert_eq!(d.send_with_cost(5, budget(9_999_999, 200_000, 2.0)), quiet);
    // On a route that only tips, no tip is set either.
    let jito = full(first_come(account, id, true));
    let plan = jito.send(5, Some(TipStrategy::Absolute(1)), (Some(1), Some(1)));
    assert_eq!(plan, dispatch(&jito.roster, SendRoute::Jito, None, (Some(1), None)));
    assert!(plan.direct.iter().all(|s| s.tip.is_none()));
}

#[test]
fn first_come_leaders_are_reached_over_their_route() {
    let d = full(NoopOracle);
    let tip = Some(TipStrategy::Absolute(70_000));
    let cu: Cu = (Some(90_000), Some(5));
    for route in [
        SendRoute::Harmonic,
        SendRoute::Jito,
        SendRoute::Fallback,
        SendRoute::TipOnly,
    ] {
        let quiet = d.send_on(route, true, tip, cu);
        let loud = d.send_on(route, false, tip, cu);
        assert_eq!(quiet, dispatch_first_come(&d.roster, route, Some(90_000)));
        assert_eq!(platforms(&quiet.direct), platforms(&loud.direct));
        assert_eq!(platforms(&quiet.parallel), platforms(&loud.parallel));
        assert!(all(&quiet).iter().all(|s| s.tip.is_none() && s.fee == (Some(90_000), None)));
    }
}

#[test]
fn first_come_does_not_touch_the_other_sends() {
    let (account, id) = FIFO_LEADERS[2];
    let d = full(first_come(account, id, false));
    let floor = d.send_tip_only(5, 9_500, 100_000);
    assert_eq!(floor, dispatch_tip_only(&d.roster, SendRoute::Fallback, 9_500, 100_000));
    let tip = Some(TipStrategy::Absolute(60_000));
    let cheap = d.send_cheap(tip, (None, Some(2)));
    assert!(cheap.direct.iter().all(|s| s.tip == Some(60_000) && s.fee == (None, Some(2))));
}

#[test]
fn a_first_come_leader_on_the_tip_only_list_gets_no_price() {
    let (account, id) = FIFO_LEADERS[0];
    assert!(TIP_ONLY_LEADERS.contains(&account));
    let d = full(first_come(account, id, false));
    assert_eq!(d.resolve_route(5), SendRoute::TipOnly);
    assert!(d.is_fifo_leader(5));
    let plan = d.send(5, Some(TipStrategy::Absolute(1)), (Some(200_000), Some(1)));
    assert_eq!(
        plan.direct,
        vec![shot(Platform::HeliusMax, None, (Some(200_000), None))]
    );
    assert_eq!(plan.parallel.len(), 10);
    assert!(all(&plan).iter().all(|s| s.fee == (Some(200_000), None) && s.tip.is_none()));
    assert_eq!(d.send_with_cost(5, budget(9_999_999, 200_000, 2.0)), plan);
    // Without a price there is nothing to divide by the limit.
    let zero = d.send(5, None, (Some(0), Some(1)));
    assert!(all(&zero).iter().all(|s| s.fee == (Some(0), None)));
    let unset = d.send(5, None, (None, Some(1)));
    assert!(all(&unset).iter().all(|s| s.fee == (None, None)));
}

#[test]
fn a_send_follows_the_leader() {
    let harmonic = full(Always(Some(LeaderInfo {
        leader_pubkey: None,
        is_harmonic: true,
        is_jito: false,
        client_type_id: Some(1),
    })));
    let tip = Some(TipStrategy::Absolute(50_000));
    let cu: Cu = (Some(100_000), Some(1));
    assert_eq!(
        harmonic.send(1, tip, cu),
        dispatch(&harmonic.roster, SendRoute::Harmonic, tip, cu)
    );
    assert_eq!(
        harmonic.send_tip_only(1, 5, 6),
        dispatch_tip_only(&harmonic.roster, SendRoute::Harmonic, 5, 6)
    );
    assert_eq!(
        harmonic.send_tip_only_attempt(1, 5, 6),
        (
            dispatch_tip_only(&harmonic.roster, SendRoute::Harmonic, 5, 6),
            Attempt::TipOnly(SendRoute::Harmonic)
        )
    );
    let config = budget(50_000, 100_000, 1.01);
    assert_eq!(
        harmonic.send_with_cost(1, config),
        dispatch_with_cost(&harmonic.roster, SendRoute::Harmonic, config)
    );
    assert_eq!(
        harmonic.send_on(SendRoute::Jito, false, tip, cu),
        dispatch(&harmonic.roster, SendRoute::Jito, tip, cu)
    );
    assert_eq!(
        harmonic.send_with_cost_on(SendRoute::Jito, true, config),
        dispatch(&harmonic.roster, SendRoute::Jito, None, (Some(100_000), None))
    );
}

#[test]
fn every_tip_covers_the_platform_minimum() {
    let d = full(NoopOracle);
    let ratios = [0.0, 0.5, 1.0, 1.019, 1.5];
    for route in [
        SendRoute::Harmonic,
        SendRoute::Jito,
        SendRoute::Fallback,
        SendRoute::TipOnly,
    ] {
        for r in ratios {
            let tip = Some(TipStrategy::Ratio(F64::from_bits(f64::to_bits(r))));
            for s in all(&dispatch(&d.roster, route, tip, (Some(10), Some(10)))) {
                assert!(s.tip.map_or(true, |t| t >= minimum(s.platform)));
            }
        }
        for s in all(&dispatch_tip_only(&d.roster, route, 1, 1)) {
            assert!(s.tip.map_or(true, |t| t >= minimum(s.platform)));
        }
    }
}

#[test]
fn no_platform_is_fired_at_more_often_than_meant() {
    let d = full(NoopOracle);
    let tip = Some(TipStrategy::Absolute(1));
    let count = |shots: &[Shot<Cu>], p: Platform| shots.iter().filter(|s| s.platform == p).count();
    for route in [SendRoute::Harmonic, SendRoute::Jito] {
        let plan = dispatch(&d.roster, route, tip, (Some(1), Some(1)));
        for s in &plan.direct {
            assert_eq!(count(&plan.direct, s.platform), 1);
        }
    }
    let fallback = dispatch(&d.roster, SendRoute::Fallback, tip, (Some(1), Some(1)));
    for s in &fallback.direct {
        assert!(count(&fallback.direct, s.platform) <= 2);
    }
    let tip_only = dispatch(&d.roster, SendRoute::TipOnly, tip, (Some(1), Some(1)));
    for s in all(&tip_only) {
        assert_eq!(count(&all(&tip_only), s.platform), 1);
    }
    for route in [SendRoute::Harmonic, SendRoute::Jito, SendRoute::Fallback] {
        let by_tip = all(&dispatch_tip_only(&d.roster, route, 1, 1));
        for s in &by_tip {
            assert_eq!(count(&by_tip, s.platform), 1);
        }
    }
}

#[test]
fn the_builder_registers_what_it_is_given() {
    let r = full(NoopOracle).roster;
    for p in [
        Platform::Astralane,
        Platform::AstralaneQuic,
        Platform::Everstake,
        Platform::EverstakeQuic,
        Platform::FlashBlock,
        Platform::NodeOne,
        Platform::Blockrazor,
        Platform::Temporal,
        Platform::HeliusMax,
        Platform::HeliusSwqos,
        Platform::ZeroSlot,
        Platform::NextBlock,
        Platform::Stellium,
        Platform::Jito,
        Platform::Harmonic,
    ] {
        assert_eq!(r.client(p), Some(client(minimum(p))));
    }
    assert_eq!(r.preferred_client(Platform::Astralane), None);
    assert_eq!(r.preferred_client(Platform::Everstake), None);
    assert_eq!(r.preferred_client(Platform::AstralaneQuic), Some(client(2_000)));
    let again = TxDispacher::builder(NoopOracle).jito(client(1)).jito(client(2)).build();
    assert_eq!(again.roster.jito, Some(client(2)));
    assert_eq!(again.roster.harmonic, None);
}
