//! The sending strategies for version 0 transactions, one plan per route.
//!
//! Each mode combines three things: a lineup of platforms, a tip rule, and the
//! compute limit and price that go with it.

use crate::binary64::{of_bits, F64};
use crate::fee::{cu_price_for, if_positive, positive, price_of, CostConfig, Cu};
use crate::leader::SendRoute;
use crate::plan::{
    once, push_once, push_single, push_two_rounds, single, two_rounds, Bid, Offer, Plan, PlanView,
    Round, Shot,
};
use crate::platform::{Platform, Roster};
use crate::tip::{larger, max_amount, TipStrategy};
use vstd::prelude::*;

verus! {

/// 0.9: the share of the tip that the two discounted platforms get while a
/// Harmonic node leads.
pub const DISCOUNT: u64 = 0x3FEC_CCCC_CCCC_CCCD;

/// 1.05: the multiple of a platform's minimum tip that accompanies a bid by
/// compute price.
pub const PRICED_TIP: u64 = 0x3FF0_CCCC_CCCC_CCCD;

/// 0.8: the share of the price ceiling that a tip-only send takes by default.
pub const CEILING_SHARE: u64 = 0x3FE9_9999_9999_999A;

/// The compute-unit limit that prices are reckoned with where none is set.
pub const DEFAULT_CU_LIMIT: u32 = 200_000;

/// The most that a tip-only send spends on priority, in lamports.
pub const FEE_CEILING: u64 = 100_000;

/// The least tip of a tip-only send where no strategy is given, in lamports.
pub const DEFAULT_TIP_FLOOR: u64 = 5_000;

/// While a Harmonic node leads: the platforms that get a reduced tip.
pub const HARMONIC_DISCOUNTED: [Platform; 2] = [Platform::AstralaneQuic, Platform::Temporal];

/// While a Harmonic node leads: the platforms that get the full tip.
pub const HARMONIC_OTHERS: [Platform; 12] = [
    Platform::EverstakeQuic,
    Platform::Everstake,
    Platform::FlashBlock,
    Platform::Astralane,
    Platform::NodeOne,
    Platform::Blockrazor,
    Platform::HeliusMax,
    Platform::HeliusSwqos,
    Platform::ZeroSlot,
    Platform::NextBlock,
    Platform::Stellium,
    Platform::Jito,
];

/// While a Jito node leads: the platforms that rank by tip.
pub const JITO_LINEUP: [Platform; 6] = [
    Platform::AstralaneQuic,
    Platform::Astralane,
    Platform::FlashBlock,
    Platform::Temporal,
    Platform::ZeroSlot,
    Platform::Jito,
];

/// The platforms of the fallback and the rounds that each takes part in.
pub const FALLBACK_LINEUP: [(Platform, Round); 14] = [
    (Platform::EverstakeQuic, Round::Priced),
    (Platform::Everstake, Round::Priced),
    (Platform::AstralaneQuic, Round::Both),
    (Platform::Astralane, Round::Both),
    (Platform::FlashBlock, Round::Both),
    (Platform::NodeOne, Round::Priced),
    (Platform::Blockrazor, Round::Priced),
    (Platform::Temporal, Round::Both),
    (Platform::HeliusMax, Round::Priced),
    (Platform::HeliusSwqos, Round::Priced),
    (Platform::ZeroSlot, Round::Both),
    (Platform::NextBlock, Round::Priced),
    (Platform::Stellium, Round::Priced),
    (Platform::Jito, Round::Plain),
];

/// The few platforms of a low-cost send.
pub const CHEAP_LINEUP: [Platform; 6] = [
    Platform::EverstakeQuic,
    Platform::Everstake,
    Platform::AstralaneQuic,
    Platform::Astralane,
    Platform::FlashBlock,
    Platform::Jito,
];

/// Every platform but Jito and Harmonic.
pub const BROADCAST_LINEUP: [Platform; 13] = [
    Platform::EverstakeQuic,
    Platform::Everstake,
    Platform::AstralaneQuic,
    Platform::Astralane,
    Platform::FlashBlock,
    Platform::Temporal,
    Platform::ZeroSlot,
    Platform::NodeOne,
    Platform::Blockrazor,
    Platform::HeliusMax,
    Platform::HeliusSwqos,
    Platform::NextBlock,
    Platform::Stellium,
];

/// The same without Helius Max.
pub const BROADCAST_OTHERS: [Platform; 12] = [
    Platform::EverstakeQuic,
    Platform::Everstake,
    Platform::AstralaneQuic,
    Platform::Astralane,
    Platform::FlashBlock,
    Platform::Temporal,
    Platform::ZeroSlot,
    Platform::NodeOne,
    Platform::Blockrazor,
    Platform::HeliusSwqos,
    Platform::NextBlock,
    Platform::Stellium,
];

// ── What the modes plan, for either transaction version ──────────────────────

/// An offer with a tip by strategy.
pub open spec fn by_strategy<F>(tip: Option<TipStrategy>, fee: F) -> Offer<F> {
    Offer { bid: Bid::Strategy(tip), fee }
}

/// An offer with a tip of at least so much.
pub open spec fn at_least<F>(floor: u64, fee: F) -> Offer<F> {
    Offer { bid: Bid::AtLeast(floor), fee }
}

/// A strategy reduced to the discounted share.
pub open spec fn discounted(tip: Option<TipStrategy>) -> Option<TipStrategy> {
    match tip {
        None => None,
        Some(s) => Some(s.times(of_bits(DISCOUNT))),
    }
}

/// The lamports that a strategy bids without a platform minimum to start from.
pub open spec fn base_amount(tip: Option<TipStrategy>, default: u64) -> u64 {
    match tip {
        None => default,
        Some(s) => s.amount(0),
    }
}

/// A Harmonic node leads: Harmonic at its own fee and without a tip, then every
/// other platform at the plain fee, two of them at a reduced tip.
pub open spec fn harmonic_plan<F>(
    roster: Roster,
    tip: Option<TipStrategy>,
    own: F,
    plain: F,
) -> PlanView<F> {
    PlanView {
        direct: single(Platform::Harmonic, roster.harmonic, by_strategy(None, own)) + once(
            roster,
            false,
            HARMONIC_DISCOUNTED@,
            by_strategy(discounted(tip), plain),
        ) + once(roster, false, HARMONIC_OTHERS@, by_strategy(tip, plain)),
        parallel: seq![],
    }
}

/// One offer to each platform of a lineup, one after the other.
pub open spec fn lineup_plan<F>(
    roster: Roster,
    lineup: Seq<Platform>,
    offer: Offer<F>,
) -> PlanView<F> {
    PlanView { direct: once(roster, true, lineup, offer), parallel: seq![] }
}

/// The fallback: a priced round and a plain round over all the platforms.
pub open spec fn fallback_plan<F>(
    roster: Roster,
    priced: Offer<F>,
    plain: Offer<F>,
) -> PlanView<F> {
    PlanView {
        direct: two_rounds(roster, FALLBACK_LINEUP@, priced, plain),
        parallel: seq![],
    }
}

/// The broadcast: one platform's own shot first, then one offer to every
/// platform but Jito and Harmonic, side by side.
pub open spec fn broadcast_plan<F>(
    roster: Roster,
    first: Seq<Shot<F>>,
    offer: Offer<F>,
) -> PlanView<F> {
    PlanView { direct: first, parallel: once(roster, true, BROADCAST_LINEUP@, offer) }
}

/// One offer to every platform but Jito and Harmonic: to Helius Max first, to the
/// others side by side.
pub open spec fn helius_first_plan<F>(roster: Roster, offer: Offer<F>) -> PlanView<F> {
    PlanView {
        direct: single(Platform::HeliusMax, roster.helius_max, offer),
        parallel: once(roster, true, BROADCAST_OTHERS@, offer),
    }
}

fn discount(tip: Option<TipStrategy>) -> (r: Option<TipStrategy>)
    ensures
        r == discounted(tip),
{
    match tip {
        None => None,
        Some(s) => Some(s.scaled(F64::from_bits(DISCOUNT))),
    }
}

/// The lamports that a strategy bids without a platform minimum to start from.
pub fn base_bid(tip: Option<TipStrategy>, default: u64) -> (r: u64)
    ensures
        r == base_amount(tip, default),
{
    match tip {
        None => default,
        Some(s) => s.compute(0),
    }
}

/// Plans for a Harmonic leader, given Harmonic's own fee and the plain one.
pub fn plan_harmonic<F: Copy>(
    roster: &Roster,
    tip: Option<TipStrategy>,
    own: F,
    plain: F,
) -> (r: Plan<F>)
    ensures
        r@ == harmonic_plan(*roster, tip, own, plain),
{
    let mut direct: Vec<Shot<F>> = Vec::new();
    push_single(
        &mut direct,
        Platform::Harmonic,
        roster.harmonic,
        &Offer { bid: Bid::Strategy(None), fee: own },
    );
    let reduced = HARMONIC_DISCOUNTED;
    push_once(
        &mut direct,
        roster,
        false,
        reduced.as_slice(),
        &Offer { bid: Bid::Strategy(discount(tip)), fee: plain },
    );
    let others = HARMONIC_OTHERS;
    push_once(
        &mut direct,
        roster,
        false,
        others.as_slice(),
        &Offer { bid: Bid::Strategy(tip), fee: plain },
    );
    let r = Plan { direct, parallel: Vec::new() };
    proof {
        let v = harmonic_plan(*roster, tip, own, plain);
        assert(r@.direct =~= v.direct);
        assert(r@.parallel =~= v.parallel);
    }
    r
}

/// Plans one offer to each platform of a lineup.
pub fn plan_lineup<F: Copy>(roster: &Roster, lineup: &[Platform], offer: &Offer<F>) -> (r: Plan<F>)
    ensures
        r@ == lineup_plan(*roster, lineup@, *offer),
{
    let mut direct: Vec<Shot<F>> = Vec::new();
    push_once(&mut direct, roster, true, lineup, offer);
    let r = Plan { direct, parallel: Vec::new() };
    proof {
        let v = lineup_plan(*roster, lineup@, *offer);
        assert(r@.direct =~= v.direct);
        assert(r@.parallel =~= v.parallel);
    }
    r
}

/// Plans the two rounds of the fallback.
pub fn plan_fallback<F: Copy>(
    roster: &Roster,
    priced: &Offer<F>,
    plain: &Offer<F>,
) -> (r: Plan<F>)
    ensures
        r@ == fallback_plan(*roster, *priced, *plain),
{
    let mut direct: Vec<Shot<F>> = Vec::new();
    let lineup = FALLBACK_LINEUP;
    push_two_rounds(&mut direct, roster, lineup.as_slice(), priced, plain);
    let r = Plan { direct, parallel: Vec::new() };
    proof {
        let v = fallback_plan(*roster, *priced, *plain);
        assert(r@.direct =~= v.direct);
        assert(r@.parallel =~= v.parallel);
    }
    r
}

/// Plans the side-by-side broadcast of one offer, after the given first shots.
pub fn fire_all_parallel<F: Copy>(
    roster: &Roster,
    first: Vec<Shot<F>>,
    offer: &Offer<F>,
) -> (r: Plan<F>)
    ensures
        r@ == broadcast_plan(*roster, first@, *offer),
{
    let mut parallel: Vec<Shot<F>> = Vec::new();
    let lineup = BROADCAST_LINEUP;
    push_once(&mut parallel, roster, true, lineup.as_slice(), offer);
    let r = Plan { direct: first, parallel };
    proof {
        let v = broadcast_plan(*roster, first@, *offer);
        assert(r@.parallel =~= v.parallel);
    }
    r
}

/// Plans one offer to Helius Max first and to the other broadcast platforms side
/// by side.
pub fn plan_helius_first<F: Copy>(roster: &Roster, offer: &Offer<F>) -> (r: Plan<F>)
    ensures
        r@ == helius_first_plan(*roster, *offer),
{
    let mut direct: Vec<Shot<F>> = Vec::new();
    push_single(&mut direct, Platform::HeliusMax, roster.helius_max, offer);
    let mut parallel: Vec<Shot<F>> = Vec::new();
    let lineup = BROADCAST_OTHERS;
    push_once(&mut parallel, roster, true, lineup.as_slice(), offer);
    let r = Plan { direct, parallel };
    proof {
        let v = helius_first_plan(*roster, *offer);
        assert(r@.direct =~= v.direct);
        assert(r@.parallel =~= v.parallel);
    }
    r
}

// ── The modes ────────────────────────────────────────────────────────────────

/// The limit alone, without a price.
pub open spec fn unpriced(cu: Cu) -> Cu {
    (cu.0, None)
}

/// What Harmonic is paid per compute unit: the tip turned into a price, or the
/// caller's price where that is higher; nothing where both are zero.
pub open spec fn harmonic_cu(tip: Option<TipStrategy>, cu: Cu) -> Cu {
    let limit = match cu.0 {
        Some(l) => l,
        None => DEFAULT_CU_LIMIT,
    };
    let asked = match cu.1 {
        Some(p) => p,
        None => 0,
    };
    (cu.0, positive(larger(price_of(base_amount(tip, 0), limit), asked)))
}

/// The plan for a Harmonic leader.
pub open spec fn harmonic_mode_plan(
    roster: Roster,
    tip: Option<TipStrategy>,
    cu: Cu,
) -> PlanView<Cu> {
    harmonic_plan(roster, tip, harmonic_cu(tip, cu), unpriced(cu))
}

/// The plan for a Jito leader.
pub open spec fn jito_mode_plan(roster: Roster, tip: Option<TipStrategy>, cu: Cu) -> PlanView<Cu> {
    lineup_plan(roster, JITO_LINEUP@, by_strategy(tip, unpriced(cu)))
}

/// The tip that accompanies a bid by compute price.
pub open spec fn priced_tip() -> Option<TipStrategy> {
    Some(TipStrategy::Ratio(of_bits(PRICED_TIP)))
}

/// The plan for every other leader.
pub open spec fn fallback_mode_plan(
    roster: Roster,
    tip: Option<TipStrategy>,
    cu: Cu,
) -> PlanView<Cu> {
    fallback_plan(roster, by_strategy(priced_tip(), cu), by_strategy(tip, unpriced(cu)))
}

/// The fallback under a single budget: the whole budget as a price in the priced
/// round, the whole budget as the tip in the plain one.
pub open spec fn fallback_cost_plan(roster: Roster, config: CostConfig) -> PlanView<Cu> {
    let price = positive(price_of(config.cost_amount, config.cu_limit));
    fallback_plan(
        roster,
        by_strategy(Some(TipStrategy::Ratio(config.tip_rate)), (Some(config.cu_limit), price)),
        by_strategy(Some(TipStrategy::Absolute(config.cost_amount)), (Some(config.cu_limit), None)),
    )
}

/// The limit and the price of a tip-only send: the caller's price, held under
/// the ceiling, or a share of the ceiling.
pub open spec fn tip_only_cu(cu: Cu) -> Cu {
    let limit = match cu.0 {
        Some(l) => l,
        None => DEFAULT_CU_LIMIT,
    };
    let ceiling = price_of(FEE_CEILING, limit);
    let price = match cu.1 {
        Some(p) => if p <= ceiling {
            p
        } else {
            ceiling
        },
        None => of_bits(CEILING_SHARE).portion_of(ceiling),
    };
    (Some(limit), Some(price))
}

/// The plan for a leader that ranks by tip alone.
pub open spec fn tip_only_auto_plan(
    roster: Roster,
    tip: Option<TipStrategy>,
    cu: Cu,
) -> PlanView<Cu> {
    helius_first_plan(roster, at_least(base_amount(tip, DEFAULT_TIP_FLOOR), tip_only_cu(cu)))
}

/// The plan of an ordinary send.
pub open spec fn dispatch_plan(
    roster: Roster,
    route: SendRoute,
    tip: Option<TipStrategy>,
    cu: Cu,
) -> PlanView<Cu> {
    match route {
        SendRoute::Harmonic => harmonic_mode_plan(roster, tip, cu),
        SendRoute::Jito => jito_mode_plan(roster, tip, cu),
        SendRoute::Fallback => fallback_mode_plan(roster, tip, cu),
        SendRoute::TipOnly => tip_only_auto_plan(roster, tip, cu),
    }
}

/// The plan for a leader that works first come, first served: the platforms of
/// its route, each at its own default tip and without a price. Only the
/// compute-unit limit is kept. The two rounds of the fallback come out the same.
pub open spec fn first_come_plan(
    roster: Roster,
    route: SendRoute,
    cu_limit: Option<u32>,
) -> PlanView<Cu> {
    let plain: Cu = (cu_limit, None);
    let offer = by_strategy(None, plain);
    match route {
        SendRoute::Harmonic => harmonic_plan(roster, None, plain, plain),
        SendRoute::Jito => lineup_plan(roster, JITO_LINEUP@, offer),
        SendRoute::Fallback => fallback_plan(roster, offer, offer),
        SendRoute::TipOnly => helius_first_plan(roster, offer),
    }
}

/// The plan of a send under a single budget: outside the fallback the budget is
/// the tip.
pub open spec fn cost_plan(roster: Roster, route: SendRoute, config: CostConfig) -> PlanView<Cu> {
    match route {
        SendRoute::Fallback => fallback_cost_plan(roster, config),
        _ => dispatch_plan(
            roster,
            route,
            Some(TipStrategy::Absolute(config.cost_amount)),
            (Some(config.cu_limit), None),
        ),
    }
}

/// The plan of a low-cost send.
pub open spec fn cheap_plan(roster: Roster, tip: Option<TipStrategy>, cu: Cu) -> PlanView<Cu> {
    lineup_plan(roster, CHEAP_LINEUP@, by_strategy(tip, cu))
}

/// The plan of a send that bids by tip only.
pub open spec fn tip_only_plan(
    roster: Roster,
    route: SendRoute,
    min_tip_floor: u64,
    cu_limit: u32,
) -> PlanView<Cu> {
    let offer = at_least(min_tip_floor, (Some(cu_limit), None));
    match route {
        SendRoute::Harmonic => {
            let price = positive(price_of(min_tip_floor, cu_limit));
            broadcast_plan(
                roster,
                single(
                    Platform::Harmonic,
                    roster.harmonic,
                    by_strategy(None, (Some(cu_limit), price)),
                ),
                offer,
            )
        },
        SendRoute::Jito => lineup_plan(roster, JITO_LINEUP@, offer),
        SendRoute::Fallback | SendRoute::TipOnly => broadcast_plan(roster, seq![], offer),
    }
}

/// Plans an ordinary send.
///
/// A compute-unit limit of zero has no price ceiling, so a tip-only leader rules
/// it out.
pub fn dispatch(
    roster: &Roster,
    route: SendRoute,
    tip_strategy: Option<TipStrategy>,
    cu: Cu,
) -> (r: Plan<Cu>)
    requires
        route is TipOnly ==> cu.0 != Some(0u32),
    ensures
        r@ == dispatch_plan(*roster, route, tip_strategy, cu),
{
    match route {
        SendRoute::Harmonic => harmonic_mode(roster, tip_strategy, cu),
        SendRoute::Jito => jito_mode(roster, tip_strategy, cu),
        SendRoute::Fallback => fallback_mode(roster, tip_strategy, cu),
        SendRoute::TipOnly => tip_only_auto(roster, tip_strategy, cu),
    }
}

/// Plans a send under a single budget.
///
/// The fallback tells the two channels apart: the priced round tips at
/// `tip_rate` and spends the budget on the price, the plain round spends it on
/// the tip. The other routes have a single tip, which the budget becomes.
pub fn dispatch_with_cost(roster: &Roster, route: SendRoute, config: CostConfig) -> (r: Plan<Cu>)
    requires
        route is TipOnly ==> config.cu_limit != 0,
    ensures
        r@ == cost_plan(*roster, route, config),
{
    let tip = Some(TipStrategy::Absolute(config.cost_amount));
    let cu: Cu = (Some(config.cu_limit), None);
    match route {
        SendRoute::Fallback => fallback_cost_mode(roster, config),
        SendRoute::Harmonic => harmonic_mode(roster, tip, cu),
        SendRoute::Jito => jito_mode(roster, tip, cu),
        SendRoute::TipOnly => tip_only_auto(roster, tip, cu),
    }
}

/// Plans for a leader that works first come, first served: no tip is set and no
/// price is bid, whatever the route.
pub fn dispatch_first_come(
    roster: &Roster,
    route: SendRoute,
    cu_limit: Option<u32>,
) -> (r: Plan<Cu>)
    ensures
        r@ == first_come_plan(*roster, route, cu_limit),
{
    let plain: Cu = (cu_limit, None);
    let offer = Offer { bid: Bid::Strategy(None), fee: plain };
    match route {
        SendRoute::Harmonic => plan_harmonic(roster, None, plain, plain),
        SendRoute::Jito => {
            let lineup = JITO_LINEUP;
            plan_lineup(roster, lineup.as_slice(), &offer)
        },
        SendRoute::Fallback => plan_fallback(roster, &offer, &offer),
        SendRoute::TipOnly => plan_helius_first(roster, &offer),
    }
}

/// Plans for a Harmonic leader. Harmonic ranks by priority fee, so the tip
/// becomes a price there; the other platforms get the tip and no price.
pub fn harmonic_mode(roster: &Roster, tip_strategy: Option<TipStrategy>, cu: Cu) -> (r: Plan<Cu>)
    ensures
        r@ == harmonic_mode_plan(*roster, tip_strategy, cu),
{
    let limit: u32 = match cu.0 {
        Some(l) => l,
        None => DEFAULT_CU_LIMIT,
    };
    let asked: u64 = match cu.1 {
        Some(p) => p,
        None => 0,
    };
    let price: u64 = max_amount(cu_price_for(base_bid(tip_strategy, 0), limit), asked);
    let own: Cu = (cu.0, if_positive(price));
    let plain: Cu = (cu.0, None);
    plan_harmonic(roster, tip_strategy, own, plain)
}

/// Plans for a Jito leader: tips without a price, on the platforms that rank by
/// tip.
pub fn jito_mode(roster: &Roster, tip_strategy: Option<TipStrategy>, cu: Cu) -> (r: Plan<Cu>)
    ensures
        r@ == jito_mode_plan(*roster, tip_strategy, cu),
{
    let plain: Cu = (cu.0, None);
    let lineup = JITO_LINEUP;
    plan_lineup(
        roster,
        lineup.as_slice(),
        &Offer { bid: Bid::Strategy(tip_strategy), fee: plain },
    )
}

/// Plans for every other leader: a round at the caller's price and a small tip,
/// and a round at the caller's tip and no price.
pub fn fallback_mode(roster: &Roster, tip_strategy: Option<TipStrategy>, cu: Cu) -> (r: Plan<Cu>)
    ensures
        r@ == fallback_mode_plan(*roster, tip_strategy, cu),
{
    let small = Some(TipStrategy::Ratio(F64::from_bits(PRICED_TIP)));
    let plain: Cu = (cu.0, None);
    plan_fallback(
        roster,
        &Offer { bid: Bid::Strategy(small), fee: cu },
        &Offer { bid: Bid::Strategy(tip_strategy), fee: plain },
    )
}

/// Plans the fallback under a single budget.
pub fn fallback_cost_mode(roster: &Roster, config: CostConfig) -> (r: Plan<Cu>)
    ensures
        r@ == fallback_cost_plan(*roster, config),
{
    let price: Option<u64> = if_positive(cu_price_for(config.cost_amount, config.cu_limit));
    let priced: Cu = (Some(config.cu_limit), price);
    let plain: Cu = (Some(config.cu_limit), None);
    let with_price_tip = Some(TipStrategy::Ratio(config.tip_rate));
    let no_price_tip = Some(TipStrategy::Absolute(config.cost_amount));
    plan_fallback(
        roster,
        &Offer { bid: Bid::Strategy(with_price_tip), fee: priced },
        &Offer { bid: Bid::Strategy(no_price_tip), fee: plain },
    )
}

/// Plans a low-cost send: a few platforms, one round, no routing.
pub fn dispatch_cheap(roster: &Roster, tip_strategy: Option<TipStrategy>, cu: Cu) -> (r: Plan<Cu>)
    ensures
        r@ == cheap_plan(*roster, tip_strategy, cu),
{
    let lineup = CHEAP_LINEUP;
    plan_lineup(roster, lineup.as_slice(), &Offer { bid: Bid::Strategy(tip_strategy), fee: cu })
}

/// Plans for a leader that ranks by tip alone. The price follows from the
/// compute-unit limit, so that the priority fee stays under the ceiling.
pub fn tip_only_auto(roster: &Roster, tip_strategy: Option<TipStrategy>, cu: Cu) -> (r: Plan<Cu>)
    requires
        cu.0 != Some(0u32),
    ensures
        r@ == tip_only_auto_plan(*roster, tip_strategy, cu),
{
    let limit: u32 = match cu.0 {
        Some(l) => l,
        None => DEFAULT_CU_LIMIT,
    };
    let ceiling: u64 = cu_price_for(FEE_CEILING, limit);
    let price: u64 = match cu.1 {
        Some(p) => if p <= ceiling {
            p
        } else {
            ceiling
        },
        None => F64::from_bits(CEILING_SHARE).portion(ceiling),
    };
    let fee: Cu = (Some(limit), Some(price));
    let floor: u64 = base_bid(tip_strategy, DEFAULT_TIP_FLOOR);
    plan_helius_first(roster, &Offer { bid: Bid::AtLeast(floor), fee })
}

/// Plans a send that bids by tip only: no compute price but Harmonic's own, and
/// tips of at least `min_tip_floor`.
pub fn dispatch_tip_only(
    roster: &Roster,
    route: SendRoute,
    min_tip_floor: u64,
    cu_limit: u32,
) -> (r: Plan<Cu>)
    ensures
        r@ == tip_only_plan(*roster, route, min_tip_floor, cu_limit),
{
    match route {
        SendRoute::Harmonic => tip_only_harmonic(roster, min_tip_floor, cu_limit),
        SendRoute::Jito => tip_only_jito(roster, min_tip_floor, cu_limit),
        SendRoute::Fallback => tip_only_fallback(roster, min_tip_floor, cu_limit),
        SendRoute::TipOnly => tip_only_fallback(roster, min_tip_floor, cu_limit),
    }
}

/// Plans a tip-only send for a Harmonic leader: Harmonic at the tip turned into
/// a price, and the broadcast.
pub fn tip_only_harmonic(roster: &Roster, min_tip_floor: u64, cu_limit: u32) -> (r: Plan<Cu>)
    ensures
        r@ == tip_only_plan(*roster, SendRoute::Harmonic, min_tip_floor, cu_limit),
{
    let price: Option<u64> = if_positive(cu_price_for(min_tip_floor, cu_limit));
    let own: Cu = (Some(cu_limit), price);
    let plain: Cu = (Some(cu_limit), None);
    let own_offer = Offer { bid: Bid::Strategy(None), fee: own };
    let mut first: Vec<Shot<Cu>> = Vec::new();
    push_single(&mut first, Platform::Harmonic, roster.harmonic, &own_offer);
    assert(first@ =~= single(Platform::Harmonic, roster.harmonic, own_offer));
    fire_all_parallel(roster, first, &Offer { bid: Bid::AtLeast(min_tip_floor), fee: plain })
}

/// Plans a tip-only send for a Jito leader.
pub fn tip_only_jito(roster: &Roster, min_tip_floor: u64, cu_limit: u32) -> (r: Plan<Cu>)
    ensures
        r@ == tip_only_plan(*roster, SendRoute::Jito, min_tip_floor, cu_limit),
{
    let plain: Cu = (Some(cu_limit), None);
    let lineup = JITO_LINEUP;
    plan_lineup(
        roster,
        lineup.as_slice(),
        &Offer { bid: Bid::AtLeast(min_tip_floor), fee: plain },
    )
}

/// Plans a tip-only send for every other leader: the broadcast alone.
pub fn tip_only_fallback(roster: &Roster, min_tip_floor: u64, cu_limit: u32) -> (r: Plan<Cu>)
    ensures
        r@ == tip_only_plan(*roster, SendRoute::Fallback, min_tip_floor, cu_limit),
{
    let plain: Cu = (Some(cu_limit), None);
    let first: Vec<Shot<Cu>> = Vec::new();
    assert(first@ =~= seq![]);
    fire_all_parallel(roster, first, &Offer { bid: Bid::AtLeast(min_tip_floor), fee: plain })
}

} // verus!
