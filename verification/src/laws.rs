//! What the sends do, told from their arguments and results.
//!
//! Each law takes a call of a planning function and says what every platform gets
//! out of the plan that comes back.

use crate::binary64::of_bits;
use crate::bundle::MultiBundleSender;
use crate::dispatcher::{bundle_platforms, send_cost_plan, send_plan, BUNDLE_LINEUP, TxDispacher};
use crate::failure::Attempt;
use crate::fee::{price_of, CostConfig, Cu};
use crate::fifo::FIFO_LEADERS;
use crate::leader::{
    first_come, first_come_for, is_tip_only_leader, route_for, route_of, LeaderInfo, SendRoute,
    SlotOracle, TIP_ONLY_LEADERS,
};
use crate::plan::{Bid, Offer, Plan, PlanView, Shot};
use crate::platform::{Client, Platform, Roster};
use crate::shares::{
    at_once, bid, broadcast_rest_share, broadcast_share, cheap_share, fallback_share,
    harmonic_place, harmonic_share, in_turn, lemma_broadcast_at_floor, lemma_cheap_by_strategy,
    lemma_fallback_shares, lemma_harmonic_shares, lemma_helius_first_at_floor,
    lemma_helius_first_untipped, lemma_jito_at_floor, lemma_jito_by_strategy, shot_at_floor,
    shot_by_strategy, tip_floor_share, tip_share, untipped_rest_share, usual_place,
};
use crate::strategy::{
    cost_plan, dispatch, dispatch_cheap, dispatch_first_come, dispatch_plan, dispatch_tip_only,
    dispatch_with_cost, fallback_cost_mode, fallback_mode, fire_all_parallel, first_come_plan,
    harmonic_cu, harmonic_mode, jito_mode, tip_only_auto, tip_only_cu, tip_only_fallback,
    tip_only_harmonic, tip_only_jito, tip_only_plan,
};
use crate::tip::TipStrategy;
use vstd::prelude::*;

verus! {

// ── Fees ─────────────────────────────────────────────────────────────────────

/// What an amount of lamports comes to per compute unit, in micro-lamports.
pub open spec fn spread(lamports: u64, cu_limit: u32) -> u64 {
    let micro: int = if lamports * 1_000_000 < u64::MAX {
        lamports * 1_000_000
    } else {
        u64::MAX as int
    };
    if cu_limit > 0 {
        (micro / (cu_limit as int)) as u64
    } else {
        0
    }
}

/// An amount, unless it is zero.
pub open spec fn unless_zero(n: u64) -> Option<u64> {
    if n == 0 {
        None
    } else {
        Some(n)
    }
}

/// A value, or another in its absence.
pub open spec fn or<A>(value: Option<A>, absent: A) -> A {
    if value is Some {
        value->0
    } else {
        absent
    }
}

/// The height of a strategy where there is no minimum.
pub open spec fn height(tip: Option<TipStrategy>, absent: u64) -> u64 {
    match tip {
        Some(s) => bid(s, 0),
        None => absent,
    }
}

/// The greater and the lesser of two numbers.
pub open spec fn greater(a: u64, b: u64) -> u64 {
    if b > a {
        b
    } else {
        a
    }
}

pub open spec fn lesser(a: u64, b: u64) -> u64 {
    if b < a {
        b
    } else {
        a
    }
}

/// What Harmonic is paid: the height of the tip spread over the limit, or the
/// caller's price if that is more.
pub open spec fn harmonic_fee(tip: Option<TipStrategy>, cu: Cu) -> Cu {
    let price = greater(spread(height(tip, 0), or(cu.0, 200_000)), or(cu.1, 0));
    (cu.0, unless_zero(price))
}

/// What a tip-only leader is paid: the caller's price, but no more than 100,000
/// lamports spread over the limit; without a price 0.8 of that.
pub open spec fn capped_fee(cu: Cu) -> Cu {
    let limit = or(cu.0, 200_000);
    let most = spread(100_000, limit);
    let price = match cu.1 {
        Some(p) => lesser(p, most),
        None => of_bits(0x3FE9_9999_9999_999A).portion_of(most),
    };
    (Some(limit), Some(price))
}

/// The limit alone.
pub open spec fn limit_only(cu_limit: Option<u32>) -> Cu {
    (cu_limit, None)
}

/// 1.05 times the minimum.
pub open spec fn slightly_more() -> Option<TipStrategy> {
    Some(TipStrategy::Ratio(of_bits(0x3FF0_CCCC_CCCC_CCCD)))
}

// ── The kinds of sends ───────────────────────────────────────────────────────

/// An ordinary send on a route.
pub open spec fn ordinary(
    plan: PlanView<Cu>,
    roster: Roster,
    route: SendRoute,
    tip: Option<TipStrategy>,
    cu: Cu,
) -> bool {
    let plain = limit_only(cu.0);
    match route {
        SendRoute::Harmonic => in_turn(
            plan,
            harmonic_share(roster, tip, harmonic_fee(tip, cu), plain),
            |p: Platform| harmonic_place(p),
        ),
        SendRoute::Jito => in_turn(
            plan,
            tip_share(roster, tip, plain),
            |p: Platform| usual_place(p),
        ),
        SendRoute::Fallback => in_turn(
            plan,
            fallback_share(roster, slightly_more(), cu, tip, plain),
            |p: Platform| usual_place(p),
        ),
        SendRoute::TipOnly => at_once(
            plan,
            shot_at_floor(
                Platform::HeliusMax,
                roster.helius_max,
                height(tip, 5_000),
                capped_fee(cu),
            ),
            broadcast_rest_share(roster, height(tip, 5_000), capped_fee(cu)),
        ),
    }
}

/// A send under a budget on a route. In the fallback the budget is the price of
/// the priced shots and the tip of the plain ones; elsewhere it is the tip.
pub open spec fn budgeted(
    plan: PlanView<Cu>,
    roster: Roster,
    route: SendRoute,
    config: CostConfig,
) -> bool {
    let plain = limit_only(Some(config.cu_limit));
    let whole = Some(TipStrategy::Absolute(config.cost_amount));
    match route {
        SendRoute::Fallback => in_turn(
            plan,
            fallback_share(
                roster,
                Some(TipStrategy::Ratio(config.tip_rate)),
                (Some(config.cu_limit), unless_zero(spread(config.cost_amount, config.cu_limit))),
                whole,
                plain,
            ),
            |p: Platform| usual_place(p),
        ),
        SendRoute::Harmonic => ordinary(plan, roster, SendRoute::Harmonic, whole, plain),
        SendRoute::Jito => ordinary(plan, roster, SendRoute::Jito, whole, plain),
        SendRoute::TipOnly => ordinary(plan, roster, SendRoute::TipOnly, whole, plain),
    }
}

/// A send to a leader that works first come, first served: the platforms of the
/// route without tips and without prices.
pub open spec fn quiet(
    plan: PlanView<Cu>,
    roster: Roster,
    route: SendRoute,
    cu_limit: Option<u32>,
) -> bool {
    let plain = limit_only(cu_limit);
    match route {
        SendRoute::Harmonic => in_turn(
            plan,
            harmonic_share(roster, None, plain, plain),
            |p: Platform| harmonic_place(p),
        ),
        SendRoute::Jito => in_turn(
            plan,
            tip_share(roster, None, plain),
            |p: Platform| usual_place(p),
        ),
        SendRoute::Fallback => in_turn(
            plan,
            fallback_share(roster, None, plain, None, plain),
            |p: Platform| usual_place(p),
        ),
        SendRoute::TipOnly => at_once(
            plan,
            shot_by_strategy(Platform::HeliusMax, roster.helius_max, None, plain),
            untipped_rest_share(roster, plain),
        ),
    }
}

/// A tip-only send on a route: on a Jito leader every platform that ranks by tip,
/// else every platform but Jito and Harmonic; on a Harmonic leader Harmonic too.
pub open spec fn floored(
    plan: PlanView<Cu>,
    roster: Roster,
    route: SendRoute,
    floor: u64,
    cu_limit: u32,
) -> bool {
    let plain = limit_only(Some(cu_limit));
    let own: Cu = (Some(cu_limit), unless_zero(spread(floor, cu_limit)));
    match route {
        SendRoute::Jito => in_turn(
            plan,
            tip_floor_share(roster, floor, plain),
            |p: Platform| usual_place(p),
        ),
        SendRoute::Harmonic => at_once(
            plan,
            shot_by_strategy(Platform::Harmonic, roster.harmonic, None, own),
            broadcast_share(roster, floor, plain),
        ),
        SendRoute::Fallback => at_once(plan, seq![], broadcast_share(roster, floor, plain)),
        SendRoute::TipOnly => at_once(plan, seq![], broadcast_share(roster, floor, plain)),
    }
}

/// A low-cost send.
pub open spec fn low_cost(
    plan: PlanView<Cu>,
    roster: Roster,
    tip: Option<TipStrategy>,
    cu: Cu,
) -> bool {
    in_turn(plan, cheap_share(roster, tip, cu), |p: Platform| usual_place(p))
}

// ── Planning functions ───────────────────────────────────────────────────────

proof fn lemma_spread(lamports: u64, cu_limit: u32)
    ensures
        price_of(lamports, cu_limit) == spread(lamports, cu_limit),
{
}

proof fn lemma_harmonic_fee(tip: Option<TipStrategy>, cu: Cu)
    ensures
        harmonic_cu(tip, cu) == harmonic_fee(tip, cu),
{
    lemma_spread(height(tip, 0), or(cu.0, 200_000));
}

proof fn lemma_capped_fee(cu: Cu)
    ensures
        tip_only_cu(cu) == capped_fee(cu),
{
    lemma_spread(100_000, or(cu.0, 200_000));
}

/// A Harmonic leader: what every platform gets.
pub proof fn lemma_harmonic_mode(
    roster: Roster,
    tip: Option<TipStrategy>,
    cu: Cu,
    plan: Plan<Cu>,
)
    requires
        call_ensures(harmonic_mode, (&roster, tip, cu), plan),
    ensures
        ordinary(plan@, roster, SendRoute::Harmonic, tip, cu),
{
    lemma_harmonic_shares(roster, tip, harmonic_fee(tip, cu), limit_only(cu.0));
    lemma_harmonic_fee(tip, cu);
}

/// A Jito leader: what every platform gets.
pub proof fn lemma_jito_mode(
    roster: Roster,
    tip: Option<TipStrategy>,
    cu: Cu,
    plan: Plan<Cu>,
)
    requires
        call_ensures(jito_mode, (&roster, tip, cu), plan),
    ensures
        ordinary(plan@, roster, SendRoute::Jito, tip, cu),
{
    lemma_jito_by_strategy(roster, tip, limit_only(cu.0));
}

/// Every other leader: each platform that takes a price gets the caller's price with
/// a small tip, and each that ranks by tip gets the caller's tip without a price.
pub proof fn lemma_fallback_mode(
    roster: Roster,
    tip: Option<TipStrategy>,
    cu: Cu,
    plan: Plan<Cu>,
)
    requires
        call_ensures(fallback_mode, (&roster, tip, cu), plan),
    ensures
        ordinary(plan@, roster, SendRoute::Fallback, tip, cu),
{
    lemma_fallback_shares(roster, slightly_more(), cu, tip, limit_only(cu.0));
}

/// A leader that ranks by tip alone: what every platform gets.
pub proof fn lemma_tip_only_auto(
    roster: Roster,
    tip: Option<TipStrategy>,
    cu: Cu,
    plan: Plan<Cu>,
)
    requires
        call_ensures(tip_only_auto, (&roster, tip, cu), plan),
    ensures
        ordinary(plan@, roster, SendRoute::TipOnly, tip, cu),
{
    lemma_capped_fee(cu);
    lemma_helius_first_at_floor(roster, height(tip, 5_000), capped_fee(cu));
}

/// An ordinary send on any route.
pub proof fn lemma_dispatch(
    roster: Roster,
    route: SendRoute,
    tip: Option<TipStrategy>,
    cu: Cu,
    plan: Plan<Cu>,
)
    requires
        call_ensures(dispatch, (&roster, route, tip, cu), plan),
    ensures
        ordinary(plan@, roster, route, tip, cu),
{
    lemma_harmonic_shares(roster, tip, harmonic_fee(tip, cu), limit_only(cu.0));
    lemma_harmonic_fee(tip, cu);
    lemma_jito_by_strategy(roster, tip, limit_only(cu.0));
    lemma_fallback_shares(roster, slightly_more(), cu, tip, limit_only(cu.0));
    lemma_capped_fee(cu);
    lemma_helius_first_at_floor(roster, height(tip, 5_000), capped_fee(cu));
}

/// A send under a budget on any route.
pub proof fn lemma_dispatch_with_cost(
    roster: Roster,
    route: SendRoute,
    config: CostConfig,
    plan: Plan<Cu>,
)
    requires
        call_ensures(dispatch_with_cost, (&roster, route, config), plan),
    ensures
        budgeted(plan@, roster, route, config),
{
    let tip = Some(TipStrategy::Absolute(config.cost_amount));
    let cu = limit_only(Some(config.cu_limit));
    lemma_spread(config.cost_amount, config.cu_limit);
    lemma_fallback_shares(
        roster,
        Some(TipStrategy::Ratio(config.tip_rate)),
        (Some(config.cu_limit), unless_zero(spread(config.cost_amount, config.cu_limit))),
        tip,
        cu,
    );
    lemma_harmonic_shares(roster, tip, harmonic_fee(tip, cu), limit_only(cu.0));
    lemma_harmonic_fee(tip, cu);
    lemma_jito_by_strategy(roster, tip, limit_only(cu.0));
    lemma_capped_fee(cu);
    lemma_helius_first_at_floor(roster, height(tip, 5_000), capped_fee(cu));
}

/// The fallback under a budget.
pub proof fn lemma_fallback_cost_mode(
    roster: Roster,
    config: CostConfig,
    plan: Plan<Cu>,
)
    requires
        call_ensures(fallback_cost_mode, (&roster, config), plan),
    ensures
        budgeted(plan@, roster, SendRoute::Fallback, config),
{
    let tip = Some(TipStrategy::Absolute(config.cost_amount));
    let cu = limit_only(Some(config.cu_limit));
    lemma_spread(config.cost_amount, config.cu_limit);
    lemma_fallback_shares(
        roster,
        Some(TipStrategy::Ratio(config.tip_rate)),
        (Some(config.cu_limit), unless_zero(spread(config.cost_amount, config.cu_limit))),
        tip,
        cu,
    );
}

/// A low-cost send.
pub proof fn lemma_dispatch_cheap(
    roster: Roster,
    tip: Option<TipStrategy>,
    cu: Cu,
    plan: Plan<Cu>,
)
    requires
        call_ensures(dispatch_cheap, (&roster, tip, cu), plan),
    ensures
        low_cost(plan@, roster, tip, cu),
{
    lemma_cheap_by_strategy(roster, tip, cu);
}

/// A tip-only send leaves no platform of its route out.
pub proof fn lemma_dispatch_tip_only(
    roster: Roster,
    route: SendRoute,
    floor: u64,
    cu_limit: u32,
    plan: Plan<Cu>,
)
    requires
        call_ensures(dispatch_tip_only, (&roster, route, floor, cu_limit), plan),
    ensures
        floored(plan@, roster, route, floor, cu_limit),
{
    let plain = limit_only(Some(cu_limit));
    let own: Cu = (Some(cu_limit), unless_zero(spread(floor, cu_limit)));
    let first = shot_by_strategy(Platform::Harmonic, roster.harmonic, None, own);
    lemma_spread(floor, cu_limit);
    lemma_jito_at_floor(roster, floor, plain);
    lemma_broadcast_at_floor(roster, first, floor, plain);
    lemma_broadcast_at_floor(roster, seq![], floor, plain);
}

/// A tip-only send on the Harmonic route.
pub proof fn lemma_tip_only_harmonic(
    roster: Roster,
    floor: u64,
    cu_limit: u32,
    plan: Plan<Cu>,
)
    requires
        call_ensures(tip_only_harmonic, (&roster, floor, cu_limit), plan),
    ensures
        floored(plan@, roster, SendRoute::Harmonic, floor, cu_limit),
{
    let plain = limit_only(Some(cu_limit));
    let own: Cu = (Some(cu_limit), unless_zero(spread(floor, cu_limit)));
    let first = shot_by_strategy(Platform::Harmonic, roster.harmonic, None, own);
    lemma_spread(floor, cu_limit);
    lemma_jito_at_floor(roster, floor, plain);
    lemma_broadcast_at_floor(roster, first, floor, plain);
    lemma_broadcast_at_floor(roster, seq![], floor, plain);
}

/// A tip-only send on the Jito route.
pub proof fn lemma_tip_only_jito(
    roster: Roster,
    floor: u64,
    cu_limit: u32,
    plan: Plan<Cu>,
)
    requires
        call_ensures(tip_only_jito, (&roster, floor, cu_limit), plan),
    ensures
        floored(plan@, roster, SendRoute::Jito, floor, cu_limit),
{
    let plain = limit_only(Some(cu_limit));
    let own: Cu = (Some(cu_limit), unless_zero(spread(floor, cu_limit)));
    let first = shot_by_strategy(Platform::Harmonic, roster.harmonic, None, own);
    lemma_spread(floor, cu_limit);
    lemma_jito_at_floor(roster, floor, plain);
    lemma_broadcast_at_floor(roster, first, floor, plain);
    lemma_broadcast_at_floor(roster, seq![], floor, plain);
}

/// A tip-only send on the Fallback route.
pub proof fn lemma_tip_only_fallback(
    roster: Roster,
    floor: u64,
    cu_limit: u32,
    plan: Plan<Cu>,
)
    requires
        call_ensures(tip_only_fallback, (&roster, floor, cu_limit), plan),
    ensures
        floored(plan@, roster, SendRoute::Fallback, floor, cu_limit),
{
    let plain = limit_only(Some(cu_limit));
    let own: Cu = (Some(cu_limit), unless_zero(spread(floor, cu_limit)));
    let first = shot_by_strategy(Platform::Harmonic, roster.harmonic, None, own);
    lemma_spread(floor, cu_limit);
    lemma_jito_at_floor(roster, floor, plain);
    lemma_broadcast_at_floor(roster, first, floor, plain);
    lemma_broadcast_at_floor(roster, seq![], floor, plain);
}

/// A send to a leader that works first come, first served.
pub proof fn lemma_dispatch_first_come(
    roster: Roster,
    route: SendRoute,
    cu_limit: Option<u32>,
    plan: Plan<Cu>,
)
    requires
        call_ensures(dispatch_first_come, (&roster, route, cu_limit), plan),
    ensures
        quiet(plan@, roster, route, cu_limit),
{
    let plain = limit_only(cu_limit);
    lemma_harmonic_shares(roster, None, plain, plain);
    lemma_jito_by_strategy(roster, None, plain);
    lemma_fallback_shares(roster, None, plain, None, plain);
    lemma_helius_first_untipped(roster, plain);
}

/// A broadcast at a floor leaves no platform out, whatever was fired before it.
pub proof fn lemma_fire_all_parallel<F: Copy>(
    roster: Roster,
    first: Vec<Shot<F>>,
    offer: Offer<F>,
    floor: u64,
    plan: Plan<F>,
)
    requires
        offer.bid == Bid::AtLeast(floor),
        call_ensures(fire_all_parallel::<F>, (&roster, first, &offer), plan),
    ensures
        at_once(plan@, first@, broadcast_share(roster, floor, offer.fee)),
{
    lemma_broadcast_at_floor(roster, first@, floor, offer.fee);
}

// ── Leaders ──────────────────────────────────────────────────────────────────

/// Whether the account in a description is on the tip-only list.
pub open spec fn listed(info: Option<LeaderInfo>) -> bool {
    info is Some && info->0.leader_pubkey is Some && exists|k: int|
        0 <= k < 10 && #[trigger] TIP_ONLY_LEADERS@[k]@ == info->0.leader_pubkey->0@
}

/// Whether a route is the one that a description calls for.
pub open spec fn routed(info: Option<LeaderInfo>, route: SendRoute) -> bool {
    &&& route is TipOnly <==> listed(info)
    &&& route is Harmonic <==> !listed(info) && info is Some && info->0.is_harmonic
    &&& route is Jito <==> !listed(info) && info is Some && info->0.is_jito
        && !info->0.is_harmonic
    &&& route is Fallback <==> !listed(info) && (info is None || (!info->0.is_jito
        && !info->0.is_harmonic))
}

/// Whether a description is on the first-come list, account and client type
/// together.
pub open spec fn first_served(info: Option<LeaderInfo>) -> bool {
    info is Some && info->0.leader_pubkey is Some && info->0.client_type_id is Some && exists|
        k: int,
    |
        0 <= k < 34 && #[trigger] FIFO_LEADERS@[k].0@ == info->0.leader_pubkey->0@
            && FIFO_LEADERS@[k].1 == info->0.client_type_id->0
}

proof fn lemma_listed(info: Option<LeaderInfo>)
    ensures
        info is Some && info->0.leader_pubkey is Some ==> (is_tip_only_leader(
            info->0.leader_pubkey->0@,
        ) <==> listed(info)),
        first_come(info) <==> first_served(info),
{
    assert(TIP_ONLY_LEADERS@.len() == 10);
    assert(FIFO_LEADERS@.len() == 34);
}

/// The tip-only list decides first. A leader that is not on it goes by the client
/// it runs, whether or not its account is known.
pub proof fn lemma_route_for(info: Option<LeaderInfo>, route: SendRoute)
    requires
        call_ensures(route_for, (&info,), route),
    ensures
        routed(info, route),
{
    lemma_listed(info);
}

/// Off the tip-only list, the account of a leader makes no difference to its
/// route, nor does the id of its client type.
pub proof fn lemma_route_goes_by_client(
    info: LeaderInfo,
    other: LeaderInfo,
    route: SendRoute,
    other_route: SendRoute,
)
    requires
        !listed(Some(info)),
        !listed(Some(other)),
        info.is_harmonic == other.is_harmonic,
        info.is_jito == other.is_jito,
        call_ensures(route_for, (&Some(info),), route),
        call_ensures(route_for, (&Some(other),), other_route),
    ensures
        route == other_route,
{
    lemma_route_for(Some(info), route);
    lemma_route_for(Some(other), other_route);
}

/// A leader works first come, first served exactly where its account stands on
/// the list with the type of client that it runs.
pub proof fn lemma_first_come_for(info: Option<LeaderInfo>, r: bool)
    requires
        call_ensures(first_come_for, (&info,), r),
    ensures
        r == first_served(info),
{
    lemma_listed(info);
}

// ── The dispatcher ───────────────────────────────────────────────────────────

/// Whether the oracle may describe a slot's leader in this way.
pub open spec fn told<O: SlotOracle>(
    d: TxDispacher<O>,
    slot: u64,
    info: Option<LeaderInfo>,
) -> bool {
    call_ensures(O::leader_at, (&d.oracle, slot), info)
}

/// The route of a slot is that of the leader, as the oracle describes it.
pub proof fn lemma_resolve_route<O: SlotOracle>(d: TxDispacher<O>, slot: u64, route: SendRoute)
    requires
        call_ensures(TxDispacher::<O>::resolve_route, (&d, slot), route),
    ensures
        exists|info: Option<LeaderInfo>| #[trigger] told(d, slot, info) && routed(info, route),
{
    let info = choose|info: Option<LeaderInfo>| #[trigger]
        d.may_see(slot, info) && route == route_of(info);
    lemma_listed(info);
    assert(told(d, slot, info) && routed(info, route));
}

/// Whether a slot's leader works first come, first served goes by the oracle too.
pub proof fn lemma_is_fifo_leader<O: SlotOracle>(d: TxDispacher<O>, slot: u64, r: bool)
    requires
        call_ensures(TxDispacher::<O>::is_fifo_leader, (&d, slot), r),
    ensures
        exists|info: Option<LeaderInfo>| #[trigger] told(d, slot, info) && r == first_served(info),
{
    let info = choose|info: Option<LeaderInfo>| #[trigger]
        d.may_see(slot, info) && r == first_come(info);
    lemma_listed(info);
    assert(told(d, slot, info) && r == first_served(info));
}

proof fn lemma_ordinary(roster: Roster, route: SendRoute, tip: Option<TipStrategy>, cu: Cu)
    ensures
        ordinary(dispatch_plan(roster, route, tip, cu), roster, route, tip, cu),
{
    lemma_harmonic_shares(roster, tip, harmonic_fee(tip, cu), limit_only(cu.0));
    lemma_harmonic_fee(tip, cu);
    lemma_jito_by_strategy(roster, tip, limit_only(cu.0));
    lemma_fallback_shares(roster, slightly_more(), cu, tip, limit_only(cu.0));
    lemma_capped_fee(cu);
    lemma_helius_first_at_floor(roster, height(tip, 5_000), capped_fee(cu));
}

proof fn lemma_budgeted(roster: Roster, route: SendRoute, config: CostConfig)
    ensures
        budgeted(cost_plan(roster, route, config), roster, route, config),
{
    let tip = Some(TipStrategy::Absolute(config.cost_amount));
    let cu = limit_only(Some(config.cu_limit));
    lemma_spread(config.cost_amount, config.cu_limit);
    lemma_fallback_shares(
        roster,
        Some(TipStrategy::Ratio(config.tip_rate)),
        (Some(config.cu_limit), unless_zero(spread(config.cost_amount, config.cu_limit))),
        tip,
        cu,
    );
    lemma_harmonic_shares(roster, tip, harmonic_fee(tip, cu), limit_only(cu.0));
    lemma_harmonic_fee(tip, cu);
    lemma_jito_by_strategy(roster, tip, limit_only(cu.0));
    lemma_capped_fee(cu);
    lemma_helius_first_at_floor(roster, height(tip, 5_000), capped_fee(cu));
}

proof fn lemma_quiet(roster: Roster, route: SendRoute, cu_limit: Option<u32>)
    ensures
        quiet(
            first_come_plan(roster, route, cu_limit),
            roster,
            route,
            cu_limit,
        ),
{
    let plain = limit_only(cu_limit);
    lemma_harmonic_shares(roster, None, plain, plain);
    lemma_jito_by_strategy(roster, None, plain);
    lemma_fallback_shares(roster, None, plain, None, plain);
    lemma_helius_first_untipped(roster, plain);
}

proof fn lemma_floored(roster: Roster, route: SendRoute, floor: u64, cu_limit: u32)
    ensures
        floored(
            tip_only_plan(roster, route, floor, cu_limit),
            roster,
            route,
            floor,
            cu_limit,
        ),
{
    let plain = limit_only(Some(cu_limit));
    let own: Cu = (Some(cu_limit), unless_zero(spread(floor, cu_limit)));
    let first = shot_by_strategy(Platform::Harmonic, roster.harmonic, None, own);
    lemma_spread(floor, cu_limit);
    lemma_jito_at_floor(roster, floor, plain);
    lemma_broadcast_at_floor(roster, first, floor, plain);
    lemma_broadcast_at_floor(roster, seq![], floor, plain);
}

/// What a send amounts to: on a leader that works first come, first served it is
/// quiet, else it is an ordinary one.
pub open spec fn sent(
    plan: PlanView<Cu>,
    roster: Roster,
    route: SendRoute,
    fifo: bool,
    tip: Option<TipStrategy>,
    cu: Cu,
) -> bool {
    &&& fifo ==> quiet(plan, roster, route, cu.0)
    &&& !fifo ==> ordinary(plan, roster, route, tip, cu)
}

/// What a send under a budget amounts to.
pub open spec fn sent_with_cost(
    plan: PlanView<Cu>,
    roster: Roster,
    route: SendRoute,
    fifo: bool,
    config: CostConfig,
) -> bool {
    &&& fifo ==> quiet(plan, roster, route, Some(config.cu_limit))
    &&& !fifo ==> budgeted(plan, roster, route, config)
}

/// A send for a known kind of leader.
pub proof fn lemma_send_on<O: SlotOracle>(
    d: TxDispacher<O>,
    route: SendRoute,
    fifo: bool,
    tip: Option<TipStrategy>,
    cu: Cu,
    plan: Plan<Cu>,
)
    requires
        call_ensures(TxDispacher::<O>::send_on, (&d, route, fifo, tip, cu), plan),
    ensures
        sent(plan@, d.roster, route, fifo, tip, cu),
{
    lemma_ordinary(d.roster, route, tip, cu);
    lemma_quiet(d.roster, route, cu.0);
}

/// A send under a budget for a known kind of leader.
pub proof fn lemma_send_with_cost_on<O: SlotOracle>(
    d: TxDispacher<O>,
    route: SendRoute,
    fifo: bool,
    config: CostConfig,
    plan: Plan<Cu>,
)
    requires
        call_ensures(TxDispacher::<O>::send_with_cost_on, (&d, route, fifo, config), plan),
    ensures
        sent_with_cost(plan@, d.roster, route, fifo, config),
{
    lemma_budgeted(d.roster, route, config);
    lemma_quiet(d.roster, route, Some(config.cu_limit));
}

/// A send follows the leader of its slot, as the oracle describes it.
pub proof fn lemma_send<O: SlotOracle>(
    d: TxDispacher<O>,
    slot: u64,
    tip: Option<TipStrategy>,
    cu: Cu,
    plan: Plan<Cu>,
)
    requires
        call_ensures(TxDispacher::<O>::send, (&d, slot, tip, cu), plan),
    ensures
        exists|seen: Option<LeaderInfo>, again: Option<LeaderInfo>, route: SendRoute| #[trigger]
            told(d, slot, seen) && #[trigger] told(d, slot, again) && #[trigger] routed(seen, route)
                && sent(plan@, d.roster, route, first_served(again), tip, cu),
{
    let (seen, again) = choose|seen: Option<LeaderInfo>, again: Option<LeaderInfo>| #[trigger]
        d.may_see(slot, seen) && #[trigger] d.may_see(slot, again) && plan@
            == send_plan(
            d.roster,
            route_of(seen),
            first_come(again),
            tip,
            cu,
        );
    let route = route_of(seen);
    lemma_listed(seen);
    lemma_listed(again);
    lemma_ordinary(d.roster, route, tip, cu);
    lemma_quiet(d.roster, route, cu.0);
    assert(told(d, slot, seen) && told(d, slot, again) && routed(seen, route));
}

/// A send under a budget follows the leader of its slot.
pub proof fn lemma_send_with_cost<O: SlotOracle>(
    d: TxDispacher<O>,
    slot: u64,
    config: CostConfig,
    plan: Plan<Cu>,
)
    requires
        call_ensures(TxDispacher::<O>::send_with_cost, (&d, slot, config), plan),
    ensures
        exists|seen: Option<LeaderInfo>, again: Option<LeaderInfo>, route: SendRoute| #[trigger]
            told(d, slot, seen) && #[trigger] told(d, slot, again) && #[trigger] routed(seen, route)
                && sent_with_cost(plan@, d.roster, route, first_served(again), config),
{
    let (seen, again) = choose|seen: Option<LeaderInfo>, again: Option<LeaderInfo>| #[trigger]
        d.may_see(slot, seen) && #[trigger] d.may_see(slot, again) && plan@
            == send_cost_plan(
            d.roster,
            route_of(seen),
            first_come(again),
            config,
        );
    let route = route_of(seen);
    lemma_listed(seen);
    lemma_listed(again);
    lemma_budgeted(d.roster, route, config);
    lemma_quiet(d.roster, route, Some(config.cu_limit));
    assert(told(d, slot, seen) && told(d, slot, again) && routed(seen, route));
}

/// A low-cost send asks nobody about the leader.
pub proof fn lemma_send_cheap<O: SlotOracle>(
    d: TxDispacher<O>,
    tip: Option<TipStrategy>,
    cu: Cu,
    plan: Plan<Cu>,
)
    requires
        call_ensures(TxDispacher::<O>::send_cheap, (&d, tip, cu), plan),
    ensures
        low_cost(plan@, d.roster, tip, cu),
{
    lemma_cheap_by_strategy(d.roster, tip, cu);
}

/// A tip-only send follows the leader of its slot, and leaves no platform of the
/// route out.
pub proof fn lemma_send_tip_only<O: SlotOracle>(
    d: TxDispacher<O>,
    slot: u64,
    floor: u64,
    cu_limit: u32,
    plan: Plan<Cu>,
)
    requires
        call_ensures(TxDispacher::<O>::send_tip_only, (&d, slot, floor, cu_limit), plan),
    ensures
        exists|seen: Option<LeaderInfo>, route: SendRoute| #[trigger]
            told(d, slot, seen) && #[trigger] routed(seen, route) && floored(
                plan@,
                d.roster,
                route,
                floor,
                cu_limit,
            ),
{
    let seen = choose|seen: Option<LeaderInfo>| #[trigger]
        d.may_see(slot, seen) && plan@ == tip_only_plan(
            d.roster,
            route_of(seen),
            floor,
            cu_limit,
        );
    let route = route_of(seen);
    lemma_listed(seen);
    lemma_floored(d.roster, route, floor, cu_limit);
    assert(told(d, slot, seen) && routed(seen, route));
}

/// The attempt that comes with a tip-only plan names the route of the plan.
pub proof fn lemma_send_tip_only_attempt<O: SlotOracle>(
    d: TxDispacher<O>,
    slot: u64,
    floor: u64,
    cu_limit: u32,
    r: (Plan<Cu>, Attempt),
)
    requires
        call_ensures(TxDispacher::<O>::send_tip_only_attempt, (&d, slot, floor, cu_limit), r),
    ensures
        r.1 is TipOnly,
        floored(r.0@, d.roster, r.1->TipOnly_0, floor, cu_limit),
        exists|seen: Option<LeaderInfo>| #[trigger]
            told(d, slot, seen) && routed(seen, r.1->TipOnly_0),
{
    let seen = choose|seen: Option<LeaderInfo>| #[trigger]
        d.may_see(slot, seen) && r.0@ == tip_only_plan(
            d.roster,
            route_of(seen),
            floor,
            cu_limit,
        ) && r.1 == Attempt::TipOnly(route_of(seen));
    let route = route_of(seen);
    lemma_listed(seen);
    lemma_floored(d.roster, route, floor, cu_limit);
    assert(told(d, slot, seen) && routed(seen, route));
}

/// A platform, where it has a client.
pub open spec fn where_any(platform: Platform, client: Option<Client>) -> Seq<Platform> {
    if client is Some {
        seq![platform]
    } else {
        seq![]
    }
}

/// The bundle platforms that have a client, in their order.
pub open spec fn takers(roster: Roster) -> Seq<Platform> {
    where_any(Platform::Jito, roster.jito) + where_any(Platform::Astralane, roster.astralane)
        + where_any(Platform::FlashBlock, roster.flash_block) + where_any(
        Platform::HeliusMax,
        roster.helius_max,
    )
}

/// A bundle is started on Jito, Astralane, FlashBlock and Helius Max, in this order
/// and as far as they have a client, whatever QUIC transports are built in.
pub proof fn lemma_bundle_sender<O: SlotOracle, B, F: Fn(Platform) -> B>(
    d: TxDispacher<O>,
    start: F,
    sender: MultiBundleSender<B>,
)
    requires
        call_ensures(TxDispacher::<O>::bundle_sender::<B, F>, (&d, start), sender),
    ensures
        sender.builders@.len() == takers(d.roster).len(),
        forall|i: int|
            0 <= i < takers(d.roster).len() ==> call_ensures(
                start,
                (takers(d.roster)[i],),
                #[trigger] sender.builders@[i],
            ),
{
    let lineup = BUNDLE_LINEUP@;
    let pred = |p: Platform| d.roster.registered(p) is Some;
    let a = lineup.take(1);
    let b = lineup.take(2);
    let c = lineup.take(3);
    reveal(Seq::filter);
    assert(lineup.drop_last() =~= c && lineup.last() == Platform::HeliusMax);
    assert(c.drop_last() =~= b && c.last() == Platform::FlashBlock);
    assert(b.drop_last() =~= a && b.last() == Platform::Astralane);
    assert(a.drop_last() =~= seq![] && a.last() == Platform::Jito);
    assert(a.drop_last().filter(pred) =~= seq![]);
    assert(a.filter(pred) =~= where_any(Platform::Jito, d.roster.jito));
    assert(b.filter(pred) =~= a.filter(pred) + where_any(
        Platform::Astralane,
        d.roster.astralane,
    ));
    assert(c.filter(pred) =~= b.filter(pred) + where_any(
        Platform::FlashBlock,
        d.roster.flash_block,
    ));
    assert(lineup.filter(pred) =~= takers(d.roster));
    assert(bundle_platforms(d.roster) =~= takers(d.roster));
}

} // verus!
