//! The sending strategies for version 1 transactions, one plan per route.
//!
//! The lineups and the tips are those of version 0. The fee is a configuration
//! whose priority fee is a total in lamports, so that a tip or a budget becomes a
//! priority fee as it stands, without a compute-unit limit to divide by.

use crate::binary64::{of_bits, F64};
use crate::fee::{if_positive, positive, CostTxConfig, V1TxConfig};
use crate::leader::SendRoute;
use crate::plan::{push_single, single, Bid, Offer, Plan, PlanView, Shot};
use crate::platform::{Platform, Roster};
use crate::strategy::{
    at_least, base_amount, base_bid, broadcast_plan, by_strategy, fallback_plan, fire_all_parallel,
    harmonic_plan, helius_first_plan, lineup_plan, plan_fallback, plan_harmonic, plan_helius_first,
    plan_lineup, priced_tip, CEILING_SHARE, CHEAP_LINEUP, DEFAULT_TIP_FLOOR, FEE_CEILING,
    JITO_LINEUP, PRICED_TIP,
};
use crate::tip::{larger, max_amount, TipStrategy};
use vstd::prelude::*;

verus! {

/// What Harmonic is paid in all: the tip as a priority fee, or the caller's fee
/// where that is higher; nothing where both are zero.
pub open spec fn harmonic_config(tip: Option<TipStrategy>, config: V1TxConfig) -> V1TxConfig {
    let asked = match config.priority_fee {
        Some(p) => p,
        None => 0,
    };
    config.with_fee(positive(larger(base_amount(tip, 0), asked)))
}

/// The plan for a Harmonic leader.
pub open spec fn harmonic_mode_v1_plan(
    roster: Roster,
    tip: Option<TipStrategy>,
    config: V1TxConfig,
) -> PlanView<V1TxConfig> {
    harmonic_plan(roster, tip, harmonic_config(tip, config), config.with_fee(None))
}

/// The plan for a Jito leader.
pub open spec fn jito_mode_v1_plan(
    roster: Roster,
    tip: Option<TipStrategy>,
    config: V1TxConfig,
) -> PlanView<V1TxConfig> {
    lineup_plan(roster, JITO_LINEUP@, by_strategy(tip, config.with_fee(None)))
}

/// The plan for every other leader.
pub open spec fn fallback_mode_v1_plan(
    roster: Roster,
    tip: Option<TipStrategy>,
    config: V1TxConfig,
) -> PlanView<V1TxConfig> {
    fallback_plan(
        roster,
        by_strategy(priced_tip(), config),
        by_strategy(tip, config.with_fee(None)),
    )
}

/// The fallback under a single budget: the whole budget as a priority fee in the
/// priced round, the whole budget as the tip in the plain one.
pub open spec fn fallback_cost_v1_plan(
    roster: Roster,
    config: CostTxConfig,
) -> PlanView<V1TxConfig> {
    fallback_plan(
        roster,
        by_strategy(Some(TipStrategy::Ratio(config.tip_rate)), config.fee_config()),
        by_strategy(Some(TipStrategy::Absolute(config.cost)), config.tip_channel_config()),
    )
}

/// The priority fee of a tip-only send: the caller's fee, held under the
/// ceiling, or a share of the ceiling.
pub open spec fn tip_only_config(config: V1TxConfig) -> V1TxConfig {
    let fee = match config.priority_fee {
        Some(p) => if p <= FEE_CEILING {
            p
        } else {
            FEE_CEILING
        },
        None => of_bits(CEILING_SHARE).portion_of(FEE_CEILING),
    };
    config.with_fee(Some(fee))
}

/// The plan for a leader that ranks by tip alone.
pub open spec fn tip_only_auto_v1_plan(
    roster: Roster,
    tip: Option<TipStrategy>,
    config: V1TxConfig,
) -> PlanView<V1TxConfig> {
    helius_first_plan(
        roster,
        at_least(base_amount(tip, DEFAULT_TIP_FLOOR), tip_only_config(config)),
    )
}

/// The plan of an ordinary send.
pub open spec fn dispatch_v1_plan(
    roster: Roster,
    route: SendRoute,
    tip: Option<TipStrategy>,
    config: V1TxConfig,
) -> PlanView<V1TxConfig> {
    match route {
        SendRoute::Harmonic => harmonic_mode_v1_plan(roster, tip, config),
        SendRoute::Jito => jito_mode_v1_plan(roster, tip, config),
        SendRoute::Fallback => fallback_mode_v1_plan(roster, tip, config),
        SendRoute::TipOnly => tip_only_auto_v1_plan(roster, tip, config),
    }
}

/// The plan of a send under a single budget: outside the fallback the budget is
/// the tip.
pub open spec fn cost_v1_plan(
    roster: Roster,
    route: SendRoute,
    config: CostTxConfig,
) -> PlanView<V1TxConfig> {
    match route {
        SendRoute::Fallback => fallback_cost_v1_plan(roster, config),
        _ => dispatch_v1_plan(
            roster,
            route,
            Some(TipStrategy::Absolute(config.cost)),
            config.tip_channel_config(),
        ),
    }
}

/// The plan of a low-cost send.
pub open spec fn cheap_v1_plan(
    roster: Roster,
    tip: Option<TipStrategy>,
    config: V1TxConfig,
) -> PlanView<V1TxConfig> {
    lineup_plan(roster, CHEAP_LINEUP@, by_strategy(tip, config))
}

/// The plan of a send that bids by tip only.
pub open spec fn tip_only_v1_plan(
    roster: Roster,
    route: SendRoute,
    min_tip_floor: u64,
    config: V1TxConfig,
) -> PlanView<V1TxConfig> {
    let offer = at_least(min_tip_floor, config.with_fee(None));
    match route {
        SendRoute::Harmonic => broadcast_plan(
            roster,
            single(
                Platform::Harmonic,
                roster.harmonic,
                by_strategy(None, config.with_fee(positive(min_tip_floor))),
            ),
            offer,
        ),
        SendRoute::Jito => lineup_plan(roster, JITO_LINEUP@, offer),
        SendRoute::Fallback | SendRoute::TipOnly => broadcast_plan(roster, seq![], offer),
    }
}

/// Plans an ordinary send. The caller has settled the tip and the priority fee.
pub fn dispatch_v1(
    roster: &Roster,
    route: SendRoute,
    tip_strategy: Option<TipStrategy>,
    config: V1TxConfig,
) -> (r: Plan<V1TxConfig>)
    ensures
        r@ == dispatch_v1_plan(*roster, route, tip_strategy, config),
{
    match route {
        SendRoute::Harmonic => harmonic_mode_v1(roster, tip_strategy, config),
        SendRoute::Jito => jito_mode_v1(roster, tip_strategy, config),
        SendRoute::Fallback => fallback_mode_v1(roster, tip_strategy, config),
        SendRoute::TipOnly => tip_only_auto_v1(roster, tip_strategy, config),
    }
}

/// Plans a send under a single budget. The caller gives the budget, and the mode
/// decides whether it becomes a tip, a priority fee, or each in turn.
pub fn dispatch_with_cost_v1(
    roster: &Roster,
    route: SendRoute,
    config: CostTxConfig,
) -> (r: Plan<V1TxConfig>)
    ensures
        r@ == cost_v1_plan(*roster, route, config),
{
    match route {
        SendRoute::Harmonic => harmonic_cost_mode_v1(roster, config),
        SendRoute::Jito => jito_cost_mode_v1(roster, config),
        SendRoute::TipOnly => tip_only_cost_mode_v1(roster, config),
        SendRoute::Fallback => fallback_cost_mode_v1(roster, config),
    }
}

/// Plans for a Harmonic leader. Harmonic ranks by priority fee, so the tip
/// becomes the fee there; the other platforms get the tip and no fee.
pub fn harmonic_mode_v1(
    roster: &Roster,
    tip_strategy: Option<TipStrategy>,
    config: V1TxConfig,
) -> (r: Plan<V1TxConfig>)
    ensures
        r@ == harmonic_mode_v1_plan(*roster, tip_strategy, config),
{
    let asked: u64 = match config.priority_fee {
        Some(p) => p,
        None => 0,
    };
    let fee: u64 = max_amount(base_bid(tip_strategy, 0), asked);
    plan_harmonic(roster, tip_strategy, config.paying(if_positive(fee)), config.paying(None))
}

/// Plans for a Jito leader: tips without a priority fee.
pub fn jito_mode_v1(
    roster: &Roster,
    tip_strategy: Option<TipStrategy>,
    config: V1TxConfig,
) -> (r: Plan<V1TxConfig>)
    ensures
        r@ == jito_mode_v1_plan(*roster, tip_strategy, config),
{
    let lineup = JITO_LINEUP;
    plan_lineup(
        roster,
        lineup.as_slice(),
        &Offer { bid: Bid::Strategy(tip_strategy), fee: config.paying(None) },
    )
}

/// Plans for every other leader: a round at the caller's fee and a small tip,
/// and a round at the caller's tip and no fee.
pub fn fallback_mode_v1(
    roster: &Roster,
    tip_strategy: Option<TipStrategy>,
    config: V1TxConfig,
) -> (r: Plan<V1TxConfig>)
    ensures
        r@ == fallback_mode_v1_plan(*roster, tip_strategy, config),
{
    let small = Some(TipStrategy::Ratio(F64::from_bits(PRICED_TIP)));
    plan_fallback(
        roster,
        &Offer { bid: Bid::Strategy(small), fee: config },
        &Offer { bid: Bid::Strategy(tip_strategy), fee: config.paying(None) },
    )
}

/// Plans for a Harmonic leader under a single budget: the budget is Harmonic's
/// priority fee and the tip everywhere else.
pub fn harmonic_cost_mode_v1(roster: &Roster, config: CostTxConfig) -> (r: Plan<V1TxConfig>)
    ensures
        r@ == cost_v1_plan(*roster, SendRoute::Harmonic, config),
{
    harmonic_mode_v1(
        roster,
        Some(TipStrategy::Absolute(config.cost)),
        config.as_tip_channel_config(),
    )
}

/// Plans for a Jito leader under a single budget: the budget is the tip.
pub fn jito_cost_mode_v1(roster: &Roster, config: CostTxConfig) -> (r: Plan<V1TxConfig>)
    ensures
        r@ == cost_v1_plan(*roster, SendRoute::Jito, config),
{
    jito_mode_v1(
        roster,
        Some(TipStrategy::Absolute(config.cost)),
        config.as_tip_channel_config(),
    )
}

/// Plans for a leader that ranks by tip alone under a single budget: the budget
/// is the least tip.
pub fn tip_only_cost_mode_v1(roster: &Roster, config: CostTxConfig) -> (r: Plan<V1TxConfig>)
    ensures
        r@ == cost_v1_plan(*roster, SendRoute::TipOnly, config),
{
    tip_only_auto_v1(
        roster,
        Some(TipStrategy::Absolute(config.cost)),
        config.as_tip_channel_config(),
    )
}

/// Plans the fallback under a single budget.
pub fn fallback_cost_mode_v1(roster: &Roster, config: CostTxConfig) -> (r: Plan<V1TxConfig>)
    ensures
        r@ == fallback_cost_v1_plan(*roster, config),
{
    let with_price_tip = Some(TipStrategy::Ratio(config.tip_rate));
    let no_price_tip = Some(TipStrategy::Absolute(config.cost));
    plan_fallback(
        roster,
        &Offer { bid: Bid::Strategy(with_price_tip), fee: config.as_fee_config() },
        &Offer { bid: Bid::Strategy(no_price_tip), fee: config.as_tip_channel_config() },
    )
}

/// Plans for a leader that ranks by tip alone, with a priority fee under the
/// ceiling.
pub fn tip_only_auto_v1(
    roster: &Roster,
    tip_strategy: Option<TipStrategy>,
    config: V1TxConfig,
) -> (r: Plan<V1TxConfig>)
    ensures
        r@ == tip_only_auto_v1_plan(*roster, tip_strategy, config),
{
    let fee: u64 = match config.priority_fee {
        Some(p) => if p <= FEE_CEILING {
            p
        } else {
            FEE_CEILING
        },
        None => F64::from_bits(CEILING_SHARE).portion(FEE_CEILING),
    };
    let floor: u64 = base_bid(tip_strategy, DEFAULT_TIP_FLOOR);
    plan_helius_first(
        roster,
        &Offer { bid: Bid::AtLeast(floor), fee: config.paying(Some(fee)) },
    )
}

/// Plans a low-cost send: a few platforms, one round, no routing.
pub fn dispatch_cheap_v1(
    roster: &Roster,
    tip_strategy: Option<TipStrategy>,
    config: V1TxConfig,
) -> (r: Plan<V1TxConfig>)
    ensures
        r@ == cheap_v1_plan(*roster, tip_strategy, config),
{
    let lineup = CHEAP_LINEUP;
    plan_lineup(
        roster,
        lineup.as_slice(),
        &Offer { bid: Bid::Strategy(tip_strategy), fee: config },
    )
}

/// Plans a send that bids by tip only: no priority fee but Harmonic's own, and
/// tips of at least `min_tip_floor`.
pub fn dispatch_tip_only_v1(
    roster: &Roster,
    route: SendRoute,
    min_tip_floor: u64,
    config: V1TxConfig,
) -> (r: Plan<V1TxConfig>)
    ensures
        r@ == tip_only_v1_plan(*roster, route, min_tip_floor, config),
{
    match route {
        SendRoute::Harmonic => tip_only_harmonic_v1(roster, min_tip_floor, config),
        SendRoute::Jito => tip_only_jito_v1(roster, min_tip_floor, config),
        SendRoute::Fallback => tip_only_fallback_v1(roster, min_tip_floor, config),
        SendRoute::TipOnly => tip_only_fallback_v1(roster, min_tip_floor, config),
    }
}

/// Plans the side-by-side broadcast of one offer, after the given first shots.
pub fn fire_all_parallel_v1(
    roster: &Roster,
    first: Vec<Shot<V1TxConfig>>,
    offer: &Offer<V1TxConfig>,
) -> (r: Plan<V1TxConfig>)
    ensures
        r@ == broadcast_plan(*roster, first@, *offer),
{
    fire_all_parallel(roster, first, offer)
}

/// Plans a tip-only send for a Harmonic leader: Harmonic at the tip turned into
/// a priority fee, and the broadcast.
pub fn tip_only_harmonic_v1(
    roster: &Roster,
    min_tip_floor: u64,
    config: V1TxConfig,
) -> (r: Plan<V1TxConfig>)
    ensures
        r@ == tip_only_v1_plan(*roster, SendRoute::Harmonic, min_tip_floor, config),
{
    let own = Offer { bid: Bid::Strategy(None), fee: config.paying(if_positive(min_tip_floor)) };
    let mut first: Vec<Shot<V1TxConfig>> = Vec::new();
    push_single(&mut first, Platform::Harmonic, roster.harmonic, &own);
    assert(first@ =~= single(Platform::Harmonic, roster.harmonic, own));
    fire_all_parallel_v1(
        roster,
        first,
        &Offer { bid: Bid::AtLeast(min_tip_floor), fee: config.paying(None) },
    )
}

/// Plans a tip-only send for a Jito leader.
pub fn tip_only_jito_v1(
    roster: &Roster,
    min_tip_floor: u64,
    config: V1TxConfig,
) -> (r: Plan<V1TxConfig>)
    ensures
        r@ == tip_only_v1_plan(*roster, SendRoute::Jito, min_tip_floor, config),
{
    let lineup = JITO_LINEUP;
    plan_lineup(
        roster,
        lineup.as_slice(),
        &Offer { bid: Bid::AtLeast(min_tip_floor), fee: config.paying(None) },
    )
}

/// Plans a tip-only send for every other leader: the broadcast alone.
pub fn tip_only_fallback_v1(
    roster: &Roster,
    min_tip_floor: u64,
    config: V1TxConfig,
) -> (r: Plan<V1TxConfig>)
    ensures
        r@ == tip_only_v1_plan(*roster, SendRoute::Fallback, min_tip_floor, config),
{
    let first: Vec<Shot<V1TxConfig>> = Vec::new();
    assert(first@ =~= seq![]);
    fire_all_parallel_v1(
        roster,
        first,
        &Offer { bid: Bid::AtLeast(min_tip_floor), fee: config.paying(None) },
    )
}

} // verus!
