//! What version 1 sends do, told from their arguments and results.

use crate::binary64::of_bits;
use crate::fee::{CostTxConfig, V1TxConfig};
use crate::laws::{greater, height, lesser, or, slightly_more, unless_zero};
use crate::leader::SendRoute;
use crate::plan::{Bid, Offer, Plan, PlanView, Shot};
use crate::platform::{Platform, Roster};
use crate::shares::{
    at_once, broadcast_rest_share, broadcast_share, cheap_share, fallback_share, harmonic_place,
    harmonic_share, in_turn, lemma_broadcast_at_floor, lemma_cheap_by_strategy,
    lemma_fallback_shares, lemma_harmonic_shares, lemma_helius_first_at_floor, lemma_jito_at_floor,
    lemma_jito_by_strategy, shot_at_floor, shot_by_strategy, tip_floor_share, tip_share,
    usual_place,
};
use crate::strategy_v1::{
    dispatch_cheap_v1, dispatch_tip_only_v1, dispatch_v1, dispatch_with_cost_v1,
    fallback_cost_mode_v1, fallback_mode_v1, fire_all_parallel_v1, harmonic_cost_mode_v1,
    harmonic_mode_v1, jito_cost_mode_v1, jito_mode_v1, tip_only_auto_v1, tip_only_cost_mode_v1,
    tip_only_fallback_v1, tip_only_harmonic_v1, tip_only_jito_v1,
};
use crate::tip::TipStrategy;
use vstd::prelude::*;

verus! {

/// A configuration with its limits kept and this priority fee.
pub open spec fn at_fee(config: V1TxConfig, priority_fee: Option<u64>) -> V1TxConfig {
    V1TxConfig {
        priority_fee,
        compute_unit_limit: config.compute_unit_limit,
        loaded_accounts_data_size_limit: config.loaded_accounts_data_size_limit,
        heap_size: config.heap_size,
    }
}

/// A configuration of a compute-unit limit and a priority fee alone.
pub open spec fn of_limit(cu_limit: u32, priority_fee: Option<u64>) -> V1TxConfig {
    V1TxConfig {
        priority_fee,
        compute_unit_limit: Some(cu_limit),
        loaded_accounts_data_size_limit: None,
        heap_size: None,
    }
}

/// What Harmonic is paid: the height of the tip, or the caller's fee if that is
/// more.
pub open spec fn harmonic_total(tip: Option<TipStrategy>, config: V1TxConfig) -> V1TxConfig {
    at_fee(config, unless_zero(greater(height(tip, 0), or(config.priority_fee, 0))))
}

/// What a tip-only leader is paid: the caller's fee, but no more than 100,000
/// lamports; without a fee 0.8 of that.
pub open spec fn capped_total(config: V1TxConfig) -> V1TxConfig {
    let fee = match config.priority_fee {
        Some(p) => lesser(p, 100_000),
        None => of_bits(0x3FE9_9999_9999_999A).portion_of(100_000),
    };
    at_fee(config, Some(fee))
}

/// An ordinary send on a route.
pub open spec fn ordinary_v1(
    plan: PlanView<V1TxConfig>,
    roster: Roster,
    route: SendRoute,
    tip: Option<TipStrategy>,
    config: V1TxConfig,
) -> bool {
    let plain = at_fee(config, None);
    match route {
        SendRoute::Harmonic => in_turn(
            plan,
            harmonic_share(roster, tip, harmonic_total(tip, config), plain),
            |p: Platform| harmonic_place(p),
        ),
        SendRoute::Jito => in_turn(
            plan,
            tip_share(roster, tip, plain),
            |p: Platform| usual_place(p),
        ),
        SendRoute::Fallback => in_turn(
            plan,
            fallback_share(roster, slightly_more(), config, tip, plain),
            |p: Platform| usual_place(p),
        ),
        SendRoute::TipOnly => at_once(
            plan,
            shot_at_floor(
                Platform::HeliusMax,
                roster.helius_max,
                height(tip, 5_000),
                capped_total(config),
            ),
            broadcast_rest_share(roster, height(tip, 5_000), capped_total(config)),
        ),
    }
}

/// A send under a budget on a route. In the fallback the budget is the fee of the
/// priced shots and the tip of the plain ones; elsewhere it is the tip.
pub open spec fn budgeted_v1(
    plan: PlanView<V1TxConfig>,
    roster: Roster,
    route: SendRoute,
    config: CostTxConfig,
) -> bool {
    let plain = of_limit(config.cu_limit, None);
    let whole = Some(TipStrategy::Absolute(config.cost));
    match route {
        SendRoute::Fallback => in_turn(
            plan,
            fallback_share(
                roster,
                Some(TipStrategy::Ratio(config.tip_rate)),
                of_limit(config.cu_limit, Some(config.cost)),
                whole,
                plain,
            ),
            |p: Platform| usual_place(p),
        ),
        SendRoute::Harmonic => ordinary_v1(plan, roster, SendRoute::Harmonic, whole, plain),
        SendRoute::Jito => ordinary_v1(plan, roster, SendRoute::Jito, whole, plain),
        SendRoute::TipOnly => ordinary_v1(plan, roster, SendRoute::TipOnly, whole, plain),
    }
}

/// A tip-only send on a route: on a Jito leader every platform that ranks by tip,
/// else every platform but Jito and Harmonic; on a Harmonic leader Harmonic too.
pub open spec fn floored_v1(
    plan: PlanView<V1TxConfig>,
    roster: Roster,
    route: SendRoute,
    floor: u64,
    config: V1TxConfig,
) -> bool {
    let plain = at_fee(config, None);
    let own = at_fee(config, unless_zero(floor));
    match route {
        SendRoute::Jito => in_turn(
            plan,
            tip_floor_share(roster, floor, plain),
            |p: Platform| usual_place(p),
        ),
        SendRoute::Harmonic => at_once(
            plan,
            shot_by_strategy(Platform::Harmonic, roster.harmonic, None, own),
            broadcast_share(roster, floor, plain),
        ),
        SendRoute::Fallback => at_once(plan, seq![], broadcast_share(roster, floor, plain)),
        SendRoute::TipOnly => at_once(plan, seq![], broadcast_share(roster, floor, plain)),
    }
}

/// A Harmonic leader: what every platform gets.
pub proof fn lemma_harmonic_mode_v1(
    roster: Roster,
    tip: Option<TipStrategy>,
    config: V1TxConfig,
    plan: Plan<V1TxConfig>,
)
    requires
        call_ensures(harmonic_mode_v1, (&roster, tip, config), plan),
    ensures
        ordinary_v1(plan@, roster, SendRoute::Harmonic, tip, config),
{
    lemma_harmonic_shares(roster, tip, harmonic_total(tip, config), at_fee(config, None));
}

/// A Jito leader: what every platform gets.
pub proof fn lemma_jito_mode_v1(
    roster: Roster,
    tip: Option<TipStrategy>,
    config: V1TxConfig,
    plan: Plan<V1TxConfig>,
)
    requires
        call_ensures(jito_mode_v1, (&roster, tip, config), plan),
    ensures
        ordinary_v1(plan@, roster, SendRoute::Jito, tip, config),
{
    lemma_jito_by_strategy(roster, tip, at_fee(config, None));
}

/// Every other leader: each platform that takes a price gets the caller's fee with a
/// small tip, and each that ranks by tip gets the caller's tip without a fee.
pub proof fn lemma_fallback_mode_v1(
    roster: Roster,
    tip: Option<TipStrategy>,
    config: V1TxConfig,
    plan: Plan<V1TxConfig>,
)
    requires
        call_ensures(fallback_mode_v1, (&roster, tip, config), plan),
    ensures
        ordinary_v1(plan@, roster, SendRoute::Fallback, tip, config),
{
    lemma_fallback_shares(roster, slightly_more(), config, tip, at_fee(config, None));
}

/// A leader that ranks by tip alone: what every platform gets.
pub proof fn lemma_tip_only_auto_v1(
    roster: Roster,
    tip: Option<TipStrategy>,
    config: V1TxConfig,
    plan: Plan<V1TxConfig>,
)
    requires
        call_ensures(tip_only_auto_v1, (&roster, tip, config), plan),
    ensures
        ordinary_v1(plan@, roster, SendRoute::TipOnly, tip, config),
{
    lemma_helius_first_at_floor(roster, height(tip, 5_000), capped_total(config));
}

/// An ordinary send on any route.
pub proof fn lemma_dispatch_v1(
    roster: Roster,
    route: SendRoute,
    tip: Option<TipStrategy>,
    config: V1TxConfig,
    plan: Plan<V1TxConfig>,
)
    requires
        call_ensures(dispatch_v1, (&roster, route, tip, config), plan),
    ensures
        ordinary_v1(plan@, roster, route, tip, config),
{
    lemma_harmonic_shares(roster, tip, harmonic_total(tip, config), at_fee(config, None));
    lemma_jito_by_strategy(roster, tip, at_fee(config, None));
    lemma_fallback_shares(roster, slightly_more(), config, tip, at_fee(config, None));
    lemma_helius_first_at_floor(roster, height(tip, 5_000), capped_total(config));
}

/// A send under a budget on any route.
pub proof fn lemma_dispatch_with_cost_v1(
    roster: Roster,
    route: SendRoute,
    cost: CostTxConfig,
    plan: Plan<V1TxConfig>,
)
    requires
        call_ensures(dispatch_with_cost_v1, (&roster, route, cost), plan),
    ensures
        budgeted_v1(plan@, roster, route, cost),
{
    let tip = Some(TipStrategy::Absolute(cost.cost));
    let config = of_limit(cost.cu_limit, None);
    lemma_fallback_shares(
        roster,
        Some(TipStrategy::Ratio(cost.tip_rate)),
        of_limit(cost.cu_limit, Some(cost.cost)),
        tip,
        config,
    );
    lemma_harmonic_shares(roster, tip, harmonic_total(tip, config), at_fee(config, None));
    lemma_jito_by_strategy(roster, tip, at_fee(config, None));
    lemma_helius_first_at_floor(roster, height(tip, 5_000), capped_total(config));
}

/// A send under a budget on the Fallback route.
pub proof fn lemma_fallback_cost_mode_v1(
    roster: Roster,
    cost: CostTxConfig,
    plan: Plan<V1TxConfig>,
)
    requires
        call_ensures(fallback_cost_mode_v1, (&roster, cost), plan),
    ensures
        budgeted_v1(plan@, roster, SendRoute::Fallback, cost),
{
    let tip = Some(TipStrategy::Absolute(cost.cost));
    let config = of_limit(cost.cu_limit, None);
    lemma_fallback_shares(
        roster,
        Some(TipStrategy::Ratio(cost.tip_rate)),
        of_limit(cost.cu_limit, Some(cost.cost)),
        tip,
        config,
    );
    lemma_harmonic_shares(roster, tip, harmonic_total(tip, config), at_fee(config, None));
    lemma_jito_by_strategy(roster, tip, at_fee(config, None));
    lemma_helius_first_at_floor(roster, height(tip, 5_000), capped_total(config));
}

/// A send under a budget on the Harmonic route.
pub proof fn lemma_harmonic_cost_mode_v1(
    roster: Roster,
    cost: CostTxConfig,
    plan: Plan<V1TxConfig>,
)
    requires
        call_ensures(harmonic_cost_mode_v1, (&roster, cost), plan),
    ensures
        budgeted_v1(plan@, roster, SendRoute::Harmonic, cost),
{
    let tip = Some(TipStrategy::Absolute(cost.cost));
    let config = of_limit(cost.cu_limit, None);
    lemma_fallback_shares(
        roster,
        Some(TipStrategy::Ratio(cost.tip_rate)),
        of_limit(cost.cu_limit, Some(cost.cost)),
        tip,
        config,
    );
    lemma_harmonic_shares(roster, tip, harmonic_total(tip, config), at_fee(config, None));
    lemma_jito_by_strategy(roster, tip, at_fee(config, None));
    lemma_helius_first_at_floor(roster, height(tip, 5_000), capped_total(config));
}

/// A send under a budget on the Jito route.
pub proof fn lemma_jito_cost_mode_v1(
    roster: Roster,
    cost: CostTxConfig,
    plan: Plan<V1TxConfig>,
)
    requires
        call_ensures(jito_cost_mode_v1, (&roster, cost), plan),
    ensures
        budgeted_v1(plan@, roster, SendRoute::Jito, cost),
{
    let tip = Some(TipStrategy::Absolute(cost.cost));
    let config = of_limit(cost.cu_limit, None);
    lemma_fallback_shares(
        roster,
        Some(TipStrategy::Ratio(cost.tip_rate)),
        of_limit(cost.cu_limit, Some(cost.cost)),
        tip,
        config,
    );
    lemma_harmonic_shares(roster, tip, harmonic_total(tip, config), at_fee(config, None));
    lemma_jito_by_strategy(roster, tip, at_fee(config, None));
    lemma_helius_first_at_floor(roster, height(tip, 5_000), capped_total(config));
}

/// A send under a budget on the TipOnly route.
pub proof fn lemma_tip_only_cost_mode_v1(
    roster: Roster,
    cost: CostTxConfig,
    plan: Plan<V1TxConfig>,
)
    requires
        call_ensures(tip_only_cost_mode_v1, (&roster, cost), plan),
    ensures
        budgeted_v1(plan@, roster, SendRoute::TipOnly, cost),
{
    let tip = Some(TipStrategy::Absolute(cost.cost));
    let config = of_limit(cost.cu_limit, None);
    lemma_fallback_shares(
        roster,
        Some(TipStrategy::Ratio(cost.tip_rate)),
        of_limit(cost.cu_limit, Some(cost.cost)),
        tip,
        config,
    );
    lemma_harmonic_shares(roster, tip, harmonic_total(tip, config), at_fee(config, None));
    lemma_jito_by_strategy(roster, tip, at_fee(config, None));
    lemma_helius_first_at_floor(roster, height(tip, 5_000), capped_total(config));
}

/// A low-cost send.
pub proof fn lemma_dispatch_cheap_v1(
    roster: Roster,
    tip: Option<TipStrategy>,
    config: V1TxConfig,
    plan: Plan<V1TxConfig>,
)
    requires
        call_ensures(dispatch_cheap_v1, (&roster, tip, config), plan),
    ensures
        in_turn(plan@, cheap_share(roster, tip, config), |p: Platform| usual_place(p)),
{
    lemma_cheap_by_strategy(roster, tip, config);
}

/// A tip-only send leaves no platform of its route out.
pub proof fn lemma_dispatch_tip_only_v1(
    roster: Roster,
    route: SendRoute,
    floor: u64,
    config: V1TxConfig,
    plan: Plan<V1TxConfig>,
)
    requires
        call_ensures(dispatch_tip_only_v1, (&roster, route, floor, config), plan),
    ensures
        floored_v1(plan@, roster, route, floor, config),
{
    let plain = at_fee(config, None);
    let own = at_fee(config, unless_zero(floor));
    let first = shot_by_strategy(Platform::Harmonic, roster.harmonic, None, own);
    lemma_jito_at_floor(roster, floor, plain);
    lemma_broadcast_at_floor(roster, first, floor, plain);
    lemma_broadcast_at_floor(roster, seq![], floor, plain);
}

/// A tip-only send on the Harmonic route.
pub proof fn lemma_tip_only_harmonic_v1(
    roster: Roster,
    floor: u64,
    config: V1TxConfig,
    plan: Plan<V1TxConfig>,
)
    requires
        call_ensures(tip_only_harmonic_v1, (&roster, floor, config), plan),
    ensures
        floored_v1(plan@, roster, SendRoute::Harmonic, floor, config),
{
    let plain = at_fee(config, None);
    let own = at_fee(config, unless_zero(floor));
    let first = shot_by_strategy(Platform::Harmonic, roster.harmonic, None, own);
    lemma_jito_at_floor(roster, floor, plain);
    lemma_broadcast_at_floor(roster, first, floor, plain);
    lemma_broadcast_at_floor(roster, seq![], floor, plain);
}

/// A tip-only send on the Jito route.
pub proof fn lemma_tip_only_jito_v1(
    roster: Roster,
    floor: u64,
    config: V1TxConfig,
    plan: Plan<V1TxConfig>,
)
    requires
        call_ensures(tip_only_jito_v1, (&roster, floor, config), plan),
    ensures
        floored_v1(plan@, roster, SendRoute::Jito, floor, config),
{
    let plain = at_fee(config, None);
    let own = at_fee(config, unless_zero(floor));
    let first = shot_by_strategy(Platform::Harmonic, roster.harmonic, None, own);
    lemma_jito_at_floor(roster, floor, plain);
    lemma_broadcast_at_floor(roster, first, floor, plain);
    lemma_broadcast_at_floor(roster, seq![], floor, plain);
}

/// A tip-only send on the Fallback route.
pub proof fn lemma_tip_only_fallback_v1(
    roster: Roster,
    floor: u64,
    config: V1TxConfig,
    plan: Plan<V1TxConfig>,
)
    requires
        call_ensures(tip_only_fallback_v1, (&roster, floor, config), plan),
    ensures
        floored_v1(plan@, roster, SendRoute::Fallback, floor, config),
{
    let plain = at_fee(config, None);
    let own = at_fee(config, unless_zero(floor));
    let first = shot_by_strategy(Platform::Harmonic, roster.harmonic, None, own);
    lemma_jito_at_floor(roster, floor, plain);
    lemma_broadcast_at_floor(roster, first, floor, plain);
    lemma_broadcast_at_floor(roster, seq![], floor, plain);
}

/// A broadcast at a floor leaves no platform out, whatever was fired before it.
pub proof fn lemma_fire_all_parallel_v1(
    roster: Roster,
    first: Vec<Shot<V1TxConfig>>,
    offer: Offer<V1TxConfig>,
    floor: u64,
    plan: Plan<V1TxConfig>,
)
    requires
        offer.bid == Bid::AtLeast(floor),
        call_ensures(fire_all_parallel_v1, (&roster, first, &offer), plan),
    ensures
        at_once(plan@, first@, broadcast_share(roster, floor, offer.fee)),
{
    lemma_broadcast_at_floor(roster, first@, floor, offer.fee);
}

/// A configuration changes its priority fee and nothing else.
pub proof fn lemma_paying(config: V1TxConfig, fee: Option<u64>, r: V1TxConfig)
    requires
        call_ensures(V1TxConfig::paying, (config, fee), r),
    ensures
        r.priority_fee == fee,
        r.compute_unit_limit == config.compute_unit_limit,
        r.loaded_accounts_data_size_limit == config.loaded_accounts_data_size_limit,
        r.heap_size == config.heap_size,
{
}

/// A budget as a priority fee, or left to the tip.
pub proof fn lemma_budget_configurations(cost: CostTxConfig, fee: V1TxConfig, tip: V1TxConfig)
    requires
        call_ensures(CostTxConfig::as_fee_config, (&cost,), fee),
        call_ensures(CostTxConfig::as_tip_channel_config, (&cost,), tip),
    ensures
        fee == of_limit(cost.cu_limit, Some(cost.cost)),
        tip == of_limit(cost.cu_limit, None),
{
}

} // verus!
