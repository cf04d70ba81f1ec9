//! The laws of version 1 sends: they do what version 0 sends do, at a fee that is
//! a total.

use crate::fee::{positive, price_of, CostConfig, CostTxConfig, Cu, V1TxConfig};
use crate::guarantees::{
    each_once, lemma_broadcast_each_once, lemma_broadcast_shots, lemma_cost_covers_minimum,
    lemma_fallback_shots, lemma_harmonic_shots, lemma_helius_first_each_once,
    lemma_helius_first_shots, lemma_jito_each_once, lemma_lineup_shots, lemma_quic_supersedes,
    lemma_send_covers_minimum, lemma_share_at_most, lemma_single_shots, sound,
};
use crate::leader::SendRoute;
use crate::plan::{
    alike, lemma_concat_alike, lemma_volley_alike, once, once_line, single, two_round_line, Offer,
    PlanView, Round, Shot,
};
use crate::platform::{Platform, Roster};
use crate::strategy::{
    at_least, base_amount, by_strategy, cheap_plan, cost_plan, discounted, dispatch_plan,
    fallback_plan, harmonic_cu, harmonic_plan, priced_tip, tip_only_cu, tip_only_plan, unpriced,
    BROADCAST_LINEUP, BROADCAST_OTHERS, CHEAP_LINEUP, DEFAULT_TIP_FLOOR, FALLBACK_LINEUP,
    FEE_CEILING, HARMONIC_DISCOUNTED, HARMONIC_OTHERS, JITO_LINEUP,
};
use crate::strategy_v1::{
    cheap_v1_plan, cost_v1_plan, dispatch_v1_plan, harmonic_config, tip_only_auto_v1_plan,
    tip_only_config, tip_only_v1_plan,
};
use crate::tip::{larger, TipStrategy};
use vstd::prelude::*;

verus! {

/// Whether two plans hit the same platforms with the same tips, in the same
/// order, and differ in the fees at most.
pub open spec fn same_but_fees<F, G>(a: PlanView<F>, b: PlanView<G>) -> bool {
    alike(a.direct, b.direct) && alike(a.parallel, b.parallel)
}

proof fn lemma_once_alike<F, G>(
    roster: Roster,
    prefer_quic: bool,
    lineup: Seq<Platform>,
    a: Offer<F>,
    b: Offer<G>,
)
    requires
        a.bid == b.bid,
    ensures
        alike(once(roster, prefer_quic, lineup, a), once(roster, prefer_quic, lineup, b)),
{
    let f = once_line(roster, prefer_quic, a);
    let g = once_line(roster, prefer_quic, b);
    assert forall|p: Platform| alike(#[trigger] f(p), g(p)) by {}
    lemma_volley_alike(lineup, f, g);
}

proof fn lemma_two_rounds_alike<F, G>(
    roster: Roster,
    priced: Offer<F>,
    plain: Offer<F>,
    priced_v1: Offer<G>,
    plain_v1: Offer<G>,
)
    requires
        priced.bid == priced_v1.bid,
        plain.bid == plain_v1.bid,
    ensures
        same_but_fees(
            fallback_plan(roster, priced, plain),
            fallback_plan(roster, priced_v1, plain_v1),
        ),
{
    let f = two_round_line(roster, priced, plain);
    let g = two_round_line(roster, priced_v1, plain_v1);
    assert forall|line: (Platform, Round)| alike(#[trigger] f(line), g(line)) by {}
    lemma_volley_alike(FALLBACK_LINEUP@, f, g);
}

proof fn lemma_harmonic_alike<F, G>(
    roster: Roster,
    tip: Option<TipStrategy>,
    own: F,
    plain: F,
    own_v1: G,
    plain_v1: G,
)
    ensures
        same_but_fees(
            harmonic_plan(roster, tip, own, plain),
            harmonic_plan(roster, tip, own_v1, plain_v1),
        ),
{
    let first = single(Platform::Harmonic, roster.harmonic, by_strategy(None, own));
    let first_v1 = single(Platform::Harmonic, roster.harmonic, by_strategy(None, own_v1));
    let reduced = by_strategy(discounted(tip), plain);
    let reduced_v1 = by_strategy(discounted(tip), plain_v1);
    let full = by_strategy(tip, plain);
    let full_v1 = by_strategy(tip, plain_v1);
    lemma_once_alike(roster, false, HARMONIC_DISCOUNTED@, reduced, reduced_v1);
    lemma_once_alike(roster, false, HARMONIC_OTHERS@, full, full_v1);
    let second = once(roster, false, HARMONIC_DISCOUNTED@, reduced);
    let second_v1 = once(roster, false, HARMONIC_DISCOUNTED@, reduced_v1);
    let third = once(roster, false, HARMONIC_OTHERS@, full);
    let third_v1 = once(roster, false, HARMONIC_OTHERS@, full_v1);
    lemma_concat_alike(first, second, first_v1, second_v1);
    lemma_concat_alike(first + second, third, first_v1 + second_v1, third_v1);
}

/// An ordinary send of version 1 hits the same platforms with the same tips, in
/// the same order, as one of version 0.
pub proof fn lemma_send_same_as_v0(
    roster: Roster,
    route: SendRoute,
    tip: Option<TipStrategy>,
    cu: Cu,
    config: V1TxConfig,
)
    ensures
        same_but_fees(
            dispatch_plan(roster, route, tip, cu),
            dispatch_v1_plan(roster, route, tip, config),
        ),
{
    let none = config.with_fee(None);
    match route {
        SendRoute::Harmonic => {
            lemma_harmonic_alike(
                roster,
                tip,
                harmonic_cu(tip, cu),
                unpriced(cu),
                harmonic_config(tip, config),
                none,
            );
        },
        SendRoute::Jito => {
            lemma_once_alike(
                roster,
                true,
                JITO_LINEUP@,
                by_strategy(tip, unpriced(cu)),
                by_strategy(tip, none),
            );
        },
        SendRoute::Fallback => {
            lemma_two_rounds_alike(
                roster,
                by_strategy(priced_tip(), cu),
                by_strategy(tip, unpriced(cu)),
                by_strategy(priced_tip(), config),
                by_strategy(tip, none),
            );
        },
        SendRoute::TipOnly => {
            let floor = base_amount(tip, DEFAULT_TIP_FLOOR);
            lemma_once_alike(
                roster,
                true,
                BROADCAST_OTHERS@,
                at_least(floor, tip_only_cu(cu)),
                at_least(floor, tip_only_config(config)),
            );
        },
    }
}

/// The same of a send under a single budget.
pub proof fn lemma_cost_same_as_v0(
    roster: Roster,
    route: SendRoute,
    config: CostConfig,
    config_v1: CostTxConfig,
)
    requires
        config.cost_amount == config_v1.cost,
        config.tip_rate == config_v1.tip_rate,
    ensures
        same_but_fees(cost_plan(roster, route, config), cost_v1_plan(roster, route, config_v1)),
{
    let tip = Some(TipStrategy::Absolute(config.cost_amount));
    let plain: Cu = (Some(config.cu_limit), None);
    if route is Fallback {
        let price = positive(
            price_of(config.cost_amount, config.cu_limit),
        );
        let small = Some(TipStrategy::Ratio(config.tip_rate));
        lemma_two_rounds_alike(
            roster,
            by_strategy(small, (Some(config.cu_limit), price)),
            by_strategy(tip, plain),
            by_strategy(small, config_v1.fee_config()),
            by_strategy(tip, config_v1.tip_channel_config()),
        );
    } else {
        lemma_send_same_as_v0(roster, route, tip, plain, config_v1.tip_channel_config());
    }
}

/// The same of a low-cost send.
pub proof fn lemma_cheap_same_as_v0(
    roster: Roster,
    tip: Option<TipStrategy>,
    cu: Cu,
    config: V1TxConfig,
)
    ensures
        same_but_fees(cheap_plan(roster, tip, cu), cheap_v1_plan(roster, tip, config)),
{
    lemma_once_alike(
        roster,
        true,
        CHEAP_LINEUP@,
        by_strategy(tip, cu),
        by_strategy(tip, config),
    );
}

/// The same of a tip-only send.
pub proof fn lemma_tip_only_same_as_v0(
    roster: Roster,
    route: SendRoute,
    min_tip_floor: u64,
    cu_limit: u32,
    config: V1TxConfig,
)
    ensures
        same_but_fees(
            tip_only_plan(roster, route, min_tip_floor, cu_limit),
            tip_only_v1_plan(roster, route, min_tip_floor, config),
        ),
{
    let plain: Cu = (Some(cu_limit), None);
    let offer = at_least(min_tip_floor, plain);
    let offer_v1 = at_least(min_tip_floor, config.with_fee(None));
    lemma_once_alike(roster, true, JITO_LINEUP@, offer, offer_v1);
    lemma_once_alike(roster, true, BROADCAST_LINEUP@, offer, offer_v1);
}

/// A shot of one plan has a counterpart in the other: the same but for the fee.
proof fn lemma_counterpart<F, G>(a: PlanView<F>, b: PlanView<G>, shot: Shot<G>) -> (other: Shot<F>)
    requires
        same_but_fees(a, b),
        b.fires(shot),
    ensures
        a.fires(other),
        other.platform == shot.platform,
        other.tip == shot.tip,
{
    if b.direct.contains(shot) {
        let i = choose|i: int| 0 <= i < b.direct.len() && b.direct[i] == shot;
        assert(a.direct.contains(a.direct[i]));
        a.direct[i]
    } else {
        let i = choose|i: int| 0 <= i < b.parallel.len() && b.parallel[i] == shot;
        assert(a.parallel.contains(a.parallel[i]));
        a.parallel[i]
    }
}

/// Every shot of an ordinary send goes to a registered platform and never tips
/// less than that platform asks for. Unless a Harmonic node leads, an HTTP
/// transport is not used where its QUIC counterpart is built in.
pub proof fn lemma_send_v1_covers_minimum(
    roster: Roster,
    route: SendRoute,
    tip: Option<TipStrategy>,
    config: V1TxConfig,
    shot: Shot<V1TxConfig>,
)
    requires
        dispatch_v1_plan(roster, route, tip, config).fires(shot),
    ensures
        sound(roster, shot),
        !(route is Harmonic) ==> !roster.superseded(shot.platform),
{
    let cu: Cu = (None, None);
    lemma_send_same_as_v0(roster, route, tip, cu, config);
    let other = lemma_counterpart(
        dispatch_plan(roster, route, tip, cu),
        dispatch_v1_plan(roster, route, tip, config),
        shot,
    );
    lemma_send_covers_minimum(roster, route, tip, cu, other);
    if !(route is Harmonic) {
        lemma_quic_supersedes(roster, route, tip, cu, other);
    }
}

/// The same of a send under a single budget.
pub proof fn lemma_cost_v1_covers_minimum(
    roster: Roster,
    route: SendRoute,
    config: CostTxConfig,
    shot: Shot<V1TxConfig>,
)
    requires
        cost_v1_plan(roster, route, config).fires(shot),
    ensures
        sound(roster, shot),
        !(route is Harmonic) ==> !roster.superseded(shot.platform),
{
    let config_v0 = CostConfig {
        cost_amount: config.cost,
        cu_limit: config.cu_limit,
        tip_rate: config.tip_rate,
    };
    lemma_cost_same_as_v0(roster, route, config_v0, config);
    let other = lemma_counterpart(
        cost_plan(roster, route, config_v0),
        cost_v1_plan(roster, route, config),
        shot,
    );
    lemma_cost_covers_minimum(roster, route, config_v0, other);
}

/// The same of a low-cost send, which keeps the configuration of the caller.
pub proof fn lemma_cheap_v1_covers_minimum(
    roster: Roster,
    tip: Option<TipStrategy>,
    config: V1TxConfig,
    shot: Shot<V1TxConfig>,
)
    requires
        cheap_v1_plan(roster, tip, config).fires(shot),
    ensures
        sound(roster, shot),
        !roster.superseded(shot.platform),
        CHEAP_LINEUP@.contains(shot.platform),
        shot.fee == config,
{
    lemma_lineup_shots(roster, CHEAP_LINEUP@, by_strategy(tip, config), shot);
}

/// A tip-only send tips at least the floor and at least what the platform asks
/// for, and pays no priority fee. Harmonic alone gets no tip, and the floor as a
/// priority fee.
pub proof fn lemma_tip_only_v1_keeps_floor(
    roster: Roster,
    route: SendRoute,
    min_tip_floor: u64,
    config: V1TxConfig,
    shot: Shot<V1TxConfig>,
)
    requires
        tip_only_v1_plan(roster, route, min_tip_floor, config).fires(shot),
    ensures
        sound(roster, shot),
        !roster.superseded(shot.platform),
        !(shot.platform is Harmonic) ==> {
            &&& shot.tip == Some(
                larger(min_tip_floor, roster.registered(shot.platform)->0.min_tip),
            )
            &&& shot.fee == config.with_fee(None)
        },
        shot.platform is Harmonic ==> {
            &&& route is Harmonic
            &&& shot.tip is None
            &&& shot.fee == config.with_fee(positive(min_tip_floor))
        },
{
    let offer = at_least(min_tip_floor, config.with_fee(None));
    match route {
        SendRoute::Harmonic => {
            let own = by_strategy(None, config.with_fee(positive(min_tip_floor)));
            let first = single(Platform::Harmonic, roster.harmonic, own);
            if first.contains(shot) {
                lemma_single_shots(roster, Platform::Harmonic, own, shot);
            } else {
                lemma_broadcast_shots(roster, first, offer, shot);
            }
        },
        SendRoute::Jito => {
            lemma_lineup_shots(roster, JITO_LINEUP@, offer, shot);
        },
        _ => {
            lemma_broadcast_shots(roster, seq![], offer, shot);
        },
    }
}

/// While a Jito node leads, no shot pays a priority fee.
pub proof fn lemma_jito_v1_pays_no_fee(
    roster: Roster,
    tip: Option<TipStrategy>,
    config: V1TxConfig,
    shot: Shot<V1TxConfig>,
)
    requires
        dispatch_v1_plan(roster, SendRoute::Jito, tip, config).fires(shot),
    ensures
        shot.fee == config.with_fee(None),
{
    lemma_lineup_shots(roster, JITO_LINEUP@, by_strategy(tip, config.with_fee(None)), shot);
}

/// While a Harmonic node leads, Harmonic alone is paid a priority fee and
/// Harmonic alone gets no tip. The fee is the caller's or the tip, whichever is
/// larger.
pub proof fn lemma_harmonic_v1_alone_is_paid_a_fee(
    roster: Roster,
    tip: Option<TipStrategy>,
    config: V1TxConfig,
    shot: Shot<V1TxConfig>,
)
    requires
        dispatch_v1_plan(roster, SendRoute::Harmonic, tip, config).fires(shot),
    ensures
        !(shot.platform is Harmonic) ==> shot.fee == config.with_fee(None),
        shot.platform is Harmonic ==> shot.tip is None && shot.fee == harmonic_config(tip, config),
{
    lemma_harmonic_shots(
        roster,
        tip,
        harmonic_config(tip, config),
        config.with_fee(None),
        shot,
    );
}

/// A tip-only leader never costs more than the ceiling in priority fees.
pub proof fn lemma_tip_only_v1_stays_under_ceiling(
    roster: Roster,
    tip: Option<TipStrategy>,
    config: V1TxConfig,
    shot: Shot<V1TxConfig>,
)
    requires
        dispatch_v1_plan(roster, SendRoute::TipOnly, tip, config).fires(shot),
    ensures
        shot.fee.priority_fee is Some,
        shot.fee.priority_fee->0 <= FEE_CEILING,
{
    let offer = at_least(base_amount(tip, DEFAULT_TIP_FLOOR), tip_only_config(config));
    lemma_helius_first_shots(roster, offer, shot);
    lemma_share_at_most(FEE_CEILING);
}

/// A leader that ranks by tip alone gets each platform's shot once, Helius Max's
/// among them.
pub proof fn lemma_tip_only_auto_v1_each_once(
    roster: Roster,
    tip: Option<TipStrategy>,
    config: V1TxConfig,
)
    ensures
        each_once(tip_only_auto_v1_plan(roster, tip, config).shots()),
{
    lemma_helius_first_each_once(
        roster,
        at_least(base_amount(tip, DEFAULT_TIP_FLOOR), tip_only_config(config)),
    );
}

/// A tip-only send fires at each platform at most once.
pub proof fn lemma_tip_only_v1_each_once(
    roster: Roster,
    route: SendRoute,
    min_tip_floor: u64,
    config: V1TxConfig,
)
    ensures
        each_once(tip_only_v1_plan(roster, route, min_tip_floor, config).shots()),
{
    let offer = at_least(min_tip_floor, config.with_fee(None));
    if route is Jito {
        lemma_jito_each_once(roster, offer);
    } else {
        let plan = tip_only_v1_plan(roster, route, min_tip_floor, config);
        lemma_broadcast_each_once(roster, plan.direct, offer);
    }
}

/// Under a single budget no shot pays more than the budget as a priority fee, and
/// a shot that pays none tips the budget, in the fallback and on a Jito leader.
/// Leaders that rank by tip alone have their own ceiling instead.
pub proof fn lemma_budget_v1_is_kept(
    roster: Roster,
    route: SendRoute,
    config: CostTxConfig,
    shot: Shot<V1TxConfig>,
)
    requires
        !(route is TipOnly),
        cost_v1_plan(roster, route, config).fires(shot),
    ensures
        shot.fee.compute_unit_limit == Some(config.cu_limit),
        shot.fee.priority_fee matches Some(fee) ==> fee == config.cost,
        shot.fee.priority_fee is None && !(route is Harmonic) ==> shot.tip is Some && shot.tip->0
            >= config.cost,
{
    let tip = Some(TipStrategy::Absolute(config.cost));
    let plain = config.tip_channel_config();
    match route {
        SendRoute::Harmonic => {
            lemma_harmonic_shots(
                roster,
                tip,
                harmonic_config(tip, plain),
                plain.with_fee(None),
                shot,
            );
        },
        SendRoute::Jito => {
            lemma_lineup_shots(roster, JITO_LINEUP@, by_strategy(tip, plain.with_fee(None)), shot);
        },
        SendRoute::Fallback => {
            lemma_fallback_shots(
                roster,
                by_strategy(Some(TipStrategy::Ratio(config.tip_rate)), config.fee_config()),
                by_strategy(tip, plain),
                shot,
            );
        },
        SendRoute::TipOnly => {},
    }
}

} // verus!
