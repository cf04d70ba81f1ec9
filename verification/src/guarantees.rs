//! What holds of every send: the laws that the plans keep, whatever the leader,
//! the clients and the bids.

use crate::binary64::{lemma_portion_at_most, of_bits};
use crate::dispatcher::{send_cost_plan, send_plan, TxDispacher};
use crate::fee::{lemma_price_within_amount, positive, price_of, CostConfig, Cu, MICRO};
use crate::leader::{first_come, route_of, LeaderInfo, NoopOracle, SendRoute};
use crate::plan::{
    lemma_once_distinct, lemma_once_exact, lemma_two_rounds_distinct, lemma_two_rounds_exact, once,
    shot_at, single, Offer, PlanView, Shot,
};
use crate::platform::{Platform, Roster};
use crate::strategy::{
    at_least, base_amount, broadcast_plan, by_strategy, cheap_plan, cost_plan, discounted,
    dispatch_plan, fallback_mode_plan, fallback_plan, first_come_plan, harmonic_cu, harmonic_plan,
    helius_first_plan, lineup_plan, priced_tip, tip_only_auto_plan, tip_only_cu, tip_only_plan,
    unpriced, BROADCAST_LINEUP, BROADCAST_OTHERS, CEILING_SHARE, CHEAP_LINEUP, DEFAULT_CU_LIMIT,
    DEFAULT_TIP_FLOOR, FALLBACK_LINEUP, FEE_CEILING, HARMONIC_DISCOUNTED, HARMONIC_OTHERS,
    JITO_LINEUP,
};
use crate::tip::{explicit_tip, larger, lemma_floor_covers_minimum, TipStrategy};
use vstd::arithmetic::power2::{lemma2_to64_rest, lemma_pow2_adds, pow2};
use vstd::prelude::*;

verus! {

/// Whether a shot makes this offer on its platform, through a client that is
/// registered for it.
pub open spec fn offers<F>(roster: Roster, shot: Shot<F>, offer: Offer<F>) -> bool {
    &&& roster.registered(shot.platform) is Some
    &&& shot == shot_at(shot.platform, roster.registered(shot.platform)->0, offer)
}

/// What each platform is offered while a Harmonic node leads.
pub open spec fn harmonic_offer<F>(
    platform: Platform,
    tip: Option<TipStrategy>,
    own: F,
    plain: F,
) -> Offer<F> {
    match platform {
        Platform::Harmonic => by_strategy(None, own),
        Platform::AstralaneQuic => by_strategy(discounted(tip), plain),
        Platform::Temporal => by_strategy(discounted(tip), plain),
        _ => by_strategy(tip, plain),
    }
}

/// While a Harmonic node leads, every registered platform is fired at, each with
/// the offer that is meant for it, and with no other.
pub proof fn lemma_harmonic_reaches_all<F>(
    roster: Roster,
    tip: Option<TipStrategy>,
    own: F,
    plain: F,
    shot: Shot<F>,
)
    ensures
        harmonic_plan(roster, tip, own, plain).fires(shot) <==> offers(
            roster,
            shot,
            harmonic_offer(shot.platform, tip, own, plain),
        ),
{
    let reduced = by_strategy(discounted(tip), plain);
    let full = by_strategy(tip, plain);
    let first = single(Platform::Harmonic, roster.harmonic, by_strategy(None, own));
    let second = once(roster, false, HARMONIC_DISCOUNTED@, reduced);
    let third = once(roster, false, HARMONIC_OTHERS@, full);
    let direct = harmonic_plan(roster, tip, own, plain).direct;
    lemma_once_exact(roster, false, HARMONIC_DISCOUNTED@, reduced, shot);
    lemma_once_exact(roster, false, HARMONIC_OTHERS@, full, shot);
    lemma_contains_concat(first + second, third, shot);
    lemma_contains_concat(first, second, shot);
    assert(direct == first + second + third);
    if offers(roster, shot, harmonic_offer(shot.platform, tip, own, plain)) {
        match shot.platform {
            Platform::Harmonic => {
                assert(first[0] == shot);
            },
            Platform::AstralaneQuic => {
                assert(HARMONIC_DISCOUNTED@[0] == shot.platform);
            },
            Platform::Temporal => {
                assert(HARMONIC_DISCOUNTED@[1] == shot.platform);
            },
            _ => {
                assert(HARMONIC_OTHERS@[0] == Platform::EverstakeQuic);
                assert(HARMONIC_OTHERS@[1] == Platform::Everstake);
                assert(HARMONIC_OTHERS@[2] == Platform::FlashBlock);
                assert(HARMONIC_OTHERS@[3] == Platform::Astralane);
                assert(HARMONIC_OTHERS@[4] == Platform::NodeOne);
                assert(HARMONIC_OTHERS@[5] == Platform::Blockrazor);
                assert(HARMONIC_OTHERS@[6] == Platform::HeliusMax);
                assert(HARMONIC_OTHERS@[7] == Platform::HeliusSwqos);
                assert(HARMONIC_OTHERS@[8] == Platform::ZeroSlot);
                assert(HARMONIC_OTHERS@[9] == Platform::NextBlock);
                assert(HARMONIC_OTHERS@[10] == Platform::Stellium);
                assert(HARMONIC_OTHERS@[11] == Platform::Jito);
            },
        }
    }
}

proof fn lemma_contains_concat<A>(a: Seq<A>, b: Seq<A>, x: A)
    ensures
        (a + b).contains(x) <==> a.contains(x) || b.contains(x),
{
    if a.contains(x) {
        let i = choose|i: int| 0 <= i < a.len() && a[i] == x;
        assert((a + b)[i] == x);
    }
    if b.contains(x) {
        let i = choose|i: int| 0 <= i < b.len() && b[i] == x;
        assert((a + b)[a.len() + i] == x);
    }
    if (a + b).contains(x) {
        let i = choose|i: int| 0 <= i < (a + b).len() && (a + b)[i] == x;
        if i < a.len() {
            assert(a[i] == x);
        } else {
            assert(b[i - a.len()] == x);
        }
    }
}

// ── Who is fired at, and for how much ────────────────────────────────────────

/// Whether a shot goes to a registered platform and tips at least what that
/// platform asks for, if it tips at all.
pub open spec fn sound<F>(roster: Roster, shot: Shot<F>) -> bool {
    &&& roster.registered(shot.platform) is Some
    &&& shot.tip matches Some(tip) ==> tip >= roster.registered(shot.platform)->0.min_tip
}

proof fn lemma_offer_sound<F>(roster: Roster, shot: Shot<F>, offer: Offer<F>)
    requires
        offers(roster, shot, offer),
    ensures
        sound(roster, shot),
{
    lemma_floor_covers_minimum(roster.registered(shot.platform)->0.min_tip);
}

pub(crate) proof fn lemma_lineup_shots<F>(
    roster: Roster,
    lineup: Seq<Platform>,
    offer: Offer<F>,
    shot: Shot<F>,
)
    requires
        lineup_plan(roster, lineup, offer).fires(shot),
    ensures
        lineup.contains(shot.platform),
        offers(roster, shot, offer),
        sound(roster, shot),
        !roster.superseded(shot.platform),
{
    lemma_once_exact(roster, true, lineup, offer, shot);
    lemma_offer_sound(roster, shot, offer);
}

pub(crate) proof fn lemma_broadcast_shots<F>(
    roster: Roster,
    first: Seq<Shot<F>>,
    offer: Offer<F>,
    shot: Shot<F>,
)
    requires
        broadcast_plan(roster, first, offer).fires(shot),
        !first.contains(shot),
    ensures
        BROADCAST_LINEUP@.contains(shot.platform),
        offers(roster, shot, offer),
        sound(roster, shot),
        !roster.superseded(shot.platform),
{
    lemma_once_exact(roster, true, BROADCAST_LINEUP@, offer, shot);
    lemma_offer_sound(roster, shot, offer);
}

/// A tip-only leader's plan makes its offer on exactly the broadcast platforms
/// that have a client.
pub proof fn lemma_helius_first_exact<F>(roster: Roster, offer: Offer<F>, shot: Shot<F>)
    ensures
        helius_first_plan(roster, offer).fires(shot) <==> {
            &&& BROADCAST_LINEUP@.contains(shot.platform)
            &&& !roster.superseded(shot.platform)
            &&& offers(roster, shot, offer)
        },
{
    let first = single(Platform::HeliusMax, roster.helius_max, offer);
    lemma_once_exact(roster, true, BROADCAST_OTHERS@, offer, shot);
    assert forall|q: Platform| #[trigger] BROADCAST_LINEUP@.contains(q) <==> q is HeliusMax
        || BROADCAST_OTHERS@.contains(q) by {
        lemma_broadcast_lineups(q);
    }
    if first.contains(shot) {
        assert(BROADCAST_LINEUP@.contains(shot.platform));
    }
    if BROADCAST_LINEUP@.contains(shot.platform) && !roster.superseded(shot.platform) && offers(
        roster,
        shot,
        offer,
    ) {
        if shot.platform is HeliusMax {
            assert(first[0] == shot);
        } else {
            let i = choose|i: int|
                0 <= i < BROADCAST_OTHERS@.len() && BROADCAST_OTHERS@[i] == shot.platform;
            assert(BROADCAST_OTHERS@[i] == shot.platform);
        }
    }
}

/// The broadcast lineup is Helius Max and the others.
proof fn lemma_broadcast_lineups(platform: Platform)
    ensures
        BROADCAST_LINEUP@.contains(platform) <==> platform is HeliusMax
            || BROADCAST_OTHERS@.contains(platform),
{
    assert forall|i: int| 0 <= i < 12 implies #[trigger] BROADCAST_OTHERS@[i]
        == BROADCAST_LINEUP@[if i < 9 { i } else { i + 1 }] by {}
    if BROADCAST_LINEUP@.contains(platform) {
        let i = choose|i: int|
            0 <= i < BROADCAST_LINEUP@.len() && BROADCAST_LINEUP@[i] == platform;
        if i < 9 {
            assert(BROADCAST_OTHERS@[i] == platform);
        } else if i > 9 {
            assert(BROADCAST_OTHERS@[i - 1] == platform);
        }
    }
    if BROADCAST_OTHERS@.contains(platform) {
        let i = choose|i: int|
            0 <= i < BROADCAST_OTHERS@.len() && BROADCAST_OTHERS@[i] == platform;
        let j: int = if i < 9 { i } else { i + 1 };
        assert(BROADCAST_LINEUP@[j] == platform);
    }
    assert(BROADCAST_LINEUP@[9] == Platform::HeliusMax);
}

pub(crate) proof fn lemma_helius_first_shots<F>(roster: Roster, offer: Offer<F>, shot: Shot<F>)
    requires
        helius_first_plan(roster, offer).fires(shot),
    ensures
        offers(roster, shot, offer),
        sound(roster, shot),
        !roster.superseded(shot.platform),
{
    lemma_helius_first_exact(roster, offer, shot);
    lemma_offer_sound(roster, shot, offer);
}

pub(crate) proof fn lemma_fallback_shots<F>(
    roster: Roster,
    priced: Offer<F>,
    plain: Offer<F>,
    shot: Shot<F>,
)
    requires
        fallback_plan(roster, priced, plain).fires(shot),
    ensures
        offers(roster, shot, priced) || offers(roster, shot, plain),
        sound(roster, shot),
        !roster.superseded(shot.platform),
{
    lemma_two_rounds_exact(roster, FALLBACK_LINEUP@, priced, plain, shot);
    if offers(roster, shot, priced) {
        lemma_offer_sound(roster, shot, priced);
    } else {
        lemma_offer_sound(roster, shot, plain);
    }
}

pub(crate) proof fn lemma_harmonic_shots<F>(
    roster: Roster,
    tip: Option<TipStrategy>,
    own: F,
    plain: F,
    shot: Shot<F>,
)
    requires
        harmonic_plan(roster, tip, own, plain).fires(shot),
    ensures
        sound(roster, shot),
        shot.platform is Harmonic ==> shot.tip is None && shot.fee == own,
        !(shot.platform is Harmonic) ==> shot.fee == plain,
{
    lemma_harmonic_reaches_all(roster, tip, own, plain, shot);
    lemma_offer_sound(roster, shot, harmonic_offer(shot.platform, tip, own, plain));
}

pub(crate) proof fn lemma_single_shots<F>(
    roster: Roster,
    platform: Platform,
    offer: Offer<F>,
    shot: Shot<F>,
)
    requires
        single(platform, roster.registered(platform), offer).contains(shot),
    ensures
        shot.platform == platform,
        offers(roster, shot, offer),
        sound(roster, shot),
{
    lemma_offer_sound(roster, shot, offer);
}

/// Every shot of an ordinary send goes to a registered platform and never tips
/// less than that platform asks for.
pub proof fn lemma_send_covers_minimum(
    roster: Roster,
    route: SendRoute,
    tip: Option<TipStrategy>,
    cu: Cu,
    shot: Shot<Cu>,
)
    requires
        dispatch_plan(roster, route, tip, cu).fires(shot),
    ensures
        sound(roster, shot),
{
    match route {
        SendRoute::Harmonic => {
            lemma_harmonic_shots(roster, tip, harmonic_cu(tip, cu), unpriced(cu), shot);
        },
        SendRoute::Jito => {
            lemma_lineup_shots(roster, JITO_LINEUP@, by_strategy(tip, unpriced(cu)), shot);
        },
        SendRoute::Fallback => {
            lemma_fallback_shots(
                roster,
                by_strategy(priced_tip(), cu),
                by_strategy(tip, unpriced(cu)),
                shot,
            );
        },
        SendRoute::TipOnly => {
            let offer = at_least(base_amount(tip, DEFAULT_TIP_FLOOR), tip_only_cu(cu));
            lemma_helius_first_shots(roster, offer, shot);
        },
    }
}

/// The same of a send under a single budget. Unless a Harmonic node leads, an
/// HTTP transport is not used where its QUIC counterpart is built in.
pub proof fn lemma_cost_covers_minimum(
    roster: Roster,
    route: SendRoute,
    config: CostConfig,
    shot: Shot<Cu>,
)
    requires
        cost_plan(roster, route, config).fires(shot),
    ensures
        sound(roster, shot),
        !(route is Harmonic) ==> !roster.superseded(shot.platform),
{
    let tip = Some(TipStrategy::Absolute(config.cost_amount));
    let plain: Cu = (Some(config.cu_limit), None);
    if route is Fallback {
        let price = positive(price_of(config.cost_amount, config.cu_limit));
        lemma_fallback_shots(
            roster,
            by_strategy(Some(TipStrategy::Ratio(config.tip_rate)), (Some(config.cu_limit), price)),
            by_strategy(tip, plain),
            shot,
        );
    } else {
        lemma_send_covers_minimum(roster, route, tip, plain, shot);
        if !(route is Harmonic) {
            lemma_quic_supersedes(roster, route, tip, plain, shot);
        }
    }
}

/// The same of a low-cost send, which uses the few platforms of its lineup only and
/// keeps the price of the caller.
pub proof fn lemma_cheap_covers_minimum(
    roster: Roster,
    tip: Option<TipStrategy>,
    cu: Cu,
    shot: Shot<Cu>,
)
    requires
        cheap_plan(roster, tip, cu).fires(shot),
    ensures
        sound(roster, shot),
        !roster.superseded(shot.platform),
        CHEAP_LINEUP@.contains(shot.platform),
        shot.fee == cu,
{
    lemma_lineup_shots(roster, CHEAP_LINEUP@, by_strategy(tip, cu), shot);
}

/// A tip-only send tips at least the floor and at least what the platform asks
/// for, and bids no price. Harmonic alone gets no tip, and the floor as a price.
pub proof fn lemma_tip_only_keeps_floor(
    roster: Roster,
    route: SendRoute,
    min_tip_floor: u64,
    cu_limit: u32,
    shot: Shot<Cu>,
)
    requires
        tip_only_plan(roster, route, min_tip_floor, cu_limit).fires(shot),
    ensures
        sound(roster, shot),
        !roster.superseded(shot.platform),
        !(shot.platform is Harmonic) ==> {
            &&& shot.tip == Some(
                larger(min_tip_floor, roster.registered(shot.platform)->0.min_tip),
            )
            &&& shot.fee == (Some(cu_limit), None::<u64>)
        },
        shot.platform is Harmonic ==> {
            &&& route is Harmonic
            &&& shot.tip is None
            &&& shot.fee == (Some(cu_limit), positive(price_of(min_tip_floor, cu_limit)))
        },
{
    let plain: Cu = (Some(cu_limit), None);
    let offer = at_least(min_tip_floor, plain);
    match route {
        SendRoute::Harmonic => {
            let own = by_strategy(
                None,
                (Some(cu_limit), positive(price_of(min_tip_floor, cu_limit))),
            );
            let first = single(Platform::Harmonic, roster.harmonic, own);
            if first.contains(shot) {
                lemma_single_shots(roster, Platform::Harmonic, own, shot);
            } else {
                lemma_broadcast_shots(roster, first, offer, shot);
            }
        },
        SendRoute::Jito => {
            lemma_lineup_shots(roster, JITO_LINEUP@, offer, shot);
        },
        _ => {
            lemma_broadcast_shots(roster, seq![], offer, shot);
        },
    }
}

/// Unless a Harmonic node leads, an HTTP transport is not used where its QUIC
/// counterpart is built in.
pub proof fn lemma_quic_supersedes(
    roster: Roster,
    route: SendRoute,
    tip: Option<TipStrategy>,
    cu: Cu,
    shot: Shot<Cu>,
)
    requires
        !(route is Harmonic),
        dispatch_plan(roster, route, tip, cu).fires(shot),
    ensures
        !roster.superseded(shot.platform),
{
    match route {
        SendRoute::Harmonic => {},
        SendRoute::Jito => {
            lemma_lineup_shots(roster, JITO_LINEUP@, by_strategy(tip, unpriced(cu)), shot);
        },
        SendRoute::Fallback => {
            lemma_fallback_shots(
                roster,
                by_strategy(priced_tip(), cu),
                by_strategy(tip, unpriced(cu)),
                shot,
            );
        },
        SendRoute::TipOnly => {
            let offer = at_least(base_amount(tip, DEFAULT_TIP_FLOOR), tip_only_cu(cu));
            lemma_helius_first_shots(roster, offer, shot);
        },
    }
}

/// Unless a Harmonic node leads, a provider is reached over one transport only.
pub proof fn lemma_one_transport_per_provider(
    roster: Roster,
    route: SendRoute,
    tip: Option<TipStrategy>,
    cu: Cu,
    shot: Shot<Cu>,
    other: Shot<Cu>,
)
    requires
        roster.wf(),
        !(route is Harmonic),
        dispatch_plan(roster, route, tip, cu).fires(shot),
        dispatch_plan(roster, route, tip, cu).fires(other),
    ensures
        !(shot.platform is AstralaneQuic && other.platform is Astralane),
        !(shot.platform is EverstakeQuic && other.platform is Everstake),
{
    lemma_send_covers_minimum(roster, route, tip, cu, shot);
    lemma_quic_supersedes(roster, route, tip, cu, other);
}

// ── What is bid by price ─────────────────────────────────────────────────────

/// While a Jito node leads, no shot bids a price.
pub proof fn lemma_jito_bids_no_price(
    roster: Roster,
    tip: Option<TipStrategy>,
    cu: Cu,
    shot: Shot<Cu>,
)
    requires
        dispatch_plan(roster, SendRoute::Jito, tip, cu).fires(shot),
    ensures
        shot.fee == (cu.0, None::<u64>),
        JITO_LINEUP@.contains(shot.platform),
{
    lemma_lineup_shots(roster, JITO_LINEUP@, by_strategy(tip, unpriced(cu)), shot);
}

/// While a Harmonic node leads, Harmonic alone bids a price and Harmonic alone
/// gets no tip. Its price is at least what the caller asked for, and at least
/// what the tip comes to.
pub proof fn lemma_harmonic_alone_bids_price(
    roster: Roster,
    tip: Option<TipStrategy>,
    cu: Cu,
    shot: Shot<Cu>,
)
    requires
        dispatch_plan(roster, SendRoute::Harmonic, tip, cu).fires(shot),
    ensures
        !(shot.platform is Harmonic) ==> shot.fee == (cu.0, None::<u64>),
        !(shot.platform is Harmonic) && tip is Some ==> shot.tip is Some,
        shot.platform is Harmonic ==> {
            &&& shot.tip is None
            &&& shot.fee == harmonic_cu(tip, cu)
            &&& cu.1 is Some && cu.1->0 > 0 ==> shot.fee.1 is Some && shot.fee.1->0 >= cu.1->0
            &&& cu.0 is Some && price_of(base_amount(tip, 0), cu.0->0) > 0 ==> shot.fee.1 is Some
                && shot.fee.1->0 >= price_of(base_amount(tip, 0), cu.0->0)
        },
{
    lemma_harmonic_reaches_all(roster, tip, harmonic_cu(tip, cu), unpriced(cu), shot);
}

/// In the fallback each shot either bids the caller's price with a small tip, or
/// the caller's tip without a price.
pub proof fn lemma_fallback_bids_either_way(
    roster: Roster,
    tip: Option<TipStrategy>,
    cu: Cu,
    shot: Shot<Cu>,
)
    requires
        dispatch_plan(roster, SendRoute::Fallback, tip, cu).fires(shot),
    ensures
        ({
            let min = roster.registered(shot.platform)->0.min_tip;
            ||| shot.fee == cu && shot.tip == explicit_tip(priced_tip(), min)
            ||| shot.fee == (cu.0, None::<u64>) && shot.tip == explicit_tip(tip, min)
        }),
{
    lemma_fallback_shots(
        roster,
        by_strategy(priced_tip(), cu),
        by_strategy(tip, unpriced(cu)),
        shot,
    );
}

/// A tip-only leader never costs more than the ceiling in priority fees: over the
/// whole compute-unit limit, the price comes to at most that many lamports.
pub proof fn lemma_tip_only_stays_under_ceiling(
    roster: Roster,
    tip: Option<TipStrategy>,
    cu: Cu,
    shot: Shot<Cu>,
)
    requires
        cu.0 != Some(0u32),
        dispatch_plan(roster, SendRoute::TipOnly, tip, cu).fires(shot),
    ensures
        shot.fee.0 is Some,
        shot.fee.1 is Some,
        shot.fee.1->0 * shot.fee.0->0 <= FEE_CEILING * MICRO,
{
    let offer = at_least(base_amount(tip, DEFAULT_TIP_FLOOR), tip_only_cu(cu));
    lemma_helius_first_shots(roster, offer, shot);
    let limit = tip_only_cu(cu).0->0;
    let ceiling = price_of(FEE_CEILING, limit);
    lemma_price_within_amount(FEE_CEILING, limit);
    assert(ceiling <= FEE_CEILING * MICRO) by (nonlinear_arith)
        requires
            ceiling * limit <= FEE_CEILING * MICRO,
            limit >= 1,
            ceiling >= 0,
    ;
    lemma_share_at_most(ceiling);
    let price = tip_only_cu(cu).1->0;
    assert(price * limit <= ceiling * limit) by (nonlinear_arith)
        requires
            price <= ceiling,
            limit >= 0,
    ;
}

/// The default share of a ceiling is not above the ceiling.
pub(crate) proof fn lemma_share_at_most(ceiling: u64)
    requires
        ceiling <= FEE_CEILING * MICRO,
    ensures
        of_bits(CEILING_SHARE).portion_of(ceiling) <= ceiling,
{
    let f = of_bits(CEILING_SHARE);
    assert(f.exponent() == 1022);
    assert(f.fraction() == 0x9_9999_9999_999A);
    lemma2_to64_rest();
    lemma_pow2_adds(53, 1021);
    let u = pow2(1021);
    assert(f.magnitude() == 0x19_9999_9999_999A * u);
    assert(ceiling * (0x19_9999_9999_999A * u) <= ceiling * (0x20_0000_0000_0000 * u))
        by (nonlinear_arith)
        requires
            ceiling >= 0,
            u >= 0,
    ;
    lemma_portion_at_most(f, ceiling, ceiling as nat);
}

/// Under a single budget no shot spends more than the budget on priority, and in
/// the fallback and on a Jito leader a shot without a price tips the budget.
/// Leaders that rank by tip alone have their own ceiling instead.
pub proof fn lemma_budget_is_kept(
    roster: Roster,
    route: SendRoute,
    config: CostConfig,
    shot: Shot<Cu>,
)
    requires
        !(route is TipOnly),
        cost_plan(roster, route, config).fires(shot),
    ensures
        shot.fee.0 == Some(config.cu_limit),
        shot.fee.1 matches Some(price) ==> price * config.cu_limit <= config.cost_amount * MICRO,
        shot.fee.1 is None && !(route is Harmonic) && price_of(config.cost_amount, config.cu_limit)
            > 0 ==> shot.tip is Some && shot.tip->0 >= config.cost_amount,
{
    let tip = Some(TipStrategy::Absolute(config.cost_amount));
    let plain: Cu = (Some(config.cu_limit), None);
    lemma_price_within_amount(config.cost_amount, config.cu_limit);
    match route {
        SendRoute::Harmonic => {
            lemma_harmonic_shots(roster, tip, harmonic_cu(tip, plain), plain, shot);
        },
        SendRoute::Jito => {
            lemma_lineup_shots(roster, JITO_LINEUP@, by_strategy(tip, plain), shot);
        },
        SendRoute::Fallback => {
            let price = positive(price_of(config.cost_amount, config.cu_limit));
            lemma_fallback_shots(
                roster,
                by_strategy(
                    Some(TipStrategy::Ratio(config.tip_rate)),
                    (Some(config.cu_limit), price),
                ),
                by_strategy(tip, plain),
                shot,
            );
        },
        SendRoute::TipOnly => {},
    }
}

// ── How often a platform is fired at ─────────────────────────────────────────

/// Whether no platform is fired at twice.
pub open spec fn each_once<F>(shots: Seq<Shot<F>>) -> bool {
    forall|i: int, j: int|
        0 <= i < j < shots.len() ==> (#[trigger] shots[i]).platform != (
        #[trigger] shots[j]).platform
}

proof fn lemma_concat_each_once<F>(a: Seq<Shot<F>>, b: Seq<Shot<F>>)
    requires
        each_once(a),
        each_once(b),
        forall|s: Shot<F>, t: Shot<F>| #[trigger]
            a.contains(s) && #[trigger] b.contains(t) ==> s.platform != t.platform,
    ensures
        each_once(a + b),
{
    let c = a + b;
    assert forall|i: int, j: int| 0 <= i < j < c.len() implies (#[trigger] c[i]).platform != (
    #[trigger] c[j]).platform by {
        if j < a.len() {
            assert(c[i] == a[i] && c[j] == a[j]);
        } else if i < a.len() {
            assert(c[i] == a[i] && c[j] == b[j - a.len()]);
            assert(a.contains(a[i]));
            assert(b.contains(b[j - a.len()]));
        } else {
            assert(c[i] == b[i - a.len()] && c[j] == b[j - a.len()]);
        }
    }
}

/// While a Harmonic node leads, each platform is fired at once.
pub proof fn lemma_harmonic_each_once<F>(
    roster: Roster,
    tip: Option<TipStrategy>,
    own: F,
    plain: F,
)
    ensures
        each_once(harmonic_plan(roster, tip, own, plain).shots()),
{
    let reduced = by_strategy(discounted(tip), plain);
    let full = by_strategy(tip, plain);
    let first = single(Platform::Harmonic, roster.harmonic, by_strategy(None, own));
    let second = once(roster, false, HARMONIC_DISCOUNTED@, reduced);
    let third = once(roster, false, HARMONIC_OTHERS@, full);
    lemma_once_distinct(roster, false, HARMONIC_DISCOUNTED@, reduced);
    lemma_once_distinct(roster, false, HARMONIC_OTHERS@, full);
    assert forall|s: Shot<F>| #[trigger] second.contains(s) implies s.platform is AstralaneQuic
        || s.platform is Temporal by {
        lemma_once_exact(roster, false, HARMONIC_DISCOUNTED@, reduced, s);
    }
    assert forall|t: Shot<F>| #[trigger] third.contains(t) implies !(t.platform is AstralaneQuic)
        && !(t.platform is Temporal) && !(t.platform is Harmonic) by {
        lemma_once_exact(roster, false, HARMONIC_OTHERS@, full, t);
    }
    lemma_concat_each_once(first, second);
    assert forall|s: Shot<F>| #[trigger] (first + second).contains(s) implies first.contains(s)
        || second.contains(s) by {
        lemma_contains_concat(first, second, s);
    }
    lemma_concat_each_once(first + second, third);
    let plan = harmonic_plan(roster, tip, own, plain);
    assert(plan.shots() =~= first + second + third);
}

/// While a Jito node leads, each platform is fired at at most once.
pub proof fn lemma_jito_each_once<F>(roster: Roster, offer: Offer<F>)
    ensures
        each_once(lineup_plan(roster, JITO_LINEUP@, offer).shots()),
{
    lemma_once_distinct(roster, true, JITO_LINEUP@, offer);
    let plan = lineup_plan(roster, JITO_LINEUP@, offer);
    assert(plan.shots() =~= plan.direct);
}

/// A low-cost send fires at each platform at most once.
pub proof fn lemma_cheap_each_once<F>(roster: Roster, offer: Offer<F>)
    ensures
        each_once(lineup_plan(roster, CHEAP_LINEUP@, offer).shots()),
{
    lemma_once_distinct(roster, true, CHEAP_LINEUP@, offer);
    let plan = lineup_plan(roster, CHEAP_LINEUP@, offer);
    assert(plan.shots() =~= plan.direct);
}

/// A leader that ranks by tip alone gets each platform's shot once, Helius Max's
/// among them.
pub proof fn lemma_tip_only_auto_each_once(roster: Roster, tip: Option<TipStrategy>, cu: Cu)
    ensures
        each_once(tip_only_auto_plan(roster, tip, cu).shots()),
{
    lemma_helius_first_each_once(
        roster,
        at_least(base_amount(tip, DEFAULT_TIP_FLOOR), tip_only_cu(cu)),
    );
}

pub(crate) proof fn lemma_helius_first_each_once<F>(roster: Roster, offer: Offer<F>)
    ensures
        each_once(helius_first_plan(roster, offer).shots()),
{
    let plan = helius_first_plan(roster, offer);
    lemma_once_distinct(roster, true, BROADCAST_OTHERS@, offer);
    assert forall|t: Shot<F>| #[trigger] plan.parallel.contains(t) implies !(
    t.platform is HeliusMax) by {
        lemma_once_exact(roster, true, BROADCAST_OTHERS@, offer, t);
    }
    lemma_concat_each_once(plan.direct, plan.parallel);
}

/// A tip-only send fires at each platform at most once.
pub proof fn lemma_tip_only_each_once(
    roster: Roster,
    route: SendRoute,
    min_tip_floor: u64,
    cu_limit: u32,
)
    ensures
        each_once(tip_only_plan(roster, route, min_tip_floor, cu_limit).shots()),
{
    let plain: Cu = (Some(cu_limit), None);
    let offer = at_least(min_tip_floor, plain);
    if route is Jito {
        lemma_jito_each_once(roster, offer);
    } else {
        let plan = tip_only_plan(roster, route, min_tip_floor, cu_limit);
        lemma_broadcast_each_once(roster, plan.direct, offer);
    }
}

/// A broadcast after at most one shot on Harmonic fires at each platform at most
/// once.
pub(crate) proof fn lemma_broadcast_each_once<F>(
    roster: Roster,
    first: Seq<Shot<F>>,
    offer: Offer<F>,
)
    requires
        first.len() <= 1,
        first.len() == 1 ==> first[0].platform is Harmonic,
    ensures
        each_once(broadcast_plan(roster, first, offer).shots()),
{
    let plan = broadcast_plan(roster, first, offer);
    lemma_once_distinct(roster, true, BROADCAST_LINEUP@, offer);
    assert forall|t: Shot<F>| #[trigger] plan.parallel.contains(t) implies !(
    t.platform is Harmonic) by {
        lemma_once_exact(roster, true, BROADCAST_LINEUP@, offer, t);
    }
    lemma_concat_each_once(plan.direct, plan.parallel);
}

/// The fallback fires at each platform at most twice: first at the priced fee,
/// and right after it at the plain one.
pub proof fn lemma_fallback_at_most_twice<F>(
    roster: Roster,
    priced: Offer<F>,
    plain: Offer<F>,
    i: int,
    j: int,
)
    requires
        0 <= i < j < fallback_plan(roster, priced, plain).shots().len(),
        fallback_plan(roster, priced, plain).shots()[i].platform == fallback_plan(
            roster,
            priced,
            plain,
        ).shots()[j].platform,
    ensures
        j == i + 1,
        fallback_plan(roster, priced, plain).shots()[i].fee == priced.fee,
        fallback_plan(roster, priced, plain).shots()[j].fee == plain.fee,
{
    lemma_two_rounds_distinct(roster, FALLBACK_LINEUP@, priced, plain);
    let plan = fallback_plan(roster, priced, plain);
    assert(plan.shots() =~= plan.direct);
}

// ── First come, first served ─────────────────────────────────────────────────

/// On a leader that works first come, first served, the bids of the caller make
/// no difference: whatever tip or price is asked for, the same transactions go
/// out.
pub proof fn lemma_first_come_ignores_bids(
    roster: Roster,
    route: SendRoute,
    tip: Option<TipStrategy>,
    other_tip: Option<TipStrategy>,
    cu: Cu,
    other_cu: Cu,
)
    requires
        cu.0 == other_cu.0,
    ensures
        send_plan(roster, route, true, tip, cu) == send_plan(
            roster,
            route,
            true,
            other_tip,
            other_cu,
        ),
{
}

/// On a leader that works first come, first served, a budget makes no difference
/// either: an ordinary send with the same compute-unit limit does the same.
pub proof fn lemma_first_come_ignores_budget(
    roster: Roster,
    route: SendRoute,
    config: CostConfig,
    tip: Option<TipStrategy>,
    price: Option<u64>,
)
    ensures
        send_cost_plan(roster, route, true, config) == send_plan(
            roster,
            route,
            true,
            tip,
            (Some(config.cu_limit), price),
        ),
{
}

/// On a leader that works first come, first served, nothing bids a price and no
/// tip is set, whatever the route: only the compute-unit limit is kept.
pub proof fn lemma_first_come_bids_no_price(
    roster: Roster,
    route: SendRoute,
    tip: Option<TipStrategy>,
    cu: Cu,
    shot: Shot<Cu>,
)
    requires
        send_plan(roster, route, true, tip, cu).fires(shot),
    ensures
        shot.fee == (cu.0, None::<u64>),
        shot.tip is None,
        roster.registered(shot.platform) is Some,
{
    let plain = unpriced(cu);
    let offer = by_strategy(None, plain);
    match route {
        SendRoute::Harmonic => {
            lemma_harmonic_reaches_all(roster, None, plain, plain, shot);
        },
        SendRoute::Jito => {
            lemma_lineup_shots(roster, JITO_LINEUP@, offer, shot);
        },
        SendRoute::Fallback => {
            lemma_fallback_shots(roster, offer, offer, shot);
        },
        SendRoute::TipOnly => {
            lemma_helius_first_shots(roster, offer, shot);
        },
    }
}

/// The same of a send under a single budget.
pub proof fn lemma_first_come_spends_no_budget(
    roster: Roster,
    route: SendRoute,
    config: CostConfig,
    shot: Shot<Cu>,
)
    requires
        send_cost_plan(roster, route, true, config).fires(shot),
    ensures
        shot.fee == (Some(config.cu_limit), None::<u64>),
        shot.tip is None,
        roster.registered(shot.platform) is Some,
{
    lemma_first_come_ignores_budget(roster, route, config, None, None);
    lemma_first_come_bids_no_price(roster, route, None, (Some(config.cu_limit), None), shot);
}

/// A leader that works first come, first served, on the tip-only list as well,
/// gets each platform's shot once.
pub proof fn lemma_first_come_tip_only_each_once(roster: Roster, cu_limit: Option<u32>)
    ensures
        each_once(first_come_plan(roster, SendRoute::TipOnly, cu_limit).shots()),
{
    let plain: Cu = (cu_limit, None);
    lemma_helius_first_each_once(roster, by_strategy(None, plain));
}

/// On a route that bids nothing of its own, a leader that works first come, first
/// served gets what a send without a tip and without a price gets.
pub proof fn lemma_first_come_is_a_send_without_bids(
    roster: Roster,
    route: SendRoute,
    cu_limit: Option<u32>,
)
    requires
        route is Harmonic || route is Jito,
    ensures
        first_come_plan(roster, route, cu_limit) == dispatch_plan(
            roster,
            route,
            None,
            (cu_limit, None),
        ),
{
    let limit = match cu_limit {
        Some(l) => l,
        None => DEFAULT_CU_LIMIT,
    };
    lemma_price_within_amount(0, limit);
    assert(price_of(0, limit) == 0) by (nonlinear_arith)
        requires
            price_of(0, limit) * limit <= 0 * MICRO,
            limit == 0 ==> price_of(0, limit) == 0,
            limit >= 0,
            price_of(0, limit) >= 0,
    ;
}

/// Whether a plan fires at a platform.
pub open spec fn hits<F>(plan: PlanView<F>, platform: Platform) -> bool {
    exists|shot: Shot<F>| #[trigger] plan.fires(shot) && shot.platform == platform
}

/// A leader that works first come, first served is reached over the platforms of
/// its route, no more and no fewer.
pub proof fn lemma_first_come_keeps_the_route(
    roster: Roster,
    route: SendRoute,
    tip: Option<TipStrategy>,
    cu: Cu,
    platform: Platform,
)
    ensures
        hits(send_plan(roster, route, true, tip, cu), platform) <==> hits(
            send_plan(roster, route, false, tip, cu),
            platform,
        ),
{
    let offer = by_strategy(None, unpriced(cu));
    match route {
        SendRoute::Harmonic => {
            lemma_harmonic_hits(roster, None, unpriced(cu), unpriced(cu), platform);
            lemma_harmonic_hits(roster, tip, harmonic_cu(tip, cu), unpriced(cu), platform);
        },
        SendRoute::Jito => {
            lemma_lineup_hits(roster, JITO_LINEUP@, offer, platform);
            lemma_lineup_hits(roster, JITO_LINEUP@, by_strategy(tip, unpriced(cu)), platform);
        },
        SendRoute::Fallback => {
            lemma_fallback_hits(roster, offer, offer, platform);
            lemma_fallback_hits(
                roster,
                by_strategy(priced_tip(), cu),
                by_strategy(tip, unpriced(cu)),
                platform,
            );
        },
        SendRoute::TipOnly => {
            lemma_helius_first_hits(roster, offer, platform);
            lemma_helius_first_hits(
                roster,
                at_least(base_amount(tip, DEFAULT_TIP_FLOOR), tip_only_cu(cu)),
                platform,
            );
        },
    }
}

proof fn lemma_harmonic_hits<F>(
    roster: Roster,
    tip: Option<TipStrategy>,
    own: F,
    plain: F,
    platform: Platform,
)
    ensures
        hits(harmonic_plan(roster, tip, own, plain), platform) <==> roster.registered(
            platform,
        ) is Some,
{
    let plan = harmonic_plan(roster, tip, own, plain);
    if roster.registered(platform) is Some {
        let shot = shot_at(
            platform,
            roster.registered(platform)->0,
            harmonic_offer(platform, tip, own, plain),
        );
        lemma_harmonic_reaches_all(roster, tip, own, plain, shot);
        assert(plan.fires(shot));
    }
    if hits(plan, platform) {
        let shot = choose|shot: Shot<F>| #[trigger] plan.fires(shot) && shot.platform == platform;
        lemma_harmonic_reaches_all(roster, tip, own, plain, shot);
    }
}

proof fn lemma_lineup_hits<F>(
    roster: Roster,
    lineup: Seq<Platform>,
    offer: Offer<F>,
    platform: Platform,
)
    ensures
        hits(lineup_plan(roster, lineup, offer), platform) <==> lineup.contains(platform)
            && roster.preferred(platform) is Some,
{
    let plan = lineup_plan(roster, lineup, offer);
    if lineup.contains(platform) && roster.preferred(platform) is Some {
        let shot = shot_at(platform, roster.preferred(platform)->0, offer);
        lemma_once_exact(roster, true, lineup, offer, shot);
        assert(plan.fires(shot));
    }
    if hits(plan, platform) {
        let shot = choose|shot: Shot<F>| #[trigger] plan.fires(shot) && shot.platform == platform;
        lemma_lineup_shots(roster, lineup, offer, shot);
    }
}

proof fn lemma_helius_first_hits<F>(roster: Roster, offer: Offer<F>, platform: Platform)
    ensures
        hits(helius_first_plan(roster, offer), platform) <==> BROADCAST_LINEUP@.contains(platform)
            && roster.preferred(platform) is Some,
{
    let plan = helius_first_plan(roster, offer);
    if BROADCAST_LINEUP@.contains(platform) && roster.preferred(platform) is Some {
        let shot = shot_at(platform, roster.preferred(platform)->0, offer);
        lemma_helius_first_exact(roster, offer, shot);
        assert(plan.fires(shot));
    }
    if hits(plan, platform) {
        let shot = choose|shot: Shot<F>| #[trigger] plan.fires(shot) && shot.platform == platform;
        lemma_helius_first_exact(roster, offer, shot);
    }
}

proof fn lemma_fallback_hits<F>(
    roster: Roster,
    priced: Offer<F>,
    plain: Offer<F>,
    platform: Platform,
)
    ensures
        hits(fallback_plan(roster, priced, plain), platform) <==> roster.preferred(
            platform,
        ) is Some && exists|i: int|
            0 <= i < FALLBACK_LINEUP@.len() && (#[trigger] FALLBACK_LINEUP@[i]).0 == platform,
{
    let plan = fallback_plan(roster, priced, plain);
    if roster.preferred(platform) is Some && exists|i: int|
        0 <= i < FALLBACK_LINEUP@.len() && (#[trigger] FALLBACK_LINEUP@[i]).0 == platform {
        let i = choose|i: int|
            0 <= i < FALLBACK_LINEUP@.len() && (#[trigger] FALLBACK_LINEUP@[i]).0 == platform;
        let offer = if FALLBACK_LINEUP@[i].1 is Plain {
            plain
        } else {
            priced
        };
        let shot = shot_at(platform, roster.preferred(platform)->0, offer);
        lemma_two_rounds_exact(roster, FALLBACK_LINEUP@, priced, plain, shot);
        assert(plan.fires(shot));
    }
    if hits(plan, platform) {
        let shot = choose|shot: Shot<F>| #[trigger] plan.fires(shot) && shot.platform == platform;
        lemma_two_rounds_exact(roster, FALLBACK_LINEUP@, priced, plain, shot);
    }
}

/// Without leader information every send is the fallback, on two queries alike.
pub proof fn lemma_no_information_means_fallback(
    d: TxDispacher<NoopOracle>,
    slot: u64,
    seen: Option<LeaderInfo>,
    again: Option<LeaderInfo>,
    tip: Option<TipStrategy>,
    cu: Cu,
)
    requires
        d.may_see(slot, seen),
        d.may_see(slot, again),
    ensures
        route_of(seen) is Fallback,
        !first_come(again),
        send_plan(d.roster, route_of(seen), first_come(again), tip, cu) == fallback_mode_plan(
            d.roster,
            tip,
            cu,
        ),
{
}

} // verus!
