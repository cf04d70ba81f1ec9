//! Whom a send reaches, and with what.
//!
//! These laws name no plan as a whole: each says which shots must be there.

use crate::binary64::of_bits;
use crate::bundle::MultiBundleSender;
use crate::dispatcher::TxDispacher;
use crate::fee::{Cu, V1TxConfig};
use crate::laws::{
    floored, lemma_bundle_sender, lemma_dispatch_tip_only, lemma_fallback_mode,
    lemma_tip_only_fallback, lemma_tip_only_harmonic, lemma_tip_only_jito, slightly_more,
};
use crate::laws_v1::{
    floored_v1, lemma_dispatch_tip_only_v1, lemma_fallback_mode_v1, lemma_tip_only_fallback_v1,
    lemma_tip_only_harmonic_v1, lemma_tip_only_jito_v1,
};
use crate::leader::{SendRoute, SlotOracle};
use crate::plan::{Plan, Shot};
use crate::platform::{Platform, Roster};
use crate::shares::{at, broadcast_share, fallback_share, reached, tip_floor_share};
use crate::strategy::{
    dispatch_tip_only, fallback_mode, tip_only_fallback, tip_only_harmonic, tip_only_jito,
};
use crate::strategy_v1::{
    dispatch_tip_only_v1, fallback_mode_v1, tip_only_fallback_v1, tip_only_harmonic_v1,
    tip_only_jito_v1,
};
use crate::tip::TipStrategy;
use vstd::prelude::*;

verus! {

/// Whether a list has a shot on a platform at this fee and at a tip that is the
/// greater of two amounts.
pub open spec fn fired<F>(
    shots: Seq<Shot<F>>,
    platform: Platform,
    one: u64,
    other: u64,
    fee: F,
) -> bool {
    exists|i: int|
        0 <= i < shots.len() && (#[trigger] shots[i]).platform == platform && shots[i].fee == fee
            && shots[i].tip == Some(
            if one < other {
                other
            } else {
                one
            },
        )
}

/// The same without a tip.
pub open spec fn fired_untipped<F>(shots: Seq<Shot<F>>, platform: Platform, fee: F) -> bool {
    exists|i: int|
        0 <= i < shots.len() && (#[trigger] shots[i]).platform == platform && shots[i].fee == fee
            && shots[i].tip is None
}

/// What stands on a platform stands in the list.
proof fn lemma_at_is_there<F>(shots: Seq<Shot<F>>, platform: Platform, k: int)
    requires
        0 <= k < at(shots, platform).len(),
    ensures
        exists|i: int|
            0 <= i < shots.len() && #[trigger] shots[i] == at(shots, platform)[k]
                && shots[i].platform == platform,
    decreases shots.len(),
{
    if shots.len() > 0 {
        let before = shots.drop_last();
        if k < at(before, platform).len() {
            lemma_at_is_there(before, platform, k);
            let i = choose|i: int|
                0 <= i < before.len() && #[trigger] before[i] == at(before, platform)[k]
                    && before[i].platform == platform;
            assert(shots[i] == at(shots, platform)[k]);
        } else {
            let i = shots.len() - 1;
            assert(shots[i] == at(shots, platform)[k]);
        }
    }
}

/// Whether every platform but Jito and Harmonic that can be reached has a shot at
/// the whole fee, tipped 1.05 times its minimum and no less than 1.02 times it.
pub open spec fn all_bid_by_price<F>(shots: Seq<Shot<F>>, roster: Roster, fee: F) -> bool {
    forall|p: Platform| #[trigger]
        reached(roster, p) is Some && p != Platform::Jito && p != Platform::Harmonic ==> fired(
            shots,
            p,
            of_bits(0x3FF0_CCCC_CCCC_CCCD).portion_of(reached(roster, p)->0.min_tip),
            of_bits(0x3FF0_51EB_851E_B852).portion_of(reached(roster, p)->0.min_tip),
            fee,
        )
}

/// Whether each of Astralane, FlashBlock, Temporal, ZeroSlot and Jito that can be
/// reached has a shot at the bare fee, tipped as the caller says and no less than
/// 1.02 times its minimum.
pub open spec fn all_bid_by_tip<F>(
    shots: Seq<Shot<F>>,
    roster: Roster,
    tip: Option<TipStrategy>,
    bare: F,
) -> bool {
    forall|p: Platform| #[trigger]
        reached(roster, p) is Some && (p == Platform::Astralane || p == Platform::AstralaneQuic || p
            == Platform::FlashBlock || p == Platform::Temporal || p == Platform::ZeroSlot || p
            == Platform::Jito) ==> match tip {
            None => fired_untipped(shots, p, bare),
            Some(TipStrategy::Absolute(n)) => fired(
                shots,
                p,
                n,
                of_bits(0x3FF0_51EB_851E_B852).portion_of(reached(roster, p)->0.min_tip),
                bare,
            ),
            Some(TipStrategy::Ratio(r)) => fired(
                shots,
                p,
                r.portion_of(reached(roster, p)->0.min_tip),
                of_bits(0x3FF0_51EB_851E_B852).portion_of(reached(roster, p)->0.min_tip),
                bare,
            ),
        }
}

/// In the fallback every platform that takes a price is bid the caller's limit and
/// price, and every platform that ranks by tip gets the caller's tip at no price.
/// Neither depends on the kind of tip.
pub proof fn lemma_fallback_bids_both(
    roster: Roster,
    tip: Option<TipStrategy>,
    cu: Cu,
    plan: Plan<Cu>,
)
    requires
        call_ensures(fallback_mode, (&roster, tip, cu), plan),
    ensures
        all_bid_by_price(plan@.direct, roster, cu),
        all_bid_by_tip(plan@.direct, roster, tip, (cu.0, None)),
{
    lemma_fallback_mode(roster, tip, cu, plan);
    lemma_both_bids(plan@.direct, roster, tip, cu, (cu.0, None));
}

/// The same for version 1, where the price is a priority fee.
pub proof fn lemma_fallback_bids_both_v1(
    roster: Roster,
    tip: Option<TipStrategy>,
    config: V1TxConfig,
    plan: Plan<V1TxConfig>,
)
    requires
        call_ensures(fallback_mode_v1, (&roster, tip, config), plan),
    ensures
        all_bid_by_price(plan@.direct, roster, config),
        all_bid_by_tip(
            plan@.direct,
            roster,
            tip,
            (V1TxConfig { priority_fee: None, ..config }),
        ),
{
    lemma_fallback_mode_v1(roster, tip, config, plan);
    lemma_both_bids(
        plan@.direct,
        roster,
        tip,
        config,
        V1TxConfig { priority_fee: None, ..config },
    );
}

proof fn lemma_both_bids<F>(
    shots: Seq<Shot<F>>,
    roster: Roster,
    tip: Option<TipStrategy>,
    fee: F,
    bare: F,
)
    requires
        forall|p: Platform| #[trigger]
            at(shots, p) == fallback_share(
                roster,
                slightly_more(),
                fee,
                tip,
                bare,
            )(p),
    ensures
        all_bid_by_price(shots, roster, fee),
        all_bid_by_tip(shots, roster, tip, bare),
{
    assert forall|p: Platform| #[trigger]
        reached(roster, p) is Some && p != Platform::Jito && p != Platform::Harmonic implies fired(
        shots,
        p,
        of_bits(0x3FF0_CCCC_CCCC_CCCD).portion_of(reached(roster, p)->0.min_tip),
        of_bits(0x3FF0_51EB_851E_B852).portion_of(reached(roster, p)->0.min_tip),
        fee,
    ) by {
        assert(at(shots, p).len() > 0);
        lemma_at_is_there(shots, p, 0);
    }
    assert forall|p: Platform| #[trigger]
        reached(roster, p) is Some && (p == Platform::Astralane || p == Platform::AstralaneQuic || p
            == Platform::FlashBlock || p == Platform::Temporal || p == Platform::ZeroSlot || p
            == Platform::Jito) implies match tip {
        None => fired_untipped(shots, p, bare),
        Some(TipStrategy::Absolute(n)) => fired(
            shots,
            p,
            n,
            of_bits(0x3FF0_51EB_851E_B852).portion_of(reached(roster, p)->0.min_tip),
            bare,
        ),
        Some(TipStrategy::Ratio(r)) => fired(
            shots,
            p,
            r.portion_of(reached(roster, p)->0.min_tip),
            of_bits(0x3FF0_51EB_851E_B852).portion_of(reached(roster, p)->0.min_tip),
            bare,
        ),
    } by {
        let last = at(shots, p).len() - 1;
        assert(last >= 0);
        lemma_at_is_there(shots, p, last);
    }
}

// ── Tip-only sends ───────────────────────────────────────────────────────────

/// Whether every platform but Jito and Harmonic that can be reached has a shot at
/// the bare fee, tipped the floor and no less than its minimum.
pub open spec fn all_at_floor<F>(shots: Seq<Shot<F>>, roster: Roster, floor: u64, bare: F) -> bool {
    forall|p: Platform| #[trigger]
        reached(roster, p) is Some && p != Platform::Jito && p != Platform::Harmonic ==> fired(
            shots,
            p,
            floor,
            reached(roster, p)->0.min_tip,
            bare,
        )
}

/// Whether each of Astralane, FlashBlock, Temporal, ZeroSlot and Jito that can be
/// reached has one.
pub open spec fn tip_rankers_at_floor<F>(
    shots: Seq<Shot<F>>,
    roster: Roster,
    floor: u64,
    bare: F,
) -> bool {
    forall|p: Platform| #[trigger]
        reached(roster, p) is Some && (p == Platform::Astralane || p == Platform::AstralaneQuic || p
            == Platform::FlashBlock || p == Platform::Temporal || p == Platform::ZeroSlot || p
            == Platform::Jito) ==> fired(shots, p, floor, reached(roster, p)->0.min_tip, bare)
}

/// Whether Harmonic has exactly one shot of a list, untipped, where it has a
/// client, and nothing else is in the list.
pub open spec fn harmonic_alone<F>(shots: Seq<Shot<F>>, roster: Roster) -> bool {
    &&& shots.len() == if roster.harmonic is Some {
        1int
    } else {
        0
    }
    &&& shots.len() == 1 ==> shots[0].platform == Platform::Harmonic && shots[0].tip is None
}

/// Whether a tip-only send leaves no platform out: on a Jito leader those that
/// rank by tip, else all but Jito and Harmonic, whether or not Harmonic has a
/// client; on a Harmonic leader Harmonic first.
pub open spec fn none_left_out<F>(
    plan: Plan<F>,
    roster: Roster,
    route: SendRoute,
    floor: u64,
    bare: F,
) -> bool {
    &&& route is Jito ==> tip_rankers_at_floor(plan@.direct, roster, floor, bare)
    &&& !(route is Jito) ==> all_at_floor(plan@.parallel, roster, floor, bare)
    &&& route is Harmonic ==> harmonic_alone(plan@.direct, roster)
}

proof fn lemma_all_at_floor<F>(shots: Seq<Shot<F>>, roster: Roster, floor: u64, bare: F)
    requires
        forall|p: Platform| #[trigger]
            at(shots, p) == broadcast_share(roster, floor, bare)(p),
    ensures
        all_at_floor(shots, roster, floor, bare),
{
    assert forall|p: Platform| #[trigger]
        reached(roster, p) is Some && p != Platform::Jito && p != Platform::Harmonic implies fired(
        shots,
        p,
        floor,
        reached(roster, p)->0.min_tip,
        bare,
    ) by {
        assert(at(shots, p).len() > 0);
        lemma_at_is_there(shots, p, 0);
    }
}

proof fn lemma_tip_rankers_at_floor<F>(shots: Seq<Shot<F>>, roster: Roster, floor: u64, bare: F)
    requires
        forall|p: Platform| #[trigger]
            at(shots, p) == tip_floor_share(roster, floor, bare)(p),
    ensures
        tip_rankers_at_floor(shots, roster, floor, bare),
{
    assert forall|p: Platform| #[trigger]
        reached(roster, p) is Some && (p == Platform::Astralane || p == Platform::AstralaneQuic || p
            == Platform::FlashBlock || p == Platform::Temporal || p == Platform::ZeroSlot || p
            == Platform::Jito) implies fired(
        shots,
        p,
        floor,
        reached(roster, p)->0.min_tip,
        bare,
    ) by {
        assert(at(shots, p).len() > 0);
        lemma_at_is_there(shots, p, 0);
    }
}

/// A tip-only send leaves no platform out.
pub proof fn lemma_tip_only_reaches_all(
    roster: Roster,
    route: SendRoute,
    floor: u64,
    cu_limit: u32,
    plan: Plan<Cu>,
)
    requires
        call_ensures(dispatch_tip_only, (&roster, route, floor, cu_limit), plan),
    ensures
        none_left_out(plan, roster, route, floor, (Some(cu_limit), None)),
{
    lemma_dispatch_tip_only(roster, route, floor, cu_limit, plan);
    lemma_none_left_out(plan, roster, route, floor, cu_limit);
}

/// Nor does the function of any one route.
pub proof fn lemma_tip_only_routes_reach_all(
    roster: Roster,
    floor: u64,
    cu_limit: u32,
    harmonic: Plan<Cu>,
    jito: Plan<Cu>,
    fallback: Plan<Cu>,
)
    requires
        call_ensures(tip_only_harmonic, (&roster, floor, cu_limit), harmonic),
        call_ensures(tip_only_jito, (&roster, floor, cu_limit), jito),
        call_ensures(tip_only_fallback, (&roster, floor, cu_limit), fallback),
    ensures
        none_left_out(harmonic, roster, SendRoute::Harmonic, floor, (Some(cu_limit), None)),
        none_left_out(jito, roster, SendRoute::Jito, floor, (Some(cu_limit), None)),
        none_left_out(fallback, roster, SendRoute::Fallback, floor, (Some(cu_limit), None)),
{
    lemma_tip_only_harmonic(roster, floor, cu_limit, harmonic);
    lemma_tip_only_jito(roster, floor, cu_limit, jito);
    lemma_tip_only_fallback(roster, floor, cu_limit, fallback);
    lemma_none_left_out(harmonic, roster, SendRoute::Harmonic, floor, cu_limit);
    lemma_none_left_out(jito, roster, SendRoute::Jito, floor, cu_limit);
    lemma_none_left_out(fallback, roster, SendRoute::Fallback, floor, cu_limit);
}

proof fn lemma_none_left_out(
    plan: Plan<Cu>,
    roster: Roster,
    route: SendRoute,
    floor: u64,
    cu_limit: u32,
)
    requires
        floored(plan@, roster, route, floor, cu_limit),
    ensures
        none_left_out(plan, roster, route, floor, (Some(cu_limit), None)),
{
    let bare: Cu = (Some(cu_limit), None);
    if route is Jito {
        lemma_tip_rankers_at_floor(plan@.direct, roster, floor, bare);
    } else {
        lemma_all_at_floor(plan@.parallel, roster, floor, bare);
    }
}

/// The same for version 1.
pub proof fn lemma_tip_only_reaches_all_v1(
    roster: Roster,
    route: SendRoute,
    floor: u64,
    config: V1TxConfig,
    plan: Plan<V1TxConfig>,
)
    requires
        call_ensures(dispatch_tip_only_v1, (&roster, route, floor, config), plan),
    ensures
        none_left_out(plan, roster, route, floor, (V1TxConfig { priority_fee: None, ..config })),
{
    lemma_dispatch_tip_only_v1(roster, route, floor, config, plan);
    lemma_none_left_out_v1(plan, roster, route, floor, config);
}

/// The same for version 1, route by route.
pub proof fn lemma_tip_only_routes_reach_all_v1(
    roster: Roster,
    floor: u64,
    config: V1TxConfig,
    harmonic: Plan<V1TxConfig>,
    jito: Plan<V1TxConfig>,
    fallback: Plan<V1TxConfig>,
)
    requires
        call_ensures(tip_only_harmonic_v1, (&roster, floor, config), harmonic),
        call_ensures(tip_only_jito_v1, (&roster, floor, config), jito),
        call_ensures(tip_only_fallback_v1, (&roster, floor, config), fallback),
    ensures
        none_left_out(
            harmonic,
            roster,
            SendRoute::Harmonic,
            floor,
            (V1TxConfig { priority_fee: None, ..config }),
        ),
        none_left_out(
            jito,
            roster,
            SendRoute::Jito,
            floor,
            (V1TxConfig { priority_fee: None, ..config }),
        ),
        none_left_out(
            fallback,
            roster,
            SendRoute::Fallback,
            floor,
            (V1TxConfig { priority_fee: None, ..config }),
        ),
{
    lemma_tip_only_harmonic_v1(roster, floor, config, harmonic);
    lemma_tip_only_jito_v1(roster, floor, config, jito);
    lemma_tip_only_fallback_v1(roster, floor, config, fallback);
    lemma_none_left_out_v1(harmonic, roster, SendRoute::Harmonic, floor, config);
    lemma_none_left_out_v1(jito, roster, SendRoute::Jito, floor, config);
    lemma_none_left_out_v1(fallback, roster, SendRoute::Fallback, floor, config);
}

proof fn lemma_none_left_out_v1(
    plan: Plan<V1TxConfig>,
    roster: Roster,
    route: SendRoute,
    floor: u64,
    config: V1TxConfig,
)
    requires
        floored_v1(plan@, roster, route, floor, config),
    ensures
        none_left_out(plan, roster, route, floor, (V1TxConfig { priority_fee: None, ..config })),
{
    let bare = V1TxConfig { priority_fee: None, ..config };
    if route is Jito {
        lemma_tip_rankers_at_floor(plan@.direct, roster, floor, bare);
    } else {
        lemma_all_at_floor(plan@.parallel, roster, floor, bare);
    }
}

// ── Bundles ──────────────────────────────────────────────────────────────────

/// Which of the bundle platforms have a client, as a number.
pub open spec fn one_if(has: bool) -> int {
    if has {
        1
    } else {
        0
    }
}

/// A bundle is started once on each of Jito, Astralane, FlashBlock and Helius Max
/// that has a client, at the place that the number of those before it gives, and
/// on no other. Which QUIC transports are built in makes no difference.
pub proof fn lemma_bundles_where_registered<O: SlotOracle, B, F: Fn(Platform) -> B>(
    d: TxDispacher<O>,
    start: F,
    sender: MultiBundleSender<B>,
)
    requires
        call_ensures(TxDispacher::<O>::bundle_sender::<B, F>, (&d, start), sender),
    ensures
        sender.builders@.len() == one_if(d.roster.jito is Some) + one_if(
            d.roster.astralane is Some,
        ) + one_if(d.roster.flash_block is Some) + one_if(d.roster.helius_max is Some),
        d.roster.jito is Some ==> call_ensures(start, (Platform::Jito,), sender.builders@[0]),
        d.roster.astralane is Some ==> call_ensures(
            start,
            (Platform::Astralane,),
            sender.builders@[one_if(d.roster.jito is Some)],
        ),
        d.roster.flash_block is Some ==> call_ensures(
            start,
            (Platform::FlashBlock,),
            sender.builders@[one_if(d.roster.jito is Some) + one_if(d.roster.astralane is Some)],
        ),
        d.roster.helius_max is Some ==> call_ensures(
            start,
            (Platform::HeliusMax,),
            sender.builders@.last(),
        ),
{
    lemma_bundle_sender(d, start, sender);
}

} // verus!
