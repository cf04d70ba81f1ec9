//! What each platform gets out of a plan, and in which order the platforms come.
//!
//! The laws here take a plan apart platform by platform and say what it must
//! hold, in terms of the registered clients, the tip and the fee alone.

use crate::binary64::of_bits;
use crate::plan::{
    in_use, lemma_once_exact, once, once_line, single, two_round_line, volley, Offer, PlanView,
    Round, Shot,
};
use crate::platform::{Client, Platform, Roster};
use crate::strategy::{
    at_least, broadcast_plan, by_strategy, discounted, fallback_plan, harmonic_plan,
    helius_first_plan, lineup_plan, BROADCAST_LINEUP, BROADCAST_OTHERS, CHEAP_LINEUP,
    FALLBACK_LINEUP, HARMONIC_DISCOUNTED, HARMONIC_OTHERS, JITO_LINEUP,
};
use crate::tip::TipStrategy;
use vstd::prelude::*;

verus! {

// ── Shots on one platform, and the order of platforms ────────────────────────

/// The shots of a list that go to a platform, in their order.
pub open spec fn at<F>(shots: Seq<Shot<F>>, platform: Platform) -> Seq<Shot<F>>
    decreases shots.len(),
{
    if shots.len() == 0 {
        seq![]
    } else {
        let head = at(shots.drop_last(), platform);
        if shots.last().platform == platform {
            head.push(shots.last())
        } else {
            head
        }
    }
}

/// Whether the platforms of a list come in the order of their places.
pub open spec fn ordered<F>(shots: Seq<Shot<F>>, place: spec_fn(Platform) -> int) -> bool {
    forall|i: int, j: int|
        0 <= i < j < shots.len() ==> place((#[trigger] shots[i]).platform) <= place(
            (#[trigger] shots[j]).platform,
        )
}

/// Whether each platform gets its share of a list, in the order of their places.
pub open spec fn shared_out<F>(
    shots: Seq<Shot<F>>,
    share: spec_fn(Platform) -> Seq<Shot<F>>,
    place: spec_fn(Platform) -> int,
) -> bool {
    &&& forall|p: Platform| #[trigger] at(shots, p) == share(p)
    &&& ordered(shots, place)
}

/// Whether a plan fires nothing side by side, and one after the other what the
/// platforms' shares say.
pub open spec fn in_turn<F>(
    plan: PlanView<F>,
    share: spec_fn(Platform) -> Seq<Shot<F>>,
    place: spec_fn(Platform) -> int,
) -> bool {
    shared_out(plan.direct, share, place) && plan.parallel.len() == 0
}

/// Whether a plan fires one platform's shots first, and side by side what the
/// platforms' shares say.
pub open spec fn at_once<F>(
    plan: PlanView<F>,
    first: Seq<Shot<F>>,
    share: spec_fn(Platform) -> Seq<Shot<F>>,
) -> bool {
    plan.direct == first && shared_out(plan.parallel, share, |p: Platform| broadcast_place(p))
}

// ── Clients, tips and places ─────────────────────────────────────────────────

/// The client that was registered for a platform.
pub open spec fn owned(roster: Roster, platform: Platform) -> Option<Client> {
    match platform {
        Platform::Jito => roster.jito,
        Platform::Harmonic => roster.harmonic,
        Platform::Stellium => roster.stellium,
        Platform::NextBlock => roster.nextblock,
        Platform::ZeroSlot => roster.zeroslot,
        Platform::HeliusMax => roster.helius_max,
        Platform::HeliusSwqos => roster.helius_swqos,
        Platform::Temporal => roster.temporal,
        Platform::Blockrazor => roster.blockrazor,
        Platform::NodeOne => roster.nodeone,
        Platform::FlashBlock => roster.flash_block,
        Platform::Everstake => roster.everstake,
        Platform::EverstakeQuic => roster.everstake_quic,
        Platform::Astralane => roster.astralane,
        Platform::AstralaneQuic => roster.astralane_quic,
    }
}

/// The same, where an HTTP transport yields to a QUIC transport that is built in.
pub open spec fn reached(roster: Roster, platform: Platform) -> Option<Client> {
    if platform is Astralane && roster.quic.astralane_quic {
        None
    } else if platform is Everstake && roster.quic.everstake_quic {
        None
    } else {
        owned(roster, platform)
    }
}

/// What a strategy comes to on a minimum.
pub open spec fn bid(strategy: TipStrategy, minimum: u64) -> u64 {
    match strategy {
        TipStrategy::Absolute(n) => n,
        TipStrategy::Ratio(r) => r.portion_of(minimum),
    }
}

/// The tip of a strategy: its bid, but never less than 1.02 times the minimum.
/// Without a strategy the platform's default applies.
pub open spec fn asked(strategy: Option<TipStrategy>, minimum: u64) -> Option<u64> {
    match strategy {
        None => None,
        Some(s) => if bid(s, minimum) < of_bits(0x3FF0_51EB_851E_B852).portion_of(minimum) {
            Some(of_bits(0x3FF0_51EB_851E_B852).portion_of(minimum))
        } else {
            Some(bid(s, minimum))
        },
    }
}

/// A strategy at 0.9 of its height.
pub open spec fn at_ninety(strategy: Option<TipStrategy>) -> Option<TipStrategy> {
    match strategy {
        None => None,
        Some(TipStrategy::Absolute(n)) => Some(
            TipStrategy::Absolute(of_bits(0x3FEC_CCCC_CCCC_CCCD).portion_of(n)),
        ),
        Some(TipStrategy::Ratio(r)) => Some(
            TipStrategy::Ratio(r.product(of_bits(0x3FEC_CCCC_CCCC_CCCD))),
        ),
    }
}

/// A tip of at least the floor and at least the minimum.
pub open spec fn no_less(floor: u64, minimum: u64) -> Option<u64> {
    if floor < minimum {
        Some(minimum)
    } else {
        Some(floor)
    }
}

/// One shot through a client, where there is one.
pub open spec fn shot_by_strategy<F>(
    platform: Platform,
    client: Option<Client>,
    strategy: Option<TipStrategy>,
    fee: F,
) -> Seq<Shot<F>> {
    match client {
        None => seq![],
        Some(c) => seq![Shot { platform, tip: asked(strategy, c.min_tip), fee }],
    }
}

/// One shot at a tip of at least the floor, where there is a client.
pub open spec fn shot_at_floor<F>(
    platform: Platform,
    client: Option<Client>,
    floor: u64,
    fee: F,
) -> Seq<Shot<F>> {
    match client {
        None => seq![],
        Some(c) => seq![Shot { platform, tip: no_less(floor, c.min_tip), fee }],
    }
}

/// Whether a platform bids by price in the fallback: all but Jito and Harmonic.
pub open spec fn takes_price(platform: Platform) -> bool {
    !(platform is Jito) && !(platform is Harmonic)
}

/// Whether a platform ranks by tip.
pub open spec fn takes_tip(platform: Platform) -> bool {
    ||| platform is AstralaneQuic
    ||| platform is Astralane
    ||| platform is FlashBlock
    ||| platform is Temporal
    ||| platform is ZeroSlot
    ||| platform is Jito
}

/// Whether a platform is one of the few of a low-cost send.
pub open spec fn is_cheap(platform: Platform) -> bool {
    ||| platform is EverstakeQuic
    ||| platform is Everstake
    ||| platform is AstralaneQuic
    ||| platform is Astralane
    ||| platform is FlashBlock
    ||| platform is Jito
}

/// The places of the platforms in the fallback, in a low-cost send and on a Jito
/// leader. A provider's two transports come one after the other.
pub open spec fn usual_place(platform: Platform) -> int {
    match platform {
        Platform::EverstakeQuic => 0,
        Platform::Everstake => 1,
        Platform::AstralaneQuic => 2,
        Platform::Astralane => 3,
        Platform::FlashBlock => 4,
        Platform::NodeOne => 5,
        Platform::Blockrazor => 6,
        Platform::Temporal => 7,
        Platform::HeliusMax => 8,
        Platform::HeliusSwqos => 9,
        Platform::ZeroSlot => 10,
        Platform::NextBlock => 11,
        Platform::Stellium => 12,
        Platform::Jito => 13,
        Platform::Harmonic => 14,
    }
}

/// The places of the platforms on a Harmonic leader: Harmonic, the two with a
/// reduced tip, and the others.
pub open spec fn harmonic_place(platform: Platform) -> int {
    match platform {
        Platform::Harmonic => 0,
        Platform::AstralaneQuic => 1,
        Platform::Temporal => 2,
        Platform::EverstakeQuic => 3,
        Platform::Everstake => 4,
        Platform::FlashBlock => 5,
        Platform::Astralane => 6,
        Platform::NodeOne => 7,
        Platform::Blockrazor => 8,
        Platform::HeliusMax => 9,
        Platform::HeliusSwqos => 10,
        Platform::ZeroSlot => 11,
        Platform::NextBlock => 12,
        Platform::Stellium => 13,
        Platform::Jito => 14,
    }
}

/// The places of the platforms in a broadcast.
pub open spec fn broadcast_place(platform: Platform) -> int {
    match platform {
        Platform::EverstakeQuic => 0,
        Platform::Everstake => 1,
        Platform::AstralaneQuic => 2,
        Platform::Astralane => 3,
        Platform::FlashBlock => 4,
        Platform::Temporal => 5,
        Platform::ZeroSlot => 6,
        Platform::NodeOne => 7,
        Platform::Blockrazor => 8,
        Platform::HeliusMax => 9,
        Platform::HeliusSwqos => 10,
        Platform::NextBlock => 11,
        Platform::Stellium => 12,
        Platform::Jito => 13,
        Platform::Harmonic => 14,
    }
}

// ── The shares ───────────────────────────────────────────────────────────────

/// A platform's share on a Harmonic leader: Harmonic at its own fee and untipped,
/// Astralane over QUIC and Temporal at 0.9 of the tip, the others at the tip.
pub open spec fn harmonic_share<F>(
    roster: Roster,
    tip: Option<TipStrategy>,
    own: F,
    plain: F,
) -> spec_fn(Platform) -> Seq<Shot<F>> {
    |p: Platform|
        if p is Harmonic {
            shot_by_strategy(p, owned(roster, p), None, own)
        } else if p is AstralaneQuic || p is Temporal {
            shot_by_strategy(p, owned(roster, p), at_ninety(tip), plain)
        } else {
            shot_by_strategy(p, owned(roster, p), tip, plain)
        }
}

/// A platform's share in the fallback: a priced shot where it takes a price, and
/// behind it a plain shot where it ranks by tip.
pub open spec fn fallback_share<F>(
    roster: Roster,
    priced_tip: Option<TipStrategy>,
    priced: F,
    tip: Option<TipStrategy>,
    plain: F,
) -> spec_fn(Platform) -> Seq<Shot<F>> {
    |p: Platform|
        {
            let by_price = if takes_price(p) {
                shot_by_strategy(p, reached(roster, p), priced_tip, priced)
            } else {
                seq![]
            };
            let by_tip = if takes_tip(p) {
                shot_by_strategy(p, reached(roster, p), tip, plain)
            } else {
                seq![]
            };
            by_price + by_tip
        }
}

/// A platform's share where those that rank by tip get a tip by strategy.
pub open spec fn tip_share<F>(
    roster: Roster,
    tip: Option<TipStrategy>,
    fee: F,
) -> spec_fn(Platform) -> Seq<Shot<F>> {
    |p: Platform|
        if takes_tip(p) {
            shot_by_strategy(p, reached(roster, p), tip, fee)
        } else {
            seq![]
        }
}

/// A platform's share where those that rank by tip get at least a floor.
pub open spec fn tip_floor_share<F>(
    roster: Roster,
    floor: u64,
    fee: F,
) -> spec_fn(Platform) -> Seq<Shot<F>> {
    |p: Platform|
        if takes_tip(p) {
            shot_at_floor(p, reached(roster, p), floor, fee)
        } else {
            seq![]
        }
}

/// A platform's share in a low-cost send.
pub open spec fn cheap_share<F>(
    roster: Roster,
    tip: Option<TipStrategy>,
    fee: F,
) -> spec_fn(Platform) -> Seq<Shot<F>> {
    |p: Platform|
        if is_cheap(p) {
            shot_by_strategy(p, reached(roster, p), tip, fee)
        } else {
            seq![]
        }
}

/// A platform's share in a broadcast at a floor: every platform but Jito and
/// Harmonic takes part.
pub open spec fn broadcast_share<F>(
    roster: Roster,
    floor: u64,
    fee: F,
) -> spec_fn(Platform) -> Seq<Shot<F>> {
    |p: Platform|
        if p is Jito || p is Harmonic {
            seq![]
        } else {
            shot_at_floor(p, reached(roster, p), floor, fee)
        }
}

/// The same without Helius Max, which has had its shot.
pub open spec fn broadcast_rest_share<F>(
    roster: Roster,
    floor: u64,
    fee: F,
) -> spec_fn(Platform) -> Seq<Shot<F>> {
    |p: Platform|
        if p is Jito || p is Harmonic || p is HeliusMax {
            seq![]
        } else {
            shot_at_floor(p, reached(roster, p), floor, fee)
        }
}

/// The same where no tip is set.
pub open spec fn untipped_rest_share<F>(
    roster: Roster,
    fee: F,
) -> spec_fn(Platform) -> Seq<Shot<F>> {
    |p: Platform|
        if p is Jito || p is Harmonic || p is HeliusMax {
            seq![]
        } else {
            shot_by_strategy(p, reached(roster, p), None, fee)
        }
}

// ── Shares of volleys ────────────────────────────────────────────────────────

proof fn lemma_at_concat<F>(a: Seq<Shot<F>>, b: Seq<Shot<F>>, platform: Platform)
    ensures
        at(a + b, platform) == at(a, platform) + at(b, platform),
    decreases b.len(),
{
    if b.len() == 0 {
        assert(a + b =~= a);
        assert(at(a, platform) + at(b, platform) =~= at(a, platform));
    } else {
        lemma_at_concat(a, b.drop_last(), platform);
        assert((a + b).drop_last() =~= a + b.drop_last());
        assert((a + b).last() == b.last());
        assert(at(a + b, platform) =~= at(a, platform) + at(b, platform));
    }
}

/// Whether all the shots of a list go to one platform.
spec fn all_on<F>(shots: Seq<Shot<F>>, platform: Platform) -> bool {
    forall|i: int| 0 <= i < shots.len() ==> (#[trigger] shots[i]).platform == platform
}

proof fn lemma_at_all_on<F>(shots: Seq<Shot<F>>, owner: Platform, platform: Platform)
    requires
        all_on(shots, owner),
    ensures
        owner == platform ==> at(shots, platform) == shots,
        owner != platform ==> at(shots, platform) == Seq::<Shot<F>>::empty(),
    decreases shots.len(),
{
    if shots.len() > 0 {
        let head = shots.drop_last();
        assert forall|i: int| 0 <= i < head.len() implies (#[trigger] head[i]).platform
            == owner by {
            assert(head[i] == shots[i]);
        }
        lemma_at_all_on(head, owner, platform);
        assert(shots.last() == shots[shots.len() - 1]);
        assert(head.push(shots.last()) =~= shots);
    } else {
        assert(shots =~= seq![]);
    }
}

/// Whether each line of a lineup fires at its own platform, no two at the same.
spec fn lines_apart<L, F>(
    lineup: Seq<L>,
    line: spec_fn(L) -> Seq<Shot<F>>,
    key: spec_fn(L) -> Platform,
) -> bool {
    &&& forall|i: int|
        0 <= i < lineup.len() ==> all_on(line(#[trigger] lineup[i]), key(lineup[i]))
    &&& forall|i: int, j: int|
        0 <= i < j < lineup.len() ==> key(#[trigger] lineup[i]) != key(#[trigger] lineup[j])
}

proof fn lemma_volley_share<L, F>(
    lineup: Seq<L>,
    line: spec_fn(L) -> Seq<Shot<F>>,
    key: spec_fn(L) -> Platform,
    platform: Platform,
)
    requires
        lines_apart(lineup, line, key),
    ensures
        forall|i: int|
            0 <= i < lineup.len() && key(#[trigger] lineup[i]) == platform ==> at(
                volley(lineup, line),
                platform,
            ) == line(lineup[i]),
        (forall|i: int| 0 <= i < lineup.len() ==> key(#[trigger] lineup[i]) != platform) ==> at(
            volley(lineup, line),
            platform,
        ) == Seq::<Shot<F>>::empty(),
    decreases lineup.len(),
{
    if lineup.len() > 0 {
        let shorter = lineup.drop_last();
        let n = lineup.len() - 1;
        assert forall|i: int| 0 <= i < shorter.len() implies #[trigger] shorter[i]
            == lineup[i] by {}
        assert(lines_apart(shorter, line, key)) by {
            assert forall|i: int| 0 <= i < shorter.len() implies all_on(
                line(#[trigger] shorter[i]),
                key(shorter[i]),
            ) by {
                assert(all_on(line(lineup[i]), key(lineup[i])));
            }
        }
        lemma_volley_share(shorter, line, key, platform);
        let head = volley(shorter, line);
        let tail = line(lineup[n]);
        assert(volley(lineup, line) == head + tail);
        lemma_at_concat(head, tail, platform);
        lemma_at_all_on(tail, key(lineup[n]), platform);
        if key(lineup[n]) == platform {
            assert forall|i: int| 0 <= i < shorter.len() implies key(#[trigger] shorter[i])
                != platform by {
                assert(key(lineup[i]) != key(lineup[n]));
            }
            assert(at(head, platform) + at(tail, platform) =~= tail);
        } else {
            assert(at(head, platform) + at(tail, platform) =~= at(head, platform));
            assert forall|i: int|
                0 <= i < lineup.len() && key(#[trigger] lineup[i]) == platform implies at(
                volley(lineup, line),
                platform,
            ) == line(lineup[i]) by {
                assert(i < n);
                assert(shorter[i] == lineup[i]);
            }
            if forall|i: int| 0 <= i < lineup.len() ==> key(#[trigger] lineup[i]) != platform {
                assert forall|i: int| 0 <= i < shorter.len() implies key(#[trigger] shorter[i])
                    != platform by {
                    assert(key(lineup[i]) != platform);
                }
            }
        }
    }
}

/// Whether the lines of a lineup come in the order of their places.
spec fn lines_ordered<L>(
    lineup: Seq<L>,
    key: spec_fn(L) -> Platform,
    place: spec_fn(Platform) -> int,
) -> bool {
    forall|i: int, j: int|
        0 <= i < j < lineup.len() ==> place(key(#[trigger] lineup[i])) < place(
            key(#[trigger] lineup[j]),
        )
}

proof fn lemma_volley_ordered<L, F>(
    lineup: Seq<L>,
    line: spec_fn(L) -> Seq<Shot<F>>,
    key: spec_fn(L) -> Platform,
    place: spec_fn(Platform) -> int,
)
    requires
        lines_apart(lineup, line, key),
        lines_ordered(lineup, key, place),
    ensures
        ordered(volley(lineup, line), place),
        lineup.len() > 0 ==> forall|i: int|
            0 <= i < volley(lineup, line).len() ==> place(
                (#[trigger] volley(lineup, line)[i]).platform,
            ) <= place(key(lineup.last())),
    decreases lineup.len(),
{
    if lineup.len() > 0 {
        let shorter = lineup.drop_last();
        let n = lineup.len() - 1;
        assert forall|i: int| 0 <= i < shorter.len() implies #[trigger] shorter[i]
            == lineup[i] by {}
        assert(lines_apart(shorter, line, key)) by {
            assert forall|i: int| 0 <= i < shorter.len() implies all_on(
                line(#[trigger] shorter[i]),
                key(shorter[i]),
            ) by {
                assert(all_on(line(lineup[i]), key(lineup[i])));
            }
        }
        lemma_volley_ordered(shorter, line, key, place);
        let head = volley(shorter, line);
        let tail = line(lineup[n]);
        let whole = head + tail;
        assert(volley(lineup, line) == whole);
        assert(all_on(tail, key(lineup[n])));
        if shorter.len() > 0 {
            assert(shorter.last() == lineup[n - 1]);
            assert(place(key(lineup[n - 1])) < place(key(lineup[n])));
        }
        assert forall|i: int| 0 <= i < whole.len() implies place((#[trigger] whole[i]).platform)
            <= place(key(lineup[n])) by {
            if i < head.len() {
                assert(whole[i] == head[i]);
            } else {
                assert(whole[i] == tail[i - head.len()]);
            }
        }
        assert forall|i: int, j: int| 0 <= i < j < whole.len() implies place(
            (#[trigger] whole[i]).platform,
        ) <= place((#[trigger] whole[j]).platform) by {
            if j < head.len() {
                assert(whole[i] == head[i] && whole[j] == head[j]);
            } else {
                assert(whole[j] == tail[j - head.len()]);
            }
        }
    }
}

/// The client that a platform is reached through, by either rule.
proof fn lemma_in_use(roster: Roster, platform: Platform)
    ensures
        in_use(roster, false, platform) == owned(roster, platform),
        in_use(roster, true, platform) == reached(roster, platform),
{
}

proof fn lemma_once_shared_out<F>(
    roster: Roster,
    prefer_quic: bool,
    lineup: Seq<Platform>,
    offer: Offer<F>,
    place: spec_fn(Platform) -> int,
)
    requires
        forall|i: int, j: int|
            0 <= i < j < lineup.len() ==> place(#[trigger] lineup[i]) < place(
                #[trigger] lineup[j],
            ),
    ensures
        shared_out(
            once(roster, prefer_quic, lineup, offer),
            |p: Platform|
                if lineup.contains(p) {
                    single(p, in_use(roster, prefer_quic, p), offer)
                } else {
                    seq![]
                },
            place,
        ),
{
    let line = once_line(roster, prefer_quic, offer);
    let key = |p: Platform| p;
    let shots = once(roster, prefer_quic, lineup, offer);
    assert(lines_apart(lineup, line, key));
    assert(lines_ordered(lineup, key, place));
    lemma_volley_ordered(lineup, line, key, place);
    assert forall|p: Platform| #[trigger] at(shots, p) == if lineup.contains(p) {
        single(p, in_use(roster, prefer_quic, p), offer)
    } else {
        seq![]
    } by {
        lemma_volley_share(lineup, line, key, p);
        if lineup.contains(p) {
            let i = choose|i: int| 0 <= i < lineup.len() && lineup[i] == p;
            assert(key(lineup[i]) == p);
        } else {
            assert forall|i: int| 0 <= i < lineup.len() implies key(#[trigger] lineup[i])
                != p by {}
        }
    }
}

proof fn lemma_jito_members(p: Platform)
    ensures
        JITO_LINEUP@.contains(p) <==> takes_tip(p),
{
    assert(JITO_LINEUP@[0] == Platform::AstralaneQuic);
    assert(JITO_LINEUP@[1] == Platform::Astralane);
    assert(JITO_LINEUP@[2] == Platform::FlashBlock);
    assert(JITO_LINEUP@[3] == Platform::Temporal);
    assert(JITO_LINEUP@[4] == Platform::ZeroSlot);
    assert(JITO_LINEUP@[5] == Platform::Jito);
}

proof fn lemma_cheap_members(p: Platform)
    ensures
        CHEAP_LINEUP@.contains(p) <==> is_cheap(p),
{
    assert(CHEAP_LINEUP@[0] == Platform::EverstakeQuic);
    assert(CHEAP_LINEUP@[1] == Platform::Everstake);
    assert(CHEAP_LINEUP@[2] == Platform::AstralaneQuic);
    assert(CHEAP_LINEUP@[3] == Platform::Astralane);
    assert(CHEAP_LINEUP@[4] == Platform::FlashBlock);
    assert(CHEAP_LINEUP@[5] == Platform::Jito);
}

proof fn lemma_broadcast_members(p: Platform)
    ensures
        BROADCAST_LINEUP@.contains(p) <==> !(p is Jito || p is Harmonic),
{
    assert(BROADCAST_LINEUP@[0] == Platform::EverstakeQuic);
    assert(BROADCAST_LINEUP@[1] == Platform::Everstake);
    assert(BROADCAST_LINEUP@[2] == Platform::AstralaneQuic);
    assert(BROADCAST_LINEUP@[3] == Platform::Astralane);
    assert(BROADCAST_LINEUP@[4] == Platform::FlashBlock);
    assert(BROADCAST_LINEUP@[5] == Platform::Temporal);
    assert(BROADCAST_LINEUP@[6] == Platform::ZeroSlot);
    assert(BROADCAST_LINEUP@[7] == Platform::NodeOne);
    assert(BROADCAST_LINEUP@[8] == Platform::Blockrazor);
    assert(BROADCAST_LINEUP@[9] == Platform::HeliusMax);
    assert(BROADCAST_LINEUP@[10] == Platform::HeliusSwqos);
    assert(BROADCAST_LINEUP@[11] == Platform::NextBlock);
    assert(BROADCAST_LINEUP@[12] == Platform::Stellium);
}

proof fn lemma_broadcast_rest_members(p: Platform)
    ensures
        BROADCAST_OTHERS@.contains(p) <==> !(p is Jito || p is Harmonic || p is HeliusMax),
{
    assert(BROADCAST_OTHERS@[0] == Platform::EverstakeQuic);
    assert(BROADCAST_OTHERS@[1] == Platform::Everstake);
    assert(BROADCAST_OTHERS@[2] == Platform::AstralaneQuic);
    assert(BROADCAST_OTHERS@[3] == Platform::Astralane);
    assert(BROADCAST_OTHERS@[4] == Platform::FlashBlock);
    assert(BROADCAST_OTHERS@[5] == Platform::Temporal);
    assert(BROADCAST_OTHERS@[6] == Platform::ZeroSlot);
    assert(BROADCAST_OTHERS@[7] == Platform::NodeOne);
    assert(BROADCAST_OTHERS@[8] == Platform::Blockrazor);
    assert(BROADCAST_OTHERS@[9] == Platform::HeliusSwqos);
    assert(BROADCAST_OTHERS@[10] == Platform::NextBlock);
    assert(BROADCAST_OTHERS@[11] == Platform::Stellium);
}

proof fn lemma_reduced_members(p: Platform)
    ensures
        HARMONIC_DISCOUNTED@.contains(p) <==> (p is AstralaneQuic || p is Temporal),
{
    assert(HARMONIC_DISCOUNTED@[0] == Platform::AstralaneQuic);
    assert(HARMONIC_DISCOUNTED@[1] == Platform::Temporal);
}

proof fn lemma_full_members(p: Platform)
    ensures
        HARMONIC_OTHERS@.contains(p) <==> !(p is AstralaneQuic || p is Temporal || p is Harmonic),
{
    assert(HARMONIC_OTHERS@[0] == Platform::EverstakeQuic);
    assert(HARMONIC_OTHERS@[1] == Platform::Everstake);
    assert(HARMONIC_OTHERS@[2] == Platform::FlashBlock);
    assert(HARMONIC_OTHERS@[3] == Platform::Astralane);
    assert(HARMONIC_OTHERS@[4] == Platform::NodeOne);
    assert(HARMONIC_OTHERS@[5] == Platform::Blockrazor);
    assert(HARMONIC_OTHERS@[6] == Platform::HeliusMax);
    assert(HARMONIC_OTHERS@[7] == Platform::HeliusSwqos);
    assert(HARMONIC_OTHERS@[8] == Platform::ZeroSlot);
    assert(HARMONIC_OTHERS@[9] == Platform::NextBlock);
    assert(HARMONIC_OTHERS@[10] == Platform::Stellium);
    assert(HARMONIC_OTHERS@[11] == Platform::Jito);
}

pub(crate) proof fn lemma_jito_by_strategy<F>(roster: Roster, tip: Option<TipStrategy>, fee: F)
    ensures
        in_turn(
            lineup_plan(roster, JITO_LINEUP@, by_strategy(tip, fee)),
            tip_share(roster, tip, fee),
            |p: Platform| usual_place(p),
        ),
{
    let offer = by_strategy(tip, fee);
    let plan = lineup_plan(roster, JITO_LINEUP@, offer);
    let share = tip_share(roster, tip, fee);
    lemma_once_shared_out(roster, true, JITO_LINEUP@, offer, |p: Platform| usual_place(p));
    assert forall|p: Platform| #[trigger] at(plan.direct, p) == share(p) by {
        lemma_jito_members(p);
        lemma_in_use(roster, p);
    }
}

pub(crate) proof fn lemma_jito_at_floor<F>(roster: Roster, floor: u64, fee: F)
    ensures
        in_turn(
            lineup_plan(roster, JITO_LINEUP@, at_least(floor, fee)),
            tip_floor_share(roster, floor, fee),
            |p: Platform| usual_place(p),
        ),
{
    let offer = at_least(floor, fee);
    let plan = lineup_plan(roster, JITO_LINEUP@, offer);
    let share = tip_floor_share(roster, floor, fee);
    lemma_once_shared_out(roster, true, JITO_LINEUP@, offer, |p: Platform| usual_place(p));
    assert forall|p: Platform| #[trigger] at(plan.direct, p) == share(p) by {
        lemma_jito_members(p);
        lemma_in_use(roster, p);
    }
}

pub(crate) proof fn lemma_cheap_by_strategy<F>(roster: Roster, tip: Option<TipStrategy>, fee: F)
    ensures
        in_turn(
            lineup_plan(roster, CHEAP_LINEUP@, by_strategy(tip, fee)),
            cheap_share(roster, tip, fee),
            |p: Platform| usual_place(p),
        ),
{
    let offer = by_strategy(tip, fee);
    let plan = lineup_plan(roster, CHEAP_LINEUP@, offer);
    let share = cheap_share(roster, tip, fee);
    lemma_once_shared_out(roster, true, CHEAP_LINEUP@, offer, |p: Platform| usual_place(p));
    assert forall|p: Platform| #[trigger] at(plan.direct, p) == share(p) by {
        lemma_cheap_members(p);
        lemma_in_use(roster, p);
    }
}

pub(crate) proof fn lemma_broadcast_at_floor<F>(
    roster: Roster,
    first: Seq<Shot<F>>,
    floor: u64,
    fee: F,
)
    ensures
        at_once(
            broadcast_plan(roster, first, at_least(floor, fee)),
            first,
            broadcast_share(roster, floor, fee),
        ),
{
    let offer = at_least(floor, fee);
    let plan = broadcast_plan(roster, first, offer);
    let share = broadcast_share(roster, floor, fee);
    lemma_once_shared_out(
        roster,
        true,
        BROADCAST_LINEUP@,
        offer,
        |p: Platform| broadcast_place(p),
    );
    assert forall|p: Platform| #[trigger] at(plan.parallel, p) == share(p) by {
        lemma_broadcast_members(p);
        lemma_in_use(roster, p);
    }
}

pub(crate) proof fn lemma_helius_first_at_floor<F>(roster: Roster, floor: u64, fee: F)
    ensures
        at_once(
            helius_first_plan(roster, at_least(floor, fee)),
            shot_at_floor(Platform::HeliusMax, roster.helius_max, floor, fee),
            broadcast_rest_share(roster, floor, fee),
        ),
{
    let offer = at_least(floor, fee);
    let plan = helius_first_plan(roster, offer);
    let share = broadcast_rest_share(roster, floor, fee);
    lemma_once_shared_out(
        roster,
        true,
        BROADCAST_OTHERS@,
        offer,
        |p: Platform| broadcast_place(p),
    );
    assert forall|p: Platform| #[trigger] at(plan.parallel, p) == share(p) by {
        lemma_broadcast_rest_members(p);
        lemma_in_use(roster, p);
    }
}

pub(crate) proof fn lemma_helius_first_untipped<F>(roster: Roster, fee: F)
    ensures
        at_once(
            helius_first_plan(roster, by_strategy(None, fee)),
            shot_by_strategy(Platform::HeliusMax, roster.helius_max, None, fee),
            untipped_rest_share(roster, fee),
        ),
{
    let offer = by_strategy(None, fee);
    let plan = helius_first_plan(roster, offer);
    let share = untipped_rest_share(roster, fee);
    lemma_once_shared_out(
        roster,
        true,
        BROADCAST_OTHERS@,
        offer,
        |p: Platform| broadcast_place(p),
    );
    assert forall|p: Platform| #[trigger] at(plan.parallel, p) == share(p) by {
        lemma_broadcast_rest_members(p);
        lemma_in_use(roster, p);
    }
}

pub(crate) proof fn lemma_harmonic_shares<F>(
    roster: Roster,
    tip: Option<TipStrategy>,
    own: F,
    plain: F,
)
    ensures
        in_turn(
            harmonic_plan(roster, tip, own, plain),
            harmonic_share(roster, tip, own, plain),
            |p: Platform| harmonic_place(p),
        ),
{
    let place = |p: Platform| harmonic_place(p);
    let reduced = by_strategy(discounted(tip), plain);
    let full = by_strategy(tip, plain);
    let first = single(Platform::Harmonic, roster.harmonic, by_strategy(None, own));
    let second = once(roster, false, HARMONIC_DISCOUNTED@, reduced);
    let third = once(roster, false, HARMONIC_OTHERS@, full);
    let direct = harmonic_plan(roster, tip, own, plain).direct;
    let share = harmonic_share(roster, tip, own, plain);
    lemma_once_shared_out(roster, false, HARMONIC_DISCOUNTED@, reduced, place);
    lemma_once_shared_out(roster, false, HARMONIC_OTHERS@, full, place);
    assert(direct == first + second + third);
    assert(all_on(first, Platform::Harmonic));
    assert forall|p: Platform| #[trigger] at(direct, p) == share(p) by {
        lemma_at_concat(first + second, third, p);
        lemma_at_concat(first, second, p);
        lemma_at_all_on(first, Platform::Harmonic, p);
        lemma_reduced_members(p);
        lemma_full_members(p);
        lemma_in_use(roster, p);
        assert(at(second, p) == if HARMONIC_DISCOUNTED@.contains(p) {
            single(p, owned(roster, p), reduced)
        } else {
            seq![]
        });
        assert(at(third, p) == if HARMONIC_OTHERS@.contains(p) {
            single(p, owned(roster, p), full)
        } else {
            seq![]
        });
        assert(at(direct, p) =~= share(p));
    }
    assert forall|s: Shot<F>| #[trigger] second.contains(s) implies s.platform is AstralaneQuic
        || s.platform is Temporal by {
        lemma_once_exact(roster, false, HARMONIC_DISCOUNTED@, reduced, s);
        lemma_reduced_members(s.platform);
    }
    assert forall|s: Shot<F>| #[trigger] third.contains(s) implies !(s.platform is AstralaneQuic)
        && !(s.platform is Temporal) && !(s.platform is Harmonic) by {
        lemma_once_exact(roster, false, HARMONIC_OTHERS@, full, s);
        lemma_full_members(s.platform);
    }
    lemma_concat_ordered(first, second, place);
    assert forall|s: Shot<F>| #[trigger] (first + second).contains(s) implies place(s.platform)
        <= 2 by {
        let i = choose|i: int| 0 <= i < (first + second).len() && (first + second)[i] == s;
        if i < first.len() {
            assert(first[i] == s);
        } else {
            assert(second[i - first.len()] == s);
            assert(second.contains(s));
        }
    }
    lemma_concat_ordered(first + second, third, place);
}

proof fn lemma_concat_ordered<F>(
    a: Seq<Shot<F>>,
    b: Seq<Shot<F>>,
    place: spec_fn(Platform) -> int,
)
    requires
        ordered(a, place),
        ordered(b, place),
        forall|s: Shot<F>, t: Shot<F>| #[trigger]
            a.contains(s) && #[trigger] b.contains(t) ==> place(s.platform) <= place(t.platform),
    ensures
        ordered(a + b, place),
{
    let c = a + b;
    assert forall|i: int, j: int| 0 <= i < j < c.len() implies place((#[trigger] c[i]).platform)
        <= place((#[trigger] c[j]).platform) by {
        if j < a.len() {
            assert(c[i] == a[i] && c[j] == a[j]);
        } else if i < a.len() {
            assert(c[i] == a[i] && c[j] == b[j - a.len()]);
            assert(a.contains(a[i]) && b.contains(b[j - a.len()]));
        } else {
            assert(c[i] == b[i - a.len()] && c[j] == b[j - a.len()]);
        }
    }
}

pub(crate) proof fn lemma_fallback_shares<F>(
    roster: Roster,
    priced_tip: Option<TipStrategy>,
    priced: F,
    tip: Option<TipStrategy>,
    plain: F,
)
    ensures
        in_turn(
            fallback_plan(roster, by_strategy(priced_tip, priced), by_strategy(tip, plain)),
            fallback_share(roster, priced_tip, priced, tip, plain),
            |p: Platform| usual_place(p),
        ),
{
    let place = |p: Platform| usual_place(p);
    let by_price = by_strategy(priced_tip, priced);
    let by_tip = by_strategy(tip, plain);
    let line = two_round_line(roster, by_price, by_tip);
    let key = |l: (Platform, Round)| l.0;
    let share = fallback_share(roster, priced_tip, priced, tip, plain);
    let direct = fallback_plan(roster, by_price, by_tip).direct;
    let lineup = FALLBACK_LINEUP@;
    lemma_fallback_lineup();
    assert forall|i: int| 0 <= i < lineup.len() implies all_on(
        line(#[trigger] lineup[i]),
        key(lineup[i]),
    ) by {
        lemma_fallback_line(roster, priced_tip, priced, tip, plain, lineup[i]);
    }
    lemma_volley_ordered(lineup, line, key, place);
    assert forall|p: Platform| #[trigger] at(direct, p) == share(p) by {
        lemma_volley_share(lineup, line, key, p);
        if p is Harmonic {
            assert(share(p) =~= seq![]);
        } else {
            let l = lineup[usual_place(p)];
            assert(key(l) == p);
            lemma_fallback_line(roster, priced_tip, priced, tip, plain, l);
        }
    }
}

/// A line of the fallback lineup: the priced round where the platform takes a
/// price, the plain one where it ranks by tip.
spec fn line_fits(l: (Platform, Round)) -> bool {
    &&& !(l.1 is Plain) <==> takes_price(l.0)
    &&& !(l.1 is Priced) <==> takes_tip(l.0)
}

proof fn lemma_fallback_lineup()
    ensures
        FALLBACK_LINEUP@.len() == 14,
        forall|i: int|
            0 <= i < 14 ==> usual_place((#[trigger] FALLBACK_LINEUP@[i]).0) == i && line_fits(
                FALLBACK_LINEUP@[i],
            ) && !(FALLBACK_LINEUP@[i].0 is Harmonic),
        forall|p: Platform|
            !(p is Harmonic) ==> 0 <= #[trigger] usual_place(p) < 14
                && FALLBACK_LINEUP@[usual_place(p)].0 == p,
{
    assert(FALLBACK_LINEUP@[0].0 == Platform::EverstakeQuic);
    assert(FALLBACK_LINEUP@[1].0 == Platform::Everstake);
    assert(FALLBACK_LINEUP@[2].0 == Platform::AstralaneQuic);
    assert(FALLBACK_LINEUP@[3].0 == Platform::Astralane);
    assert(FALLBACK_LINEUP@[4].0 == Platform::FlashBlock);
    assert(FALLBACK_LINEUP@[5].0 == Platform::NodeOne);
    assert(FALLBACK_LINEUP@[6].0 == Platform::Blockrazor);
    assert(FALLBACK_LINEUP@[7].0 == Platform::Temporal);
    assert(FALLBACK_LINEUP@[8].0 == Platform::HeliusMax);
    assert(FALLBACK_LINEUP@[9].0 == Platform::HeliusSwqos);
    assert(FALLBACK_LINEUP@[10].0 == Platform::ZeroSlot);
    assert(FALLBACK_LINEUP@[11].0 == Platform::NextBlock);
    assert(FALLBACK_LINEUP@[12].0 == Platform::Stellium);
    assert(FALLBACK_LINEUP@[13].0 == Platform::Jito);
}

proof fn lemma_fallback_line<F>(
    roster: Roster,
    priced_tip: Option<TipStrategy>,
    priced: F,
    tip: Option<TipStrategy>,
    plain: F,
    l: (Platform, Round),
)
    requires
        line_fits(l),
    ensures
        ({
            let shots = two_round_line(
                roster,
                by_strategy(priced_tip, priced),
                by_strategy(tip, plain),
            )(l);
            all_on(shots, l.0) && shots == fallback_share(roster, priced_tip, priced, tip, plain)(
                l.0,
            )
        }),
{
    lemma_in_use(roster, l.0);
    let shots = two_round_line(roster, by_strategy(priced_tip, priced), by_strategy(tip, plain))(
        l,
    );
    assert(shots =~= fallback_share(roster, priced_tip, priced, tip, plain)(l.0));
}

} // verus!
