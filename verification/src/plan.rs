//! Sending plans: which platform gets which tip and which fee, in which order.

use crate::platform::{Client, Platform, Roster};
use crate::tip::{explicit_tip, larger, max_amount, opt_tip, TipStrategy};
use vstd::prelude::*;

verus! {

/// One transaction for one platform.
#[derive(Clone, Copy, Debug, PartialEq, Eq)]
pub struct Shot<F> {
    pub platform: Platform,
    /// The tip in lamports; the platform's own default where it is absent.
    pub tip: Option<u64>,
    pub fee: F,
}

/// The transactions of one send.
#[derive(Clone, Debug, PartialEq, Eq)]
pub struct Plan<F> {
    /// Built and fired one after the other.
    pub direct: Vec<Shot<F>>,
    /// Built and fired side by side, after the direct ones.
    pub parallel: Vec<Shot<F>>,
}

/// What a plan amounts to.
pub struct PlanView<F> {
    pub direct: Seq<Shot<F>>,
    pub parallel: Seq<Shot<F>>,
}

impl<F> View for Plan<F> {
    type V = PlanView<F>;

    open spec fn view(&self) -> PlanView<F> {
        PlanView { direct: self.direct@, parallel: self.parallel@ }
    }
}

impl<F> PlanView<F> {
    /// All the shots, in the order in which they start.
    pub open spec fn shots(self) -> Seq<Shot<F>> {
        self.direct + self.parallel
    }

    /// Whether a shot is among them.
    pub open spec fn fires(self, shot: Shot<F>) -> bool {
        self.direct.contains(shot) || self.parallel.contains(shot)
    }
}

/// How a tip is set.
#[derive(Clone, Copy, Debug)]
pub enum Bid {
    /// By an optional strategy, with the usual floor.
    Strategy(Option<TipStrategy>),
    /// At least this much, and at least the platform's minimum.
    AtLeast(u64),
}

impl Bid {
    /// The tip on a platform that asks for at least `platform_min` lamports.
    pub open spec fn on(self, platform_min: u64) -> Option<u64> {
        match self {
            Bid::Strategy(s) => explicit_tip(s, platform_min),
            Bid::AtLeast(n) => Some(larger(n, platform_min)),
        }
    }

    /// The tip on a platform that asks for at least `platform_min` lamports.
    pub fn tip(&self, platform_min: u64) -> (r: Option<u64>)
        ensures
            r == self.on(platform_min),
    {
        match self {
            Bid::Strategy(s) => opt_tip(*s, platform_min),
            Bid::AtLeast(n) => Some(max_amount(*n, platform_min)),
        }
    }
}

/// A tip rule and a fee, the same for every platform.
#[derive(Clone, Copy, Debug)]
pub struct Offer<F> {
    pub bid: Bid,
    pub fee: F,
}

/// In which rounds of a two-round send a platform takes part.
#[derive(Clone, Copy, Debug, PartialEq, Eq, Structural)]
pub enum Round {
    /// The priced round only.
    Priced,
    /// The plain round only.
    Plain,
    /// Both, the priced one first.
    Both,
}

/// The shots of a lineup: those of each line, in the order of the lines.
pub open spec fn volley<L, F>(
    lineup: Seq<L>,
    shots: spec_fn(L) -> Seq<Shot<F>>,
) -> Seq<Shot<F>>
    decreases lineup.len(),
{
    if lineup.len() == 0 {
        seq![]
    } else {
        volley(lineup.drop_last(), shots) + shots(lineup.last())
    }
}

/// The shot that makes an offer on a platform.
pub open spec fn shot_at<F>(platform: Platform, client: Client, offer: Offer<F>) -> Shot<F> {
    Shot { platform, tip: offer.bid.on(client.min_tip), fee: offer.fee }
}

/// One shot where there is a client, none where there is not.
pub open spec fn single<F>(
    platform: Platform,
    client: Option<Client>,
    offer: Offer<F>,
) -> Seq<Shot<F>> {
    match client {
        Some(c) => seq![shot_at(platform, c, offer)],
        None => seq![],
    }
}

/// The client that a platform is reached through. HTTP transports stand back for
/// their QUIC counterparts where `prefer_quic` says so.
pub open spec fn in_use(roster: Roster, prefer_quic: bool, platform: Platform) -> Option<Client> {
    if prefer_quic {
        roster.preferred(platform)
    } else {
        roster.registered(platform)
    }
}

/// One shot on each platform of a lineup that has a client.
pub open spec fn once<F>(
    roster: Roster,
    prefer_quic: bool,
    lineup: Seq<Platform>,
    offer: Offer<F>,
) -> Seq<Shot<F>> {
    volley(lineup, once_line(roster, prefer_quic, offer))
}

pub open spec fn once_line<F>(
    roster: Roster,
    prefer_quic: bool,
    offer: Offer<F>,
) -> spec_fn(Platform) -> Seq<Shot<F>> {
    |p: Platform|
        single(p, in_use(roster, prefer_quic, p), offer)
}

/// One or two shots on each platform of a lineup that has a client, as its line
/// says.
pub open spec fn two_rounds<F>(
    roster: Roster,
    lineup: Seq<(Platform, Round)>,
    priced: Offer<F>,
    plain: Offer<F>,
) -> Seq<Shot<F>> {
    volley(lineup, two_round_line(roster, priced, plain))
}

pub open spec fn two_round_line<F>(
    roster: Roster,
    priced: Offer<F>,
    plain: Offer<F>,
) -> spec_fn((Platform, Round)) -> Seq<Shot<F>> {
    |line: (Platform, Round)|
        {
            let client = roster.preferred(line.0);
            match line.1 {
                Round::Priced => single(line.0, client, priced),
                Round::Plain => single(line.0, client, plain),
                Round::Both => single(line.0, client, priced) + single(line.0, client, plain),
            }
        }
}

/// Adding a line adds its shots.
proof fn lemma_volley_step<L, F>(lineup: Seq<L>, i: int, shots: spec_fn(L) -> Seq<Shot<F>>)
    requires
        0 <= i < lineup.len(),
    ensures
        volley(lineup.take(i + 1), shots) == volley(lineup.take(i), shots) + shots(lineup[i]),
{
    let longer = lineup.take(i + 1);
    assert(longer.drop_last() =~= lineup.take(i));
    assert(longer.last() == lineup[i]);
}

/// Adds the shot that makes an offer on a platform, where it has a client.
pub fn push_single<F: Copy>(
    shots: &mut Vec<Shot<F>>,
    platform: Platform,
    client: Option<Client>,
    offer: &Offer<F>,
)
    ensures
        final(shots)@ == old(shots)@ + single(platform, client, *offer),
{
    match client {
        Some(c) => {
            let tip = offer.bid.tip(c.min_tip);
            shots.push(Shot { platform, tip, fee: offer.fee });
        },
        None => {},
    }
    assert(shots@ =~= old(shots)@ + single(platform, client, *offer));
}

/// Adds one shot on each platform of a lineup that has a client.
pub fn push_once<F: Copy>(
    shots: &mut Vec<Shot<F>>,
    roster: &Roster,
    prefer_quic: bool,
    lineup: &[Platform],
    offer: &Offer<F>,
)
    ensures
        final(shots)@ == old(shots)@ + once(*roster, prefer_quic, lineup@, *offer),
{
    let ghost before = shots@;
    let ghost line = once_line(*roster, prefer_quic, *offer);
    let mut i: usize = 0;
    assert(shots@ =~= before + volley(lineup@.take(0), line));
    while i < lineup.len()
        invariant
            i <= lineup@.len(),
            line == once_line(*roster, prefer_quic, *offer),
            shots@ == before + volley(lineup@.take(i as int), line),
        decreases lineup@.len() - i,
    {
        let platform = lineup[i];
        let client = if prefer_quic {
            roster.preferred_client(platform)
        } else {
            roster.client(platform)
        };
        push_single(shots, platform, client, offer);
        proof {
            lemma_volley_step(lineup@, i as int, line);
            assert(shots@ =~= before + volley(lineup@.take(i + 1), line));
        }
        i = i + 1;
    }
    assert(lineup@.take(i as int) =~= lineup@);
}

/// Adds one or two shots on each platform of a lineup that has a client.
pub fn push_two_rounds<F: Copy>(
    shots: &mut Vec<Shot<F>>,
    roster: &Roster,
    lineup: &[(Platform, Round)],
    priced: &Offer<F>,
    plain: &Offer<F>,
)
    ensures
        final(shots)@ == old(shots)@ + two_rounds(*roster, lineup@, *priced, *plain),
{
    let ghost before = shots@;
    let ghost line = two_round_line(*roster, *priced, *plain);
    let mut i: usize = 0;
    assert(shots@ =~= before + volley(lineup@.take(0), line));
    while i < lineup.len()
        invariant
            i <= lineup@.len(),
            line == two_round_line(*roster, *priced, *plain),
            shots@ == before + volley(lineup@.take(i as int), line),
        decreases lineup@.len() - i,
    {
        let (platform, round) = lineup[i];
        let client = roster.preferred_client(platform);
        match round {
            Round::Priced => push_single(shots, platform, client, priced),
            Round::Plain => push_single(shots, platform, client, plain),
            Round::Both => {
                push_single(shots, platform, client, priced);
                push_single(shots, platform, client, plain);
            },
        }
        proof {
            lemma_volley_step(lineup@, i as int, line);
            assert(shots@ =~= before + volley(lineup@.take(i + 1), line));
        }
        i = i + 1;
    }
    assert(lineup@.take(i as int) =~= lineup@);
}

/// Whether two lists hit the same platforms with the same tips, in the same
/// order.
pub open spec fn alike<F, G>(a: Seq<Shot<F>>, b: Seq<Shot<G>>) -> bool {
    &&& a.len() == b.len()
    &&& forall|i: int|
        0 <= i < a.len() ==> (#[trigger] a[i]).platform == b[i].platform && a[i].tip == b[i].tip
}

/// A volley has the shots of its lines and no others.
pub proof fn lemma_volley_contains<L, F>(
    lineup: Seq<L>,
    shots: spec_fn(L) -> Seq<Shot<F>>,
    shot: Shot<F>,
)
    ensures
        volley(lineup, shots).contains(shot) <==> exists|i: int|
            0 <= i < lineup.len() && (#[trigger] shots(lineup[i])).contains(shot),
    decreases lineup.len(),
{
    if lineup.len() > 0 {
        let shorter = lineup.drop_last();
        let head = volley(shorter, shots);
        let tail = shots(lineup.last());
        lemma_volley_contains(shorter, shots, shot);
        if volley(lineup, shots).contains(shot) {
            let j = choose|j: int| 0 <= j < (head + tail).len() && (head + tail)[j] == shot;
            if j < head.len() {
                assert(head[j] == shot);
                let i = choose|i: int|
                    0 <= i < shorter.len() && (#[trigger] shots(shorter[i])).contains(shot);
                assert(shots(lineup[i]).contains(shot));
            } else {
                assert(tail[j - head.len()] == shot);
                assert(shots(lineup[lineup.len() - 1]).contains(shot));
            }
        }
        if exists|i: int| 0 <= i < lineup.len() && (#[trigger] shots(lineup[i])).contains(shot) {
            let i = choose|i: int|
                0 <= i < lineup.len() && (#[trigger] shots(lineup[i])).contains(shot);
            if i < shorter.len() {
                assert(shots(shorter[i]).contains(shot));
                let j = choose|j: int| 0 <= j < head.len() && head[j] == shot;
                assert((head + tail)[j] == shot);
            } else {
                let j = choose|j: int| 0 <= j < tail.len() && tail[j] == shot;
                assert((head + tail)[head.len() + j] == shot);
            }
        }
    }
}

/// Two volleys are alike where their lines are.
pub proof fn lemma_volley_alike<L, F, G>(
    lineup: Seq<L>,
    f: spec_fn(L) -> Seq<Shot<F>>,
    g: spec_fn(L) -> Seq<Shot<G>>,
)
    requires
        forall|line: L| alike(#[trigger] f(line), g(line)),
    ensures
        alike(volley(lineup, f), volley(lineup, g)),
    decreases lineup.len(),
{
    if lineup.len() > 0 {
        lemma_volley_alike(lineup.drop_last(), f, g);
        lemma_concat_alike(
            volley(lineup.drop_last(), f),
            f(lineup.last()),
            volley(lineup.drop_last(), g),
            g(lineup.last()),
        );
    }
}

/// Lists put together of like parts are alike.
pub proof fn lemma_concat_alike<F, G>(
    a: Seq<Shot<F>>,
    b: Seq<Shot<F>>,
    c: Seq<Shot<G>>,
    d: Seq<Shot<G>>,
)
    requires
        alike(a, c),
        alike(b, d),
    ensures
        alike(a + b, c + d),
{
    assert forall|i: int| 0 <= i < (a + b).len() implies (#[trigger] (a + b)[i]).platform == (c
        + d)[i].platform && (a + b)[i].tip == (c + d)[i].tip by {
        if i < a.len() {
            assert((a + b)[i] == a[i] && (c + d)[i] == c[i]);
        } else {
            assert((a + b)[i] == b[i - a.len()] && (c + d)[i] == d[i - c.len()]);
        }
    }
}

/// A one-round volley makes its offer on exactly the platforms of the lineup that
/// have a client.
pub proof fn lemma_once_exact<F>(
    roster: Roster,
    prefer_quic: bool,
    lineup: Seq<Platform>,
    offer: Offer<F>,
    shot: Shot<F>,
)
    ensures
        once(roster, prefer_quic, lineup, offer).contains(shot) <==> exists|i: int|
            0 <= i < lineup.len() && in_use(roster, prefer_quic, #[trigger] lineup[i]) is Some
                && shot == shot_at(lineup[i], in_use(roster, prefer_quic, lineup[i])->0, offer),
{
    let line = once_line(roster, prefer_quic, offer);
    lemma_volley_contains(lineup, line, shot);
    if once(roster, prefer_quic, lineup, offer).contains(shot) {
        let i = choose|i: int| 0 <= i < lineup.len() && (#[trigger] line(lineup[i])).contains(shot);
        assert(line(lineup[i]) == single(
            lineup[i],
            in_use(roster, prefer_quic, lineup[i]),
            offer,
        ));
    }
    if exists|i: int|
        0 <= i < lineup.len() && in_use(roster, prefer_quic, #[trigger] lineup[i]) is Some && shot
            == shot_at(lineup[i], in_use(roster, prefer_quic, lineup[i])->0, offer) {
        let i = choose|i: int|
            0 <= i < lineup.len() && in_use(roster, prefer_quic, #[trigger] lineup[i]) is Some
                && shot == shot_at(lineup[i], in_use(roster, prefer_quic, lineup[i])->0, offer);
        assert(line(lineup[i])[0] == shot);
        assert(line(lineup[i]).contains(shot));
    }
}

/// A two-round volley makes the priced offer on exactly the platforms that take
/// part in the priced round, and the plain offer on exactly those that take part
/// in the plain one, as far as they have a client.
pub proof fn lemma_two_rounds_exact<F>(
    roster: Roster,
    lineup: Seq<(Platform, Round)>,
    priced: Offer<F>,
    plain: Offer<F>,
    shot: Shot<F>,
)
    ensures
        two_rounds(roster, lineup, priced, plain).contains(shot) <==> exists|i: int|
            0 <= i < lineup.len() && roster.preferred((#[trigger] lineup[i]).0) is Some && {
                let client = roster.preferred(lineup[i].0)->0;
                ||| !(lineup[i].1 is Plain) && shot == shot_at(lineup[i].0, client, priced)
                ||| !(lineup[i].1 is Priced) && shot == shot_at(lineup[i].0, client, plain)
            },
{
    let line = two_round_line(roster, priced, plain);
    lemma_volley_contains(lineup, line, shot);
    if two_rounds(roster, lineup, priced, plain).contains(shot) {
        let i = choose|i: int| 0 <= i < lineup.len() && (#[trigger] line(lineup[i])).contains(shot);
        let fired = line(lineup[i]);
        let j = choose|j: int| 0 <= j < fired.len() && fired[j] == shot;
        assert(roster.preferred(lineup[i].0) is Some);
    }
    assert forall|i: int|
        0 <= i < lineup.len() && roster.preferred((#[trigger] lineup[i]).0) is Some && {
            let client = roster.preferred(lineup[i].0)->0;
            ||| !(lineup[i].1 is Plain) && shot == shot_at(lineup[i].0, client, priced)
            ||| !(lineup[i].1 is Priced) && shot == shot_at(lineup[i].0, client, plain)
        } implies line(lineup[i]).contains(shot) by {
        let client = roster.preferred(lineup[i].0)->0;
        if !(lineup[i].1 is Plain) && shot == shot_at(lineup[i].0, client, priced) {
            assert(line(lineup[i])[0] == shot);
        } else if lineup[i].1 is Plain {
            assert(line(lineup[i])[0] == shot);
        } else {
            assert(line(lineup[i])[1] == shot);
        }
    }
}

/// A one-round volley fires at each platform at most once, unless the lineup
/// names it twice.
pub proof fn lemma_once_distinct<F>(
    roster: Roster,
    prefer_quic: bool,
    lineup: Seq<Platform>,
    offer: Offer<F>,
)
    requires
        lineup.no_duplicates(),
    ensures
        forall|i: int, j: int|
            0 <= i < j < once(roster, prefer_quic, lineup, offer).len() ==> (#[trigger] once(
                roster,
                prefer_quic,
                lineup,
                offer,
            )[i]).platform != (#[trigger] once(roster, prefer_quic, lineup, offer)[j]).platform,
    decreases lineup.len(),
{
    if lineup.len() > 0 {
        let shorter = lineup.drop_last();
        let head = once(roster, prefer_quic, shorter, offer);
        let tail = single(lineup.last(), in_use(roster, prefer_quic, lineup.last()), offer);
        assert(once(roster, prefer_quic, lineup, offer) == head + tail);
        lemma_once_distinct(roster, prefer_quic, shorter, offer);
        assert forall|i: int, j: int| 0 <= i < j < (head + tail).len() implies (#[trigger] (head
            + tail)[i]).platform != (#[trigger] (head + tail)[j]).platform by {
            assert((head + tail)[i] == head[i]);
            if j < head.len() {
                assert((head + tail)[j] == head[j]);
            } else {
                assert(head.contains(head[i]));
                lemma_once_exact(roster, prefer_quic, shorter, offer, head[i]);
                let k = choose|k: int|
                    0 <= k < shorter.len() && in_use(
                        roster,
                        prefer_quic,
                        #[trigger] shorter[k],
                    ) is Some && head[i] == shot_at(
                        shorter[k],
                        in_use(roster, prefer_quic, shorter[k])->0,
                        offer,
                    );
                assert(lineup[k] == head[i].platform);
                assert(lineup[lineup.len() - 1] == (head + tail)[j].platform);
            }
        }
    }
}

/// A two-round volley fires at each platform at most twice: at the priced fee,
/// and right after it at the plain one.
pub proof fn lemma_two_rounds_distinct<F>(
    roster: Roster,
    lineup: Seq<(Platform, Round)>,
    priced: Offer<F>,
    plain: Offer<F>,
)
    requires
        forall|i: int, j: int|
            0 <= i < j < lineup.len() ==> (#[trigger] lineup[i]).0 != (#[trigger] lineup[j]).0,
    ensures
        forall|i: int, j: int|
            0 <= i < j < two_rounds(roster, lineup, priced, plain).len() && (#[trigger] two_rounds(
                roster,
                lineup,
                priced,
                plain,
            )[i]).platform == (#[trigger] two_rounds(roster, lineup, priced, plain)[j]).platform
                ==> j == i + 1 && two_rounds(roster, lineup, priced, plain)[i].fee == priced.fee
                && two_rounds(roster, lineup, priced, plain)[j].fee == plain.fee,
    decreases lineup.len(),
{
    if lineup.len() > 0 {
        let shorter = lineup.drop_last();
        let line = two_round_line(roster, priced, plain);
        let head = two_rounds(roster, shorter, priced, plain);
        let tail = line(lineup.last());
        let whole = head + tail;
        assert(two_rounds(roster, lineup, priced, plain) == whole);
        lemma_two_rounds_distinct(roster, shorter, priced, plain);
        assert forall|i: int, j: int|
            0 <= i < j < whole.len() && (#[trigger] whole[i]).platform == (
            #[trigger] whole[j]).platform implies j == i + 1 && whole[i].fee == priced.fee
            && whole[j].fee == plain.fee by {
            if j < head.len() {
                assert(whole[i] == head[i] && whole[j] == head[j]);
            } else if i < head.len() {
                assert(whole[i] == head[i]);
                assert(head.contains(head[i]));
                lemma_two_rounds_exact(roster, shorter, priced, plain, head[i]);
                let k = choose|k: int|
                    0 <= k < shorter.len() && roster.preferred(
                        (#[trigger] shorter[k]).0,
                    ) is Some && {
                        let client = roster.preferred(shorter[k].0)->0;
                        ||| !(shorter[k].1 is Plain) && head[i] == shot_at(
                            shorter[k].0,
                            client,
                            priced,
                        )
                        ||| !(shorter[k].1 is Priced) && head[i] == shot_at(
                            shorter[k].0,
                            client,
                            plain,
                        )
                    };
                assert(lineup[k].0 == head[i].platform);
                assert(lineup[lineup.len() - 1].0 == tail[j - head.len()].platform);
            } else {
                assert(whole[i] == tail[i - head.len()] && whole[j] == tail[j - head.len()]);
            }
        }
    }
}

} // verus!
