//! What firing, bundles and failures do, told from arguments and results.

use ahash::AHashSet;
use crate::bundle::{
    bundle_watch_set, grown, lemma_watches_every_signature, sent_signatures, BundleError,
    MultiBundleError, MultiBundleSender,
};
use crate::failure::{
    failure_prefix, into_tx_confirm_err, memo_tag, Attempt, TxConfirmError, TxVersion,
};
use crate::fire::{fire_client, fire_v1_client, signatures, watch_all};
use crate::key::Signature;
use crate::leader::SendRoute;
use crate::outside::held;
use vstd::prelude::*;

verus! {

// ── Firing ───────────────────────────────────────────────────────────────────

/// Whether a set holds what it held before and one signature more.
pub open spec fn watches_also(
    before: AHashSet<Vec<u8>>,
    after: AHashSet<Vec<u8>>,
    sig: Signature,
) -> bool {
    forall|b: Seq<u8>| #[trigger]
        held(after).contains(b) <==> held(before).contains(b) || b == sig.bytes@
}

/// Whether a set holds what it held before.
pub open spec fn watches_same(before: AHashSet<Vec<u8>>, after: AHashSet<Vec<u8>>) -> bool {
    forall|b: Seq<u8>| #[trigger] held(after).contains(b) <==> held(before).contains(b)
}

/// A transaction that was built is handed on and watched besides the others; one
/// that was not is reported, and what is watched stays.
pub proof fn lemma_fire_client<T, E>(built: Result<(Signature, T), E>, r: Result<T, E>)
    ensures
        forall|sigs: &mut AHashSet<Vec<u8>>| #[trigger]
            call_ensures(fire_client::<T, E>, (built, sigs), r) ==> match built {
                Ok(done) => r == Ok::<T, E>(done.1) && watches_also(*sigs, *final(sigs), done.0),
                Err(e) => r == Err::<T, E>(e) && watches_same(*sigs, *final(sigs)),
            },
        forall|sigs: &mut AHashSet<Vec<u8>>| #[trigger]
            call_ensures(fire_v1_client::<T, E>, (built, sigs), r) ==> match built {
                Ok(done) => r == Ok::<T, E>(done.1) && watches_also(*sigs, *final(sigs), done.0),
                Err(e) => r == Err::<T, E>(e) && watches_same(*sigs, *final(sigs)),
            },
{
}

/// Whether a byte string is one of these signatures.
pub open spec fn among(list: Seq<Signature>, b: Seq<u8>) -> bool {
    exists|i: int| 0 <= i < list.len() && (#[trigger] list[i]).bytes@ == b
}

proof fn lemma_among(list: Seq<Signature>, b: Seq<u8>)
    ensures
        signatures(list).contains(b) <==> among(list, b),
{
    if among(list, b) {
        let i = choose|i: int| 0 <= i < list.len() && (#[trigger] list[i]).bytes@ == b;
        assert(list[i]@ == b);
    }
}

/// Signatures gathered side by side are all watched, besides those before.
pub proof fn lemma_watch_all(fired: &[Signature])
    ensures
        forall|sigs: &mut AHashSet<Vec<u8>>, b: Seq<u8>| #[trigger]
            call_ensures(watch_all, (fired, sigs), ()) ==> (#[trigger] held(*final(sigs)).contains(
                b,
            ) <==> held(*sigs).contains(b) || among(fired@, b)),
{
    assert forall|sigs: &mut AHashSet<Vec<u8>>, b: Seq<u8>| #[trigger]
        call_ensures(watch_all, (fired, sigs), ()) implies (#[trigger] held(
        *final(sigs),
    ).contains(b) <==> held(*sigs).contains(b) || among(fired@, b)) by {
        lemma_among(fired@, b);
    }
}

// ── Bundles ──────────────────────────────────────────────────────────────────

/// A new sender has one bundle for each sender, made for it, in their order.
pub proof fn lemma_new_bundles<S, B, F: Fn(S) -> B>(
    senders: Vec<S>,
    start: F,
    r: MultiBundleSender<B>,
)
    requires
        call_ensures(MultiBundleSender::<B>::new::<S, F>, (senders, start), r),
    ensures
        r.builders@.len() == senders@.len(),
        forall|i: int|
            0 <= i < senders@.len() ==> call_ensures(
                start,
                (senders@[i],),
                #[trigger] r.builders@[i],
            ),
{
}

/// The bundles come out of a sender or an error as they went in.
pub proof fn lemma_bundles_in_and_out<B>(
    e: MultiBundleError<B>,
    out: Vec<B>,
    builders: Vec<B>,
    sender: MultiBundleSender<B>,
    n: usize,
    none: bool,
)
    requires
        call_ensures(MultiBundleError::<B>::into_builders, (e,), out),
        call_ensures(MultiBundleSender::<B>::from_builders, (builders,), sender),
        call_ensures(MultiBundleSender::<B>::len, (&sender,), n),
        call_ensures(MultiBundleSender::<B>::is_empty, (&sender,), none),
    ensures
        out@ == e.builders@,
        sender.builders@ == builders@,
        n == builders@.len(),
        none <==> builders@.len() == 0,
{
}

/// A transaction goes into every bundle, each in its place, unless one refuses.
pub proof fn lemma_append<B, F: Fn(B) -> Result<B, BundleError<B>>>(
    sender: MultiBundleSender<B>,
    take_in: F,
    done: MultiBundleSender<B>,
)
    requires
        call_ensures(
            MultiBundleSender::<B>::append::<F>,
            (sender, take_in),
            Ok::<MultiBundleSender<B>, MultiBundleError<B>>(done),
        ),
    ensures
        done.builders@.len() == sender.builders@.len(),
        forall|i: int|
            0 <= i < sender.builders@.len() ==> call_ensures(
                take_in,
                (sender.builders@[i],),
                Ok::<B, BundleError<B>>(#[trigger] done.builders@[i]),
            ),
{
}

/// A refusal is reported with its words and with all the bundles: those before it
/// with the transaction, the one that refused as it was handed back, and those
/// behind it untouched.
pub proof fn lemma_append_refused<B, F: Fn(B) -> Result<B, BundleError<B>>>(
    sender: MultiBundleSender<B>,
    take_in: F,
    e: MultiBundleError<B>,
)
    requires
        call_ensures(
            MultiBundleSender::<B>::append::<F>,
            (sender, take_in),
            Err::<MultiBundleSender<B>, MultiBundleError<B>>(e),
        ),
    ensures
        e.builders@.len() == sender.builders@.len(),
        exists|k: int, refusal: BundleError<B>|
            0 <= k < sender.builders@.len() && #[trigger] call_ensures(
                take_in,
                (sender.builders@[k],),
                Err::<B, BundleError<B>>(refusal),
            ) && e.msg == refusal.msg && e.builders@[k] == refusal.builder && (forall|i: int|
                0 <= i < k ==> call_ensures(
                    take_in,
                    (sender.builders@[i],),
                    Ok::<B, BundleError<B>>(#[trigger] e.builders@[i]),
                )) && (forall|i: int|
                k < i < sender.builders@.len() ==> #[trigger] e.builders@[i]
                    == sender.builders@[i]),
{
    let all = sender.builders@;
    let (k, refusal) = choose|k: int, refusal: BundleError<B>|
        0 <= k < all.len() && #[trigger] call_ensures(
            take_in,
            (all[k],),
            Err::<B, BundleError<B>>(refusal),
        ) && e.msg == refusal.msg && e.builders@.len() == all.len() && grown(
            take_in,
            all.take(k),
            e.builders@.take(k),
        ) && e.builders@[k] == refusal.builder && e.builders@.skip(k + 1) == all.skip(k + 1);
    assert forall|i: int| 0 <= i < k implies call_ensures(
        take_in,
        (all[i],),
        Ok::<B, BundleError<B>>(#[trigger] e.builders@[i]),
    ) by {
        assert(e.builders@.take(k)[i] == e.builders@[i]);
        assert(all.take(k)[i] == all[i]);
    }
    assert forall|i: int| k < i < all.len() implies #[trigger] e.builders@[i] == all[i] by {
        assert(e.builders@.skip(k + 1)[i - k - 1] == e.builders@[i]);
        assert(all.skip(k + 1)[i - k - 1] == all[i]);
    }
    assert(call_ensures(take_in, (sender.builders@[k],), Err::<B, BundleError<B>>(refusal)));
}

/// Where no bundle refuses a transaction, it goes into all of them.
pub proof fn lemma_append_succeeds<B, F: Fn(B) -> Result<B, BundleError<B>>>(
    sender: MultiBundleSender<B>,
    take_in: F,
    r: Result<MultiBundleSender<B>, MultiBundleError<B>>,
)
    requires
        call_ensures(MultiBundleSender::<B>::append::<F>, (sender, take_in), r),
        forall|i: int, refusal: BundleError<B>|
            0 <= i < sender.builders@.len() ==> !(#[trigger] call_ensures(
                take_in,
                (sender.builders@[i],),
                Err::<B, BundleError<B>>(refusal),
            )),
    ensures
        r is Ok,
{
    if r is Err {
        lemma_append_refused(sender, take_in, r->Err_0);
    }
}

/// Whether an error is a timeout after so many seconds that expected nothing.
pub open spec fn nothing_expected<E>(e: TxConfirmError<E>, secs: u64) -> bool {
    match e {
        TxConfirmError::Timeout { expected_sigs, timeout_secs } => expected_sigs@.len() == 0
            && timeout_secs == secs,
        _ => false,
    }
}

/// A send hands out all the bundles in their order; without any it has timed out.
pub proof fn lemma_send_bundles<B, E>(
    sender: MultiBundleSender<B>,
    secs: u64,
    r: Result<Vec<B>, TxConfirmError<E>>,
)
    requires
        call_ensures(MultiBundleSender::<B>::send::<E>, (sender, secs), r),
    ensures
        r is Ok <==> sender.builders@.len() > 0,
        r is Ok ==> r->Ok_0@ == sender.builders@,
        r is Err ==> nothing_expected(r->Err_0, secs),
{
}

/// Whether a byte string is a signature of a bundle that went out.
pub open spec fn went_out(sent: Seq<Option<Vec<Signature>>>, b: Seq<u8>) -> bool {
    exists|i: int| 0 <= i < sent.len() && (#[trigger] sent[i]) is Some && among(sent[i]->0@, b)
}

/// Every signature of every bundle that went out is watched, and no other. Where
/// there is none, the send has timed out.
pub proof fn lemma_bundle_watch_set<E>(
    sent: &[Option<Vec<Signature>>],
    secs: u64,
    r: Result<AHashSet<Vec<u8>>, TxConfirmError<E>>,
)
    requires
        call_ensures(bundle_watch_set::<E>, (sent, secs), r),
    ensures
        r is Ok <==> exists|b: Seq<u8>| #[trigger] went_out(sent@, b),
        r is Ok ==> forall|b: Seq<u8>| #[trigger]
            held(r->Ok_0).contains(b) <==> went_out(sent@, b),
        r is Err ==> nothing_expected(r->Err_0, secs),
{
    assert forall|b: Seq<u8>| sent_signatures(sent@).contains(b) <==> #[trigger] went_out(
        sent@,
        b,
    ) by {
        lemma_watches_every_signature(sent@, b);
        if sent_signatures(sent@).contains(b) {
            let i = choose|i: int|
                0 <= i < sent@.len() && (#[trigger] sent@[i]) is Some && signatures(
                    sent@[i]->0@,
                ).contains(b);
            lemma_among(sent@[i]->0@, b);
        }
        if went_out(sent@, b) {
            let i = choose|i: int|
                0 <= i < sent@.len() && (#[trigger] sent@[i]) is Some && among(sent@[i]->0@, b);
            lemma_among(sent@[i]->0@, b);
        }
    }
    if r is Ok {
        let watched = held(r->Ok_0);
        if forall|b: Seq<u8>| !watched.contains(b) {
            assert(watched =~= Set::<Seq<u8>>::empty());
        }
        let b = choose|b: Seq<u8>| watched.contains(b);
        assert(went_out(sent@, b));
    } else {
        assert forall|b: Seq<u8>| !(#[trigger] went_out(sent@, b)) by {
            assert(!sent_signatures(sent@).contains(b));
        }
    }
}

// ── Failures ─────────────────────────────────────────────────────────────────

/// Whether a kind of send hands the report of a failure on as it is.
pub open spec fn hands_on(attempt: Attempt) -> bool {
    attempt is Send || attempt is WithCost
}

/// An ordinary send and one under a budget hand the report on as it is.
pub proof fn lemma_report_is_handed_on<E>(
    attempt: Attempt,
    version: TxVersion,
    report: E,
    shown: &str,
    r: TxConfirmError<E>,
)
    requires
        call_ensures(into_tx_confirm_err::<E>, (attempt, version, report, shown), r),
    ensures
        hands_on(attempt) <==> r is Confirm,
        hands_on(attempt) ==> r == TxConfirmError::Confirm(report),
        !hands_on(attempt) ==> r is Other,
{
}

/// What a failure is told about: the name of the send, with its version.
pub open spec fn name_of(name: Seq<char>, version: TxVersion) -> Seq<char> {
    match version {
        TxVersion::V0 => name,
        TxVersion::V1 => name + "_v1"@,
    }
}

/// A route in words; a send by tip only knows no other than these.
pub open spec fn route_name(route: SendRoute) -> Seq<char> {
    match route {
        SendRoute::Harmonic => "harmonic"@,
        SendRoute::Jito => "jito"@,
        _ => "fallback"@,
    }
}

/// A low-cost send puts its name before the words of the report.
pub proof fn lemma_words_of_a_cheap_failure<E>(
    version: TxVersion,
    report: E,
    shown: &str,
    r: TxConfirmError<E>,
)
    requires
        call_ensures(into_tx_confirm_err::<E>, (Attempt::Cheap, version, report, shown), r),
    ensures
        puts_before(name_of("send_cheap"@, version) + " failed: "@, shown@, r),
{
    reveal_strlit("send_cheap");
    reveal_strlit("_v1");
    reveal_strlit(" failed: ");
    reveal_strlit("send_cheap failed: ");
    reveal_strlit("send_cheap_v1 failed: ");
    let words = failure_prefix(Attempt::Cheap, version)->0@;
    assert(words =~= name_of("send_cheap"@, version) + " failed: "@);
}

/// A send by tip only puts its name before the words of the report, and then its
/// name with the route.
pub proof fn lemma_words_of_a_tip_only_failure<E>(
    route: SendRoute,
    version: TxVersion,
    report: E,
    shown: &str,
    r: TxConfirmError<E>,
)
    requires
        call_ensures(
            into_tx_confirm_err::<E>,
            (Attempt::TipOnly(route), version, report, shown),
            r,
        ),
    ensures
        puts_before(
            name_of("send_tip_only"@, version) + " failed: "@ + name_of("send_tip_only"@, version)
                + "("@ + route_name(route) + ") failed: "@,
            shown@,
            r,
        ),
{
    reveal_strlit("send_tip_only");
    reveal_strlit("_v1");
    reveal_strlit(" failed: ");
    reveal_strlit("(");
    reveal_strlit(") failed: ");
    reveal_strlit("harmonic");
    reveal_strlit("jito");
    reveal_strlit("fallback");
    reveal_strlit("send_tip_only failed: send_tip_only(harmonic) failed: ");
    reveal_strlit("send_tip_only failed: send_tip_only(jito) failed: ");
    reveal_strlit("send_tip_only failed: send_tip_only(fallback) failed: ");
    reveal_strlit("send_tip_only_v1 failed: send_tip_only_v1(harmonic) failed: ");
    reveal_strlit("send_tip_only_v1 failed: send_tip_only_v1(jito) failed: ");
    reveal_strlit("send_tip_only_v1 failed: send_tip_only_v1(fallback) failed: ");
    let name = name_of("send_tip_only"@, version);
    let words = failure_prefix(Attempt::TipOnly(route), version)->0@;
    assert(words =~= name + " failed: "@ + name + "("@ + route_name(route) + ") failed: "@);
}

/// Whether an error puts words before a report.
pub open spec fn puts_before<E>(words: Seq<char>, shown: Seq<char>, e: TxConfirmError<E>) -> bool {
    match e {
        TxConfirmError::Other(text) => text@ == words + shown,
        _ => false,
    }
}

/// The memo is the configured tag as it is, or `default`.
pub proof fn lemma_memo_tag(configured: Option<String>, r: String)
    requires
        call_ensures(memo_tag, (configured,), r),
    ensures
        configured is Some ==> r@ == configured->0@,
        configured is None ==> r@ == "default"@,
{
}

} // verus!
