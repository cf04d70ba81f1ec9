//! One atomic bundle on several platforms at once.
//!
//! Every platform has a bundle of its own, with the same transactions. Whichever
//! of them lands first, the bundle has landed. How a transaction goes into a
//! platform's bundle is the caller's to say, so that one sender serves both
//! transaction versions.

use ahash::AHashSet;
use crate::failure::TxConfirmError;
use crate::fire::{signatures, watch_all};
use crate::key::Signature;
use crate::outside::{byte_set, byte_set_is_empty, held};
use vstd::prelude::*;

verus! {

/// The bundles under construction, one per platform.
pub struct MultiBundleSender<B> {
    pub builders: Vec<B>,
}

/// The same for version 1 transactions.
pub type MultiBundleSenderV1<B> = MultiBundleSender<B>;

/// Why a platform's bundle did not take a transaction, and that bundle as it was.
pub struct BundleError<B> {
    pub msg: String,
    pub builder: B,
}

/// Why a transaction could not be added, and all the bundles, so that no
/// transaction is lost.
pub struct MultiBundleError<B> {
    pub msg: String,
    pub builders: Vec<B>,
}

/// The same for version 1 transactions.
pub type MultiBundleErrorV1<B> = MultiBundleError<B>;

impl<B> MultiBundleError<B> {
    /// The bundles, to go on with.
    pub fn into_builders(self) -> (r: Vec<B>)
        ensures
            r == self.builders,
    {
        self.builders
    }
}

/// Whether each result is one that `make` may give for the item in its place.
pub open spec fn made_from<A, B, F: Fn(A) -> B>(make: F, items: Seq<A>, results: Seq<B>) -> bool {
    &&& results.len() == items.len()
    &&& forall|i: int|
        0 <= i < items.len() ==> call_ensures(make, (items[i],), #[trigger] results[i])
}

/// Whether each bundle is one that `take_in` may make of the bundle in its place by
/// taking a transaction in.
pub open spec fn grown<B, F: Fn(B) -> Result<B, BundleError<B>>>(
    take_in: F,
    before: Seq<B>,
    after: Seq<B>,
) -> bool {
    &&& after.len() == before.len()
    &&& forall|i: int|
        0 <= i < before.len() ==> call_ensures(
            take_in,
            (before[i],),
            Ok::<B, BundleError<B>>(#[trigger] after[i]),
        )
}

impl<B> MultiBundleSender<B> {
    /// Starts one bundle for each sender.
    pub fn new<S, F: Fn(S) -> B>(senders: Vec<S>, start: F) -> (r: Self)
        requires
            forall|i: int|
                0 <= i < senders@.len() ==> call_requires(start, (#[trigger] senders@[i],)),
        ensures
            made_from(start, senders@, r.builders@),
    {
        let mut builders: Vec<B> = Vec::with_capacity(senders.len());
        let mut rest = senders;
        let ghost all = senders@;
        while rest.len() > 0
            invariant
                forall|i: int| 0 <= i < all.len() ==> call_requires(start, (#[trigger] all[i],)),
                builders@.len() + rest@.len() == all.len(),
                rest@ == all.skip(builders@.len() as int),
                forall|i: int|
                    0 <= i < builders@.len() ==> call_ensures(
                        start,
                        (all[i],),
                        #[trigger] builders@[i],
                    ),
            decreases rest@.len(),
        {
            let sender = rest.remove(0);
            assert(sender == all[builders@.len() as int]);
            builders.push(start(sender));
            assert(rest@ =~= all.skip(builders@.len() as int));
        }
        MultiBundleSender { builders }
    }

    /// Goes on with bundles that were under construction.
    pub fn from_builders(builders: Vec<B>) -> (r: Self)
        ensures
            r.builders == builders,
    {
        MultiBundleSender { builders }
    }

    /// The number of platforms.
    pub fn len(&self) -> (r: usize)
        ensures
            r == self.builders@.len(),
    {
        self.builders.len()
    }

    /// Whether there is no platform.
    pub fn is_empty(&self) -> (r: bool)
        ensures
            r == (self.builders@.len() == 0),
    {
        self.builders.is_empty()
    }

    /// Adds a transaction to the bundle of every platform.
    ///
    /// The bundles take it in turn, until one refuses. The error then has all of
    /// them: those before with the transaction, the one that refused as `take_in`
    /// gave it back, and those after as they were.
    pub fn append<F: Fn(B) -> Result<B, BundleError<B>>>(
        self,
        take_in: F,
    ) -> (r: Result<Self, MultiBundleError<B>>)
        requires
            forall|i: int|
                0 <= i < self.builders@.len() ==> call_requires(
                    take_in,
                    (#[trigger] self.builders@[i],),
                ),
        ensures
            match r {
                Ok(sender) => grown(take_in, self.builders@, sender.builders@),
                Err(e) => exists|k: int, refusal: BundleError<B>|
                    0 <= k < self.builders@.len() && #[trigger] call_ensures(
                        take_in,
                        (self.builders@[k],),
                        Err::<B, BundleError<B>>(refusal),
                    ) && e.msg == refusal.msg && e.builders@.len() == self.builders@.len()
                        && grown(take_in, self.builders@.take(k), e.builders@.take(k))
                        && e.builders@[k] == refusal.builder && e.builders@.skip(k + 1)
                        == self.builders@.skip(k + 1),
            },
    {
        let ghost all = self.builders@;
        let mut next: Vec<B> = Vec::with_capacity(self.builders.len());
        let mut rest = self.builders;
        while rest.len() > 0
            invariant
                forall|i: int| 0 <= i < all.len() ==> call_requires(take_in, (#[trigger] all[i],)),
                all == self.builders@,
                next@.len() + rest@.len() == all.len(),
                rest@ == all.skip(next@.len() as int),
                grown(take_in, all.take(next@.len() as int), next@),
            decreases rest@.len(),
        {
            let ghost k = next@.len() as int;
            let ghost done = next@;
            let builder = rest.remove(0);
            assert(builder == all[k]);
            assert(rest@ =~= all.skip(k + 1));
            match take_in(builder) {
                Ok(b) => {
                    next.push(b);
                    proof {
                        let taken = all.take(k + 1);
                        assert forall|i: int| 0 <= i < taken.len() implies call_ensures(
                            take_in,
                            (taken[i],),
                            Ok::<B, BundleError<B>>(#[trigger] next@[i]),
                        ) by {
                            if i < k {
                                assert(next@[i] == done[i]);
                                assert(taken[i] == all.take(k)[i]);
                            }
                        }
                    }
                },
                Err(refusal) => {
                    let ghost kept = refusal;
                    let BundleError { msg, builder } = refusal;
                    next.push(builder);
                    next.append(&mut rest);
                    assert(next@.take(k) =~= done);
                    assert(next@.skip(k + 1) =~= all.skip(k + 1));
                    assert(call_ensures(take_in, (all[k],), Err::<B, BundleError<B>>(kept)));
                    return Err(MultiBundleError { msg, builders: next });
                },
            }
        }
        assert(all.take(next@.len() as int) =~= all);
        Ok(MultiBundleSender { builders: next })
    }

    /// The bundles, to be sent side by side. Without a platform there is nothing
    /// to wait for, and the send counts as timed out at once.
    pub fn send<E>(self, confirm_timeout_secs: u64) -> (r: Result<Vec<B>, TxConfirmError<E>>)
        ensures
            match r {
                Ok(bundles) => self.builders@.len() > 0 && bundles == self.builders,
                Err(e) => self.builders@.len() == 0 && timed_out_at_once(e, confirm_timeout_secs),
            },
    {
        if self.builders.is_empty() {
            return Err(
                TxConfirmError::Timeout {
                    expected_sigs: Vec::new(),
                    timeout_secs: confirm_timeout_secs,
                },
            );
        }
        Ok(self.builders)
    }
}

/// A timeout that expected no signature.
pub open spec fn timed_out_at_once<E>(e: TxConfirmError<E>, timeout_secs: u64) -> bool {
    e matches TxConfirmError::Timeout { expected_sigs, timeout_secs: secs } && expected_sigs@.len()
        == 0 && secs == timeout_secs
}

/// The signatures of all the bundles that went out.
pub open spec fn sent_signatures(sent: Seq<Option<Vec<Signature>>>) -> Set<Seq<u8>>
    decreases sent.len(),
{
    if sent.len() == 0 {
        Set::empty()
    } else {
        let before = sent_signatures(sent.drop_last());
        match sent.last() {
            Some(sigs) => before.union(signatures(sigs@)),
            None => before,
        }
    }
}

/// What to watch once every platform has answered, with the signatures of its
/// bundle or with none where it failed.
///
/// Every transaction of every bundle is watched: any of them shows that the
/// bundle has landed. Where nothing went out at all, the send counts as timed
/// out.
pub fn bundle_watch_set<E>(
    sent: &[Option<Vec<Signature>>],
    confirm_timeout_secs: u64,
) -> (r: Result<AHashSet<Vec<u8>>, TxConfirmError<E>>)
    ensures
        match r {
            Ok(sigs) => held(sigs) == sent_signatures(sent@) && held(sigs) != Set::<
                Seq<u8>,
            >::empty(),
            Err(e) => sent_signatures(sent@) == Set::<Seq<u8>>::empty() && timed_out_at_once(
                e,
                confirm_timeout_secs,
            ),
        },
{
    let mut sigs: AHashSet<Vec<u8>> = byte_set();
    let mut i: usize = 0;
    while i < sent.len()
        invariant
            i <= sent@.len(),
            held(sigs) == sent_signatures(sent@.take(i as int)),
        decreases sent@.len() - i,
    {
        if let Some(fired) = &sent[i] {
            watch_all(fired.as_slice(), &mut sigs);
        }
        proof {
            let more = sent@.take(i + 1);
            assert(more.drop_last() =~= sent@.take(i as int));
            assert(more.last() == sent@[i as int]);
        }
        i = i + 1;
    }
    assert(sent@.take(i as int) =~= sent@);
    if byte_set_is_empty(&sigs) {
        return Err(
            TxConfirmError::Timeout {
                expected_sigs: Vec::new(),
                timeout_secs: confirm_timeout_secs,
            },
        );
    }
    Ok(sigs)
}

/// A signature is watched exactly where it is one of a bundle that went out.
pub proof fn lemma_watches_every_signature(sent: Seq<Option<Vec<Signature>>>, sig: Seq<u8>)
    ensures
        sent_signatures(sent).contains(sig) <==> exists|i: int|
            0 <= i < sent.len() && (#[trigger] sent[i]) is Some && signatures(
                sent[i]->0@,
            ).contains(sig),
    decreases sent.len(),
{
    if sent.len() > 0 {
        let shorter = sent.drop_last();
        lemma_watches_every_signature(shorter, sig);
        if sent_signatures(shorter).contains(sig) {
            let i = choose|i: int|
                0 <= i < shorter.len() && (#[trigger] shorter[i]) is Some && signatures(
                    shorter[i]->0@,
                ).contains(sig);
            assert(sent[i] is Some && signatures(sent[i]->0@).contains(sig));
        }
        if sent.last() is Some && signatures(sent.last()->0@).contains(sig) {
            assert(sent[sent.len() - 1] is Some);
        }
        assert forall|i: int|
            0 <= i < sent.len() && (#[trigger] sent[i]) is Some && signatures(
                sent[i]->0@,
            ).contains(sig) implies sent_signatures(sent).contains(sig) by {
            if i < shorter.len() {
                assert(shorter[i] is Some && signatures(shorter[i]->0@).contains(sig));
            }
        }
    }
}

/// A refused transaction costs no bundle: the sender that goes on from the error
/// has as many bundles as before, those ahead of the refusal with the transaction
/// and those behind it untouched.
pub proof fn lemma_refusal_keeps_bundles<B, F: Fn(B) -> Result<B, BundleError<B>>>(
    before: MultiBundleSender<B>,
    take_in: F,
    e: MultiBundleError<B>,
    builders: Vec<B>,
    after: MultiBundleSender<B>,
)
    requires
        call_ensures(
            MultiBundleSender::<B>::append::<F>,
            (before, take_in),
            Err::<MultiBundleSender<B>, MultiBundleError<B>>(e),
        ),
        call_ensures(MultiBundleError::<B>::into_builders, (e,), builders),
        call_ensures(MultiBundleSender::<B>::from_builders, (builders,), after),
    ensures
        after.builders@.len() == before.builders@.len(),
        exists|k: int|
            0 <= k < before.builders@.len() && #[trigger] after.builders@.skip(k + 1)
                == before.builders@.skip(k + 1) && grown(
                take_in,
                before.builders@.take(k),
                after.builders@.take(k),
            ),
{
}

} // verus!
