//! The dispatcher: from the leader of a slot to the transactions to send.

use crate::builder::{empty_roster, TxDispacherBuilder};
use crate::bundle::{made_from, MultiBundleSender};
use crate::failure::Attempt;
use crate::fee::{CostConfig, Cu};
use crate::leader::{
    first_come, first_come_for, route_for, route_of, LeaderInfo, SendRoute, SlotOracle,
};
use crate::plan::{Plan, PlanView};
use crate::platform::{Platform, Roster};
use crate::strategy::{
    cheap_plan, cost_plan, dispatch, dispatch_cheap, dispatch_first_come, dispatch_plan,
    dispatch_tip_only, dispatch_with_cost, first_come_plan, tip_only_plan,
};
use crate::tip::TipStrategy;
use vstd::prelude::*;

verus! {

/// A dispatcher that picks its sending strategy by the leader of the slot.
pub struct TxDispacher<O: SlotOracle> {
    pub oracle: O,
    pub roster: Roster,
}

/// The platforms that take bundles, in the order in which they are listed.
pub const BUNDLE_LINEUP: [Platform; 4] = [
    Platform::Jito,
    Platform::Astralane,
    Platform::FlashBlock,
    Platform::HeliusMax,
];

/// The platforms that take bundles and have a client.
pub open spec fn bundle_platforms(roster: Roster) -> Seq<Platform> {
    BUNDLE_LINEUP@.filter(|p: Platform| roster.registered(p) is Some)
}

/// The plan of a send, given the route and whether the leader works first come,
/// first served. On such a leader the caller's tip and price are set aside, and
/// only the limit stays.
pub open spec fn send_plan(
    roster: Roster,
    route: SendRoute,
    fifo: bool,
    tip: Option<TipStrategy>,
    cu: Cu,
) -> PlanView<Cu> {
    if fifo {
        first_come_plan(roster, route, cu.0)
    } else {
        dispatch_plan(roster, route, tip, cu)
    }
}

/// The plan of a send under a single budget, given the route and whether the
/// leader works first come, first served. On such a leader the budget stays
/// unspent.
pub open spec fn send_cost_plan(
    roster: Roster,
    route: SendRoute,
    fifo: bool,
    config: CostConfig,
) -> PlanView<Cu> {
    if fifo {
        first_come_plan(roster, route, Some(config.cu_limit))
    } else {
        cost_plan(roster, route, config)
    }
}

impl<O: SlotOracle> TxDispacher<O> {
    /// Whether the registered clients fit the transports.
    pub open spec fn wf(self) -> bool {
        self.roster.wf()
    }

    /// Whether the oracle may describe the leader of a slot in this way.
    pub open spec fn may_see(self, slot: u64, info: Option<LeaderInfo>) -> bool {
        call_ensures(O::leader_at, (&self.oracle, slot), info)
    }

    /// Whether the oracle may describe the leader of a slot as one that ranks by
    /// tip alone, and as one that does not work first come, first served. A price
    /// is then reckoned from the compute-unit limit.
    pub open spec fn may_need_limit(self, slot: u64) -> bool {
        exists|seen: Option<LeaderInfo>, again: Option<LeaderInfo>| #[trigger]
            self.may_see(slot, seen) && #[trigger] self.may_see(slot, again) && route_of(
                seen,
            ) is TipOnly && !first_come(again)
    }

    /// Starts to build a dispatcher.
    pub fn builder(oracle: O) -> (r: TxDispacherBuilder<O>)
        ensures
            r.oracle == oracle,
            r.roster == empty_roster(),
            r.wf(),
    {
        TxDispacherBuilder::new(oracle)
    }

    /// Starts a bundle on each platform that takes bundles and has a client. `start`
    /// makes the bundle of a platform.
    pub fn bundle_sender<B, F: Fn(Platform) -> B>(&self, start: F) -> (r: MultiBundleSender<B>)
        requires
            forall|i: int|
                0 <= i < bundle_platforms(self.roster).len() ==> call_requires(
                    start,
                    (#[trigger] bundle_platforms(self.roster)[i],),
                ),
        ensures
            made_from(start, bundle_platforms(self.roster), r.builders@),
    {
        let lineup = BUNDLE_LINEUP;
        let ghost listed = |p: Platform| self.roster.registered(p) is Some;
        let mut senders: Vec<Platform> = Vec::new();
        let mut i: usize = 0;
        assert(lineup@.take(0).filter(listed) =~= seq![]) by {
            reveal(Seq::filter);
        }
        while i < lineup.len()
            invariant
                i <= lineup@.len(),
                listed == (|p: Platform| self.roster.registered(p) is Some),
                senders@ == lineup@.take(i as int).filter(listed),
            decreases lineup@.len() - i,
        {
            if self.roster.client(lineup[i]).is_some() {
                senders.push(lineup[i]);
            }
            proof {
                let more = lineup@.take(i + 1);
                reveal(Seq::filter);
                assert(more.drop_last() =~= lineup@.take(i as int));
                assert(more.last() == lineup@[i as int]);
            }
            i = i + 1;
        }
        assert(lineup@.take(i as int) =~= lineup@);
        assert(senders@ == bundle_platforms(self.roster));
        assert forall|j: int| 0 <= j < senders@.len() implies call_requires(
            start,
            (#[trigger] senders@[j],),
        ) by {
            assert(senders@[j] == bundle_platforms(self.roster)[j]);
        }
        MultiBundleSender::new(senders, start)
    }

    /// The route for a slot, as the oracle describes its leader. Nothing is sent.
    pub fn resolve_route(&self, target_slot: u64) -> (r: SendRoute)
        ensures
            exists|info: Option<LeaderInfo>| #[trigger]
                self.may_see(target_slot, info) && r == route_of(info),
    {
        let info = self.oracle.leader_at(target_slot);
        assert(self.may_see(target_slot, info));
        route_for(&info)
    }

    /// Whether the leader of a slot works first come, first served, as the oracle
    /// describes it.
    pub fn is_fifo_leader(&self, slot: u64) -> (r: bool)
        ensures
            exists|info: Option<LeaderInfo>| #[trigger]
                self.may_see(slot, info) && r == first_come(info),
    {
        let info = self.oracle.leader_at(slot);
        assert(self.may_see(slot, info));
        first_come_for(&info)
    }

    /// Plans a send for a known kind of leader.
    pub fn send_on(
        &self,
        route: SendRoute,
        fifo: bool,
        tip_strategy: Option<TipStrategy>,
        cu: Cu,
    ) -> (r: Plan<Cu>)
        requires
            route is TipOnly && !fifo ==> cu.0 != Some(0u32),
        ensures
            r@ == send_plan(self.roster, route, fifo, tip_strategy, cu),
    {
        if fifo {
            dispatch_first_come(&self.roster, route, cu.0)
        } else {
            dispatch(&self.roster, route, tip_strategy, cu)
        }
    }

    /// Plans a send for the leader of `target_slot`.
    ///
    /// The slot is the one in which the transaction is meant to land. The oracle
    /// is asked twice, for the route and for the first-come list, and the plan
    /// follows the two answers.
    pub fn send(
        &self,
        target_slot: u64,
        tip_strategy: Option<TipStrategy>,
        cu: Cu,
    ) -> (r: Plan<Cu>)
        requires
            self.may_need_limit(target_slot) ==> cu.0 != Some(0u32),
        ensures
            exists|seen: Option<LeaderInfo>, again: Option<LeaderInfo>| #[trigger]
                self.may_see(target_slot, seen) && #[trigger] self.may_see(target_slot, again)
                    && r@ == send_plan(
                    self.roster,
                    route_of(seen),
                    first_come(again),
                    tip_strategy,
                    cu,
                ),
    {
        let route = self.resolve_route(target_slot);
        let fifo: bool = self.is_fifo_leader(target_slot);
        self.send_on(route, fifo, tip_strategy, cu)
    }

    /// Plans a low-cost send: no routing, a few platforms, one round. Suited to
    /// transactions that are in no hurry.
    pub fn send_cheap(&self, tip_strategy: Option<TipStrategy>, cu: Cu) -> (r: Plan<Cu>)
        ensures
            r@ == cheap_plan(self.roster, tip_strategy, cu),
    {
        dispatch_cheap(&self.roster, tip_strategy, cu)
    }

    /// Plans a send that bids by tip only, for the leader of `target_slot`. Every
    /// tip is at least `min_tip_floor` and at least the platform's minimum.
    pub fn send_tip_only(
        &self,
        target_slot: u64,
        min_tip_floor: u64,
        cu_limit: u32,
    ) -> (r: Plan<Cu>)
        ensures
            exists|seen: Option<LeaderInfo>| #[trigger]
                self.may_see(target_slot, seen) && r@ == tip_only_plan(
                    self.roster,
                    route_of(seen),
                    min_tip_floor,
                    cu_limit,
                ),
    {
        let (plan, _) = self.send_tip_only_attempt(target_slot, min_tip_floor, cu_limit);
        plan
    }

    /// The same, with the attempt that a failure is reported under: both follow
    /// the same description of the leader.
    pub fn send_tip_only_attempt(
        &self,
        target_slot: u64,
        min_tip_floor: u64,
        cu_limit: u32,
    ) -> (r: (Plan<Cu>, Attempt))
        ensures
            exists|seen: Option<LeaderInfo>| #[trigger]
                self.may_see(target_slot, seen) && r.0@ == tip_only_plan(
                    self.roster,
                    route_of(seen),
                    min_tip_floor,
                    cu_limit,
                ) && r.1 == Attempt::TipOnly(route_of(seen)),
    {
        let route = self.resolve_route(target_slot);
        let plan = dispatch_tip_only(&self.roster, route, min_tip_floor, cu_limit);
        (plan, Attempt::TipOnly(route))
    }

    /// Plans a send under a single budget for a known kind of leader.
    pub fn send_with_cost_on(
        &self,
        route: SendRoute,
        fifo: bool,
        config: CostConfig,
    ) -> (r: Plan<Cu>)
        requires
            route is TipOnly && !fifo ==> config.cu_limit != 0,
        ensures
            r@ == send_cost_plan(self.roster, route, fifo, config),
    {
        if fifo {
            dispatch_first_come(&self.roster, route, Some(config.cu_limit))
        } else {
            dispatch_with_cost(&self.roster, route, config)
        }
    }

    /// Plans a send under a single budget, for the leader of `target_slot`.
    ///
    /// The routing is that of [`TxDispacher::send`].
    pub fn send_with_cost(&self, target_slot: u64, config: CostConfig) -> (r: Plan<Cu>)
        requires
            self.may_need_limit(target_slot) ==> config.cu_limit != 0,
        ensures
            exists|seen: Option<LeaderInfo>, again: Option<LeaderInfo>| #[trigger]
                self.may_see(target_slot, seen) && #[trigger] self.may_see(target_slot, again)
                    && r@ == send_cost_plan(
                    self.roster,
                    route_of(seen),
                    first_come(again),
                    config,
                ),
    {
        let route = self.resolve_route(target_slot);
        let fifo: bool = self.is_fifo_leader(target_slot);
        self.send_with_cost_on(route, fifo, config)
    }
}

} // verus!
