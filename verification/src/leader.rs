//! What is known of a slot's leader, and the route that follows from it.

use crate::fifo::FIFO_LEADERS;
use crate::key::{same_bytes, Pubkey};
use std::sync::Arc;
use vstd::prelude::*;

verus! {

/// Vote accounts of the leaders that rank by tip alone.
pub const TIP_ONLY_LEADERS: [[u8; 32]; 10] = [
    // HEL1USMZKAL2odpNBj2oCjffnFGaYwmbGmyewGv1e2TU
    [
        241, 37, 8, 175, 167, 7, 31, 236, 95, 212, 127, 103, 22, 157, 180, 249,
        110, 181, 155, 27, 90, 236, 3, 10, 69, 79, 17, 144, 23, 13, 166, 203,
    ],
    // E1r4Psq84tHfQ6aPTvvDka4U3u8zPVD7gEUrH25RdxHL
    [
        193, 95, 102, 147, 210, 11, 19, 201, 90, 43, 116, 55, 92, 80, 243, 115,
        19, 70, 145, 206, 117, 126, 249, 16, 51, 125, 99, 84, 70, 38, 221, 79,
    ],
    // Fd7btgySsrjuo25CJCj7oE7VPMyezDhnx7pZkj2v69Nk
    [
        217, 67, 253, 146, 137, 104, 16, 238, 130, 112, 132, 79, 28, 13, 217, 138,
        30, 180, 70, 52, 28, 225, 118, 63, 219, 155, 189, 233, 186, 124, 138, 197,
    ],
    // 5pPRHniefFjkiaArbGX3Y8NUysJmQ9tMZg3FrFGwHzSm
    [
        71, 146, 101, 13, 30, 154, 79, 233, 151, 33, 97, 124, 125, 71, 200, 113,
        44, 20, 194, 10, 118, 191, 4, 51, 104, 198, 82, 140, 144, 144, 83, 26,
    ],
    // ACvL73V4GNnxPVfZ7K89jCrYurLyzpEuE9qirjvh2Xmi
    [
        136, 198, 222, 247, 94, 153, 139, 92, 114, 137, 95, 217, 58, 122, 5, 240,
        134, 252, 151, 153, 178, 245, 79, 7, 7, 158, 131, 164, 53, 44, 13, 33,
    ],
    // 8tjFeSApQ85ThoQXT28acfF2KUfQr3TvTdirSkzNnYC7
    [
        117, 66, 52, 110, 99, 156, 102, 189, 117, 65, 185, 186, 241, 140, 86, 124,
        36, 165, 211, 133, 29, 21, 139, 166, 46, 174, 141, 59, 115, 33, 212, 24,
    ],
    // HH5dA42XF1HxNk1TRpG6LuKfLViMYNdAz5iWrFM4hWFi
    [
        241, 217, 130, 237, 185, 149, 191, 202, 65, 229, 13, 159, 152, 6, 109, 121,
        218, 157, 132, 202, 133, 237, 8, 122, 246, 232, 26, 224, 197, 216, 151, 89,
    ],
    // Gv9gguvrAkgQtB5g5a3Un7trcHCxLYsk8vSojLmQMsWV
    [
        236, 124, 231, 247, 142, 114, 100, 124, 19, 168, 47, 201, 237, 160, 220, 172,
        45, 54, 7, 39, 205, 100, 6, 139, 125, 18, 168, 115, 100, 6, 202, 134,
    ],
    // H8fHToVcZPi5bupGZohGPX2SWs8NHzgFKQ31wi5n6oux
    [
        239, 177, 88, 26, 36, 126, 67, 84, 80, 38, 220, 166, 85, 98, 174, 46,
        20, 75, 169, 224, 157, 166, 119, 70, 218, 223, 122, 226, 180, 155, 164, 207,
    ],
    // ChorusmmK7i1AxXeiTtQgQZhQNiXYU84ULeaYF1EH15n
    [
        173, 228, 198, 32, 250, 76, 168, 233, 241, 252, 180, 132, 200, 89, 26, 62,
        96, 62, 91, 21, 85, 23, 100, 128, 227, 83, 235, 69, 40, 132, 193, 101,
    ],
];

/// How a transaction is sent, given the leader of its slot.
#[derive(Debug, Clone, Copy, PartialEq, Eq, Structural)]
pub enum SendRoute {
    /// A Harmonic node leads: Harmonic directly, the other platforms by tip.
    Harmonic,
    /// A Jito node leads: tips only, nothing that bids a compute price alone.
    Jito,
    /// The leader ranks by tip alone: one shot on every platform.
    TipOnly,
    /// Every other leader, known or not: all platforms, in two rounds.
    Fallback,
}

/// What an oracle knows of the leader of a slot.
#[derive(Clone, Copy, Debug)]
pub struct LeaderInfo {
    /// The leader's vote account, where it is known.
    pub leader_pubkey: Option<Pubkey>,
    /// Whether the leader runs a Harmonic client.
    pub is_harmonic: bool,
    /// Whether the leader runs a Jito client.
    pub is_jito: bool,
    /// The id of the client type the leader runs, where it is known.
    pub client_type_id: Option<u16>,
}

/// A source of leader information. Two queries for one slot may differ: a
/// schedule can be refreshed in between.
pub trait SlotOracle {
    /// What is known of the leader of `slot`.
    fn leader_at(&self, slot: u64) -> (r: Option<LeaderInfo>);
}

/// The oracle that knows nothing.
#[derive(Clone, Copy, Debug)]
pub struct NoopOracle;

impl SlotOracle for NoopOracle {
    fn leader_at(&self, slot: u64) -> (r: Option<LeaderInfo>)
        ensures
            r is None,
    {
        None
    }
}

/// A shared oracle knows what the oracle itself knows.
impl<O: SlotOracle> SlotOracle for Arc<O> {
    fn leader_at(&self, slot: u64) -> (r: Option<LeaderInfo>)
        ensures
            call_ensures(O::leader_at, (&**self, slot), r),
    {
        (**self).leader_at(slot)
    }
}

/// Whether an account is on the list of tip-only leaders.
pub open spec fn is_tip_only_leader(account: Seq<u8>) -> bool {
    exists|i: int| 0 <= i < TIP_ONLY_LEADERS@.len() && #[trigger] TIP_ONLY_LEADERS@[i]@ == account
}

/// Whether an account, running the given client type, is on the list of
/// first-come leaders.
pub open spec fn is_first_come_leader(account: Seq<u8>, client_type_id: u16) -> bool {
    exists|i: int|
        0 <= i < FIFO_LEADERS@.len() && #[trigger] FIFO_LEADERS@[i].0@ == account
            && FIFO_LEADERS@[i].1 == client_type_id
}

/// The route that a leader's description calls for: the tip-only list first,
/// then the client family, and the fallback for everything else.
pub open spec fn route_of(info: Option<LeaderInfo>) -> SendRoute {
    match info {
        None => SendRoute::Fallback,
        Some(i) => if i.leader_pubkey is Some && is_tip_only_leader(i.leader_pubkey->0@) {
            SendRoute::TipOnly
        } else if i.is_harmonic {
            SendRoute::Harmonic
        } else if i.is_jito {
            SendRoute::Jito
        } else {
            SendRoute::Fallback
        },
    }
}

/// Whether a leader's description matches the first-come list, by account and
/// client type together.
pub open spec fn first_come(info: Option<LeaderInfo>) -> bool {
    match info {
        None => false,
        Some(i) => i.leader_pubkey is Some && i.client_type_id is Some && is_first_come_leader(
            i.leader_pubkey->0@,
            i.client_type_id->0,
        ),
    }
}

fn on_tip_only_list(account: &Pubkey) -> (r: bool)
    ensures
        r == is_tip_only_leader(account@),
{
    let leaders = TIP_ONLY_LEADERS;
    let mut i: usize = 0;
    while i < leaders.len()
        invariant
            leaders == TIP_ONLY_LEADERS,
            i <= leaders@.len(),
            forall|j: int| 0 <= j < i ==> #[trigger] TIP_ONLY_LEADERS@[j]@ != account@,
        decreases leaders@.len() - i,
    {
        if same_bytes(&leaders[i], &account.bytes) {
            assert(TIP_ONLY_LEADERS@[i as int]@ == account@);
            return true;
        }
        i = i + 1;
    }
    false
}

fn on_first_come_list(account: &Pubkey, client_type_id: u16) -> (r: bool)
    ensures
        r == is_first_come_leader(account@, client_type_id),
{
    let leaders = FIFO_LEADERS;
    let mut i: usize = 0;
    while i < leaders.len()
        invariant
            leaders == FIFO_LEADERS,
            i <= leaders@.len(),
            forall|j: int|
                0 <= j < i && #[trigger] FIFO_LEADERS@[j].0@ == account@ ==> FIFO_LEADERS@[j].1
                    != client_type_id,
        decreases leaders@.len() - i,
    {
        if same_bytes(&leaders[i].0, &account.bytes) && leaders[i].1 == client_type_id {
            assert(FIFO_LEADERS@[i as int].0@ == account@);
            return true;
        }
        i = i + 1;
    }
    false
}

/// The route for a leader as an oracle described it.
pub fn route_for(info: &Option<LeaderInfo>) -> (r: SendRoute)
    ensures
        r == route_of(*info),
{
    if let Some(i) = info {
        if let Some(account) = &i.leader_pubkey {
            if on_tip_only_list(account) {
                return SendRoute::TipOnly;
            }
        }
    }
    match info {
        Some(i) => {
            if i.is_harmonic {
                SendRoute::Harmonic
            } else if i.is_jito {
                SendRoute::Jito
            } else {
                SendRoute::Fallback
            }
        },
        None => SendRoute::Fallback,
    }
}

/// Whether a leader as an oracle described it works first come, first served.
pub fn first_come_for(info: &Option<LeaderInfo>) -> (r: bool)
    ensures
        r == first_come(*info),
{
    if let Some(i) = info {
        if let (Some(account), Some(id)) = (i.leader_pubkey, i.client_type_id) {
            return on_first_come_list(&account, id);
        }
    }
    false
}

} // verus!
