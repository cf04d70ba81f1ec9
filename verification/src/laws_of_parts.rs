//! What the small parts do, told from their arguments and results: tips, prices,
//! clients, the builder and the byte types.

use crate::binary64::{of_bits, F64};
use crate::builder::TxDispacherBuilder;
use crate::context::AddressLookupTableAccount;
use crate::dispatcher::TxDispacher;
use crate::fee::{cu_price_for, if_positive, V1TxConfig};
use crate::key::{same_bytes, Pubkey, Signature, TxHash};
use crate::laws::{height, spread};
use crate::leader::{LeaderInfo, NoopOracle, SlotOracle};
use crate::plan::{Bid, Plan};
use crate::platform::{Client, Platform, QuicFeatures, Roster};
use crate::shares::{asked, bid, no_less, owned, reached};
use crate::strategy::base_bid;
use crate::tip::{max_amount, opt_tip, tip_or_default, TipStrategy};
use std::sync::Arc;
use vstd::prelude::*;

verus! {

// ── Tips and prices ──────────────────────────────────────────────────────────

/// A fixed amount is bid as it is, a ratio as that portion of the minimum.
pub proof fn lemma_compute(strategy: TipStrategy, minimum: u64, r: u64)
    requires
        call_ensures(TipStrategy::compute, (&strategy, minimum), r),
    ensures
        strategy matches TipStrategy::Absolute(n) ==> r == n,
        strategy matches TipStrategy::Ratio(f) ==> r == f.portion_of(minimum),
{
}

/// A fixed amount scales to that portion of it, a ratio to the product of the two.
pub proof fn lemma_scaled(strategy: TipStrategy, factor: F64, r: TipStrategy)
    requires
        call_ensures(TipStrategy::scaled, (strategy, factor), r),
    ensures
        strategy matches TipStrategy::Absolute(n) ==> r == TipStrategy::Absolute(
            factor.portion_of(n),
        ),
        strategy matches TipStrategy::Ratio(f) ==> r == TipStrategy::Ratio(f.product(factor)),
{
}

/// Without a strategy no tip is set. With one it is the bid, or 1.02 times the
/// minimum where that is more.
pub proof fn lemma_opt_tip(strategy: Option<TipStrategy>, minimum: u64, r: Option<u64>)
    requires
        call_ensures(opt_tip, (strategy, minimum), r),
    ensures
        strategy is None <==> r is None,
        strategy is Some ==> {
            let floor = of_bits(0x3FF0_51EB_851E_B852).portion_of(minimum);
            &&& r->0 >= bid(strategy->0, minimum)
            &&& r->0 >= floor
            &&& r->0 == bid(strategy->0, minimum) || r->0 == floor
        },
        r == asked(strategy, minimum),
{
}

/// A default ratio stands in for a missing strategy.
pub proof fn lemma_tip_or_default(
    strategy: Option<TipStrategy>,
    minimum: u64,
    default_ratio: F64,
    r: Option<u64>,
)
    requires
        call_ensures(tip_or_default, (strategy, minimum, default_ratio), r),
    ensures
        strategy is Some ==> r == asked(strategy, minimum),
        strategy is None ==> r == asked(Some(TipStrategy::Ratio(default_ratio)), minimum),
{
}

/// The height of a strategy where there is no minimum to start from.
pub proof fn lemma_base_bid(strategy: Option<TipStrategy>, absent: u64, r: u64)
    requires
        call_ensures(base_bid, (strategy, absent), r),
    ensures
        r == height(strategy, absent),
{
}

/// The larger amount is one of the two, and neither is above it.
pub proof fn lemma_max_amount(a: u64, b: u64, r: u64)
    requires
        call_ensures(max_amount, (a, b), r),
    ensures
        r >= a,
        r >= b,
        r == a || r == b,
{
}

/// A bid on a platform: by strategy, or at least a floor and the minimum.
pub proof fn lemma_bid_tip(offered: Bid, minimum: u64, r: Option<u64>)
    requires
        call_ensures(Bid::tip, (&offered, minimum), r),
    ensures
        offered matches Bid::Strategy(s) ==> r == asked(s, minimum),
        offered matches Bid::AtLeast(n) ==> r == no_less(n, minimum),
{
}

/// A price per unit is the most that keeps the whole within the amount, which is
/// held within `u64` micro-lamports; over no units there is no price.
pub proof fn lemma_cu_price_for(lamports: u64, cu_limit: u32, r: u64)
    requires
        call_ensures(cu_price_for, (lamports, cu_limit), r),
    ensures
        cu_limit == 0 ==> r == 0,
        cu_limit > 0 && lamports * 1_000_000 <= u64::MAX ==> r * cu_limit <= lamports * 1_000_000
            < (r + 1) * cu_limit,
        cu_limit > 0 && lamports * 1_000_000 > u64::MAX ==> r * cu_limit <= u64::MAX < (r + 1)
            * cu_limit,
        r == spread(lamports, cu_limit),
{
    if cu_limit > 0 {
        let d = cu_limit as int;
        let n: int = if lamports * 1_000_000 > u64::MAX {
            u64::MAX as int
        } else {
            lamports * 1_000_000
        };
        assert(0 <= n / d <= n && (n / d) * d <= n < (n / d + 1) * d) by (nonlinear_arith)
            requires
                n >= 0,
                d > 0,
        ;
        assert(r == n / d);
    }
}

/// Zero is not set, and everything else is.
pub proof fn lemma_if_positive(n: u64, r: Option<u64>)
    requires
        call_ensures(if_positive, (n,), r),
    ensures
        n == 0 <==> r is None,
        n > 0 ==> r->0 == n,
{
}

/// A default configuration sets nothing.
pub proof fn lemma_default_config(r: V1TxConfig)
    requires
        call_ensures(V1TxConfig::default, (), r),
    ensures
        r.priority_fee is None,
        r.compute_unit_limit is None,
        r.loaded_accounts_data_size_limit is None,
        r.heap_size is None,
{
}

// ── Clients ──────────────────────────────────────────────────────────────────

/// A platform's client is the one registered for it.
pub proof fn lemma_client(roster: Roster, platform: Platform, r: Option<Client>)
    requires
        call_ensures(Roster::client, (&roster, platform), r),
    ensures
        r == owned(roster, platform),
{
}

/// An HTTP transport has no preferred client where its QUIC counterpart is built
/// in; every other platform has its own.
pub proof fn lemma_preferred_client(roster: Roster, platform: Platform, r: Option<Client>)
    requires
        call_ensures(Roster::preferred_client, (&roster, platform), r),
    ensures
        platform is Astralane && roster.quic.astralane_quic ==> r is None,
        platform is Everstake && roster.quic.everstake_quic ==> r is None,
        r == reached(roster, platform),
{
}

// ── The builder ──────────────────────────────────────────────────────────────

/// Whether two rosters have the same clients but for one platform, and the same
/// transports.
pub open spec fn differs_at(before: Roster, after: Roster, platform: Platform) -> bool {
    &&& after.quic == before.quic
    &&& forall|p: Platform| p != platform ==> #[trigger] owned(after, p) == owned(before, p)
}

/// A builder starts without clients and without QUIC transports.
pub proof fn lemma_builder<O: SlotOracle>(oracle: O, r: TxDispacherBuilder<O>)
    requires
        call_ensures(TxDispacher::<O>::builder, (oracle,), r) || call_ensures(
            TxDispacherBuilder::<O>::new,
            (oracle,),
            r,
        ),
    ensures
        r.oracle == oracle,
        !r.roster.quic.astralane_quic,
        !r.roster.quic.everstake_quic,
        forall|p: Platform| #[trigger] owned(r.roster, p) is None,
{
}

/// Taking transports into use changes no client.
pub proof fn lemma_transports<O: SlotOracle>(
    b: TxDispacherBuilder<O>,
    quic: QuicFeatures,
    r: TxDispacherBuilder<O>,
)
    requires
        call_ensures(TxDispacherBuilder::<O>::transports, (b, quic), r),
    ensures
        r.oracle == b.oracle,
        r.roster.quic == quic,
        forall|p: Platform| #[trigger] owned(r.roster, p) == owned(b.roster, p),
{
}

/// A dispatcher has the oracle and the clients of its builder.
pub proof fn lemma_build<O: SlotOracle>(b: TxDispacherBuilder<O>, r: TxDispacher<O>)
    requires
        call_ensures(TxDispacherBuilder::<O>::build, (b,), r),
    ensures
        r.oracle == b.oracle,
        r.roster.quic == b.roster.quic,
        forall|p: Platform| #[trigger] owned(r.roster, p) == owned(b.roster, p),
{
}

/// Registering Helius sets its two tiers and nothing else.
pub proof fn lemma_register_helius<O: SlotOracle>(
    b: TxDispacherBuilder<O>,
    max: Option<Client>,
    swqos: Option<Client>,
    r: TxDispacherBuilder<O>,
)
    requires
        call_ensures(TxDispacherBuilder::<O>::helius, (b, max, swqos), r),
    ensures
        r.oracle == b.oracle,
        r.roster.quic == b.roster.quic,
        owned(r.roster, Platform::HeliusMax) == max,
        owned(r.roster, Platform::HeliusSwqos) == swqos,
        forall|p: Platform|
            !(p is HeliusMax) && !(p is HeliusSwqos) ==> #[trigger] owned(r.roster, p) == owned(
                b.roster,
                p,
            ),
{
}

/// Registering a client for `Astralane` replaces that platform's client and no other.
pub proof fn lemma_register_astralane<O: SlotOracle>(
    b: TxDispacherBuilder<O>,
    c: Client,
    r: TxDispacherBuilder<O>,
)
    requires
        call_ensures(TxDispacherBuilder::<O>::astralane, (b, c), r),
    ensures
        r.oracle == b.oracle,
        owned(r.roster, Platform::Astralane) == Some(c),
        differs_at(b.roster, r.roster, Platform::Astralane),
{
}

/// Registering a client for `AstralaneQuic` replaces that platform's client and no other.
pub proof fn lemma_register_astralane_quic<O: SlotOracle>(
    b: TxDispacherBuilder<O>,
    c: Client,
    r: TxDispacherBuilder<O>,
)
    requires
        call_ensures(TxDispacherBuilder::<O>::astralane_quic, (b, c), r),
    ensures
        r.oracle == b.oracle,
        owned(r.roster, Platform::AstralaneQuic) == Some(c),
        differs_at(b.roster, r.roster, Platform::AstralaneQuic),
{
}

/// Registering a client for `Everstake` replaces that platform's client and no other.
pub proof fn lemma_register_everstake<O: SlotOracle>(
    b: TxDispacherBuilder<O>,
    c: Client,
    r: TxDispacherBuilder<O>,
)
    requires
        call_ensures(TxDispacherBuilder::<O>::everstake, (b, c), r),
    ensures
        r.oracle == b.oracle,
        owned(r.roster, Platform::Everstake) == Some(c),
        differs_at(b.roster, r.roster, Platform::Everstake),
{
}

/// Registering a client for `EverstakeQuic` replaces that platform's client and no other.
pub proof fn lemma_register_everstake_quic<O: SlotOracle>(
    b: TxDispacherBuilder<O>,
    c: Client,
    r: TxDispacherBuilder<O>,
)
    requires
        call_ensures(TxDispacherBuilder::<O>::everstake_quic, (b, c), r),
    ensures
        r.oracle == b.oracle,
        owned(r.roster, Platform::EverstakeQuic) == Some(c),
        differs_at(b.roster, r.roster, Platform::EverstakeQuic),
{
}

/// Registering a client for `FlashBlock` replaces that platform's client and no other.
pub proof fn lemma_register_flash_block<O: SlotOracle>(
    b: TxDispacherBuilder<O>,
    c: Client,
    r: TxDispacherBuilder<O>,
)
    requires
        call_ensures(TxDispacherBuilder::<O>::flash_block, (b, c), r),
    ensures
        r.oracle == b.oracle,
        owned(r.roster, Platform::FlashBlock) == Some(c),
        differs_at(b.roster, r.roster, Platform::FlashBlock),
{
}

/// Registering a client for `NodeOne` replaces that platform's client and no other.
pub proof fn lemma_register_nodeone<O: SlotOracle>(
    b: TxDispacherBuilder<O>,
    c: Client,
    r: TxDispacherBuilder<O>,
)
    requires
        call_ensures(TxDispacherBuilder::<O>::nodeone, (b, c), r),
    ensures
        r.oracle == b.oracle,
        owned(r.roster, Platform::NodeOne) == Some(c),
        differs_at(b.roster, r.roster, Platform::NodeOne),
{
}

/// Registering a client for `Blockrazor` replaces that platform's client and no other.
pub proof fn lemma_register_blockrazor<O: SlotOracle>(
    b: TxDispacherBuilder<O>,
    c: Client,
    r: TxDispacherBuilder<O>,
)
    requires
        call_ensures(TxDispacherBuilder::<O>::blockrazor, (b, c), r),
    ensures
        r.oracle == b.oracle,
        owned(r.roster, Platform::Blockrazor) == Some(c),
        differs_at(b.roster, r.roster, Platform::Blockrazor),
{
}

/// Registering a client for `Temporal` replaces that platform's client and no other.
pub proof fn lemma_register_temporal<O: SlotOracle>(
    b: TxDispacherBuilder<O>,
    c: Client,
    r: TxDispacherBuilder<O>,
)
    requires
        call_ensures(TxDispacherBuilder::<O>::temporal, (b, c), r),
    ensures
        r.oracle == b.oracle,
        owned(r.roster, Platform::Temporal) == Some(c),
        differs_at(b.roster, r.roster, Platform::Temporal),
{
}

/// Registering a client for `ZeroSlot` replaces that platform's client and no other.
pub proof fn lemma_register_zeroslot<O: SlotOracle>(
    b: TxDispacherBuilder<O>,
    c: Client,
    r: TxDispacherBuilder<O>,
)
    requires
        call_ensures(TxDispacherBuilder::<O>::zeroslot, (b, c), r),
    ensures
        r.oracle == b.oracle,
        owned(r.roster, Platform::ZeroSlot) == Some(c),
        differs_at(b.roster, r.roster, Platform::ZeroSlot),
{
}

/// Registering a client for `NextBlock` replaces that platform's client and no other.
pub proof fn lemma_register_nextblock<O: SlotOracle>(
    b: TxDispacherBuilder<O>,
    c: Client,
    r: TxDispacherBuilder<O>,
)
    requires
        call_ensures(TxDispacherBuilder::<O>::nextblock, (b, c), r),
    ensures
        r.oracle == b.oracle,
        owned(r.roster, Platform::NextBlock) == Some(c),
        differs_at(b.roster, r.roster, Platform::NextBlock),
{
}

/// Registering a client for `Stellium` replaces that platform's client and no other.
pub proof fn lemma_register_stellium<O: SlotOracle>(
    b: TxDispacherBuilder<O>,
    c: Client,
    r: TxDispacherBuilder<O>,
)
    requires
        call_ensures(TxDispacherBuilder::<O>::stellium, (b, c), r),
    ensures
        r.oracle == b.oracle,
        owned(r.roster, Platform::Stellium) == Some(c),
        differs_at(b.roster, r.roster, Platform::Stellium),
{
}

/// Registering a client for `Jito` replaces that platform's client and no other.
pub proof fn lemma_register_jito<O: SlotOracle>(
    b: TxDispacherBuilder<O>,
    c: Client,
    r: TxDispacherBuilder<O>,
)
    requires
        call_ensures(TxDispacherBuilder::<O>::jito, (b, c), r),
    ensures
        r.oracle == b.oracle,
        owned(r.roster, Platform::Jito) == Some(c),
        differs_at(b.roster, r.roster, Platform::Jito),
{
}

/// Registering a client for `Harmonic` replaces that platform's client and no other.
pub proof fn lemma_register_harmonic<O: SlotOracle>(
    b: TxDispacherBuilder<O>,
    c: Client,
    r: TxDispacherBuilder<O>,
)
    requires
        call_ensures(TxDispacherBuilder::<O>::harmonic, (b, c), r),
    ensures
        r.oracle == b.oracle,
        owned(r.roster, Platform::Harmonic) == Some(c),
        differs_at(b.roster, r.roster, Platform::Harmonic),
{
}

// ── Oracles ──────────────────────────────────────────────────────────────────

/// The oracle that knows nothing never describes a leader.
pub proof fn lemma_noop_oracle(oracle: NoopOracle, slot: u64, r: Option<LeaderInfo>)
    requires
        call_ensures(NoopOracle::leader_at, (&oracle, slot), r),
    ensures
        r is None,
{
}

/// A shared oracle says what the oracle itself may say.
pub proof fn lemma_shared_oracle<O: SlotOracle>(oracle: Arc<O>, slot: u64, r: Option<LeaderInfo>)
    requires
        call_ensures(Arc::<O>::leader_at, (&oracle, slot), r),
    ensures
        call_ensures(O::leader_at, (&*oracle, slot), r),
{
}

// ── Byte types and views ─────────────────────────────────────────────────────

/// Two keys are the same where all their bytes are.
pub proof fn lemma_same_bytes(a: [u8; 32], b: [u8; 32], r: bool)
    requires
        call_ensures(same_bytes, (&a, &b), r),
    ensures
        r <==> forall|i: int| 0 <= i < 32 ==> #[trigger] a@[i] == b@[i],
{
    if forall|i: int| 0 <= i < 32 ==> #[trigger] a@[i] == b@[i] {
        assert(a@ =~= b@);
    }
}

/// The views show all there is.
pub proof fn lemma_views<F>(
    plan: Plan<F>,
    table: AddressLookupTableAccount,
    key: Pubkey,
    hash: TxHash,
    signature: Signature,
)
    ensures
        plan@.direct == plan.direct@,
        plan@.parallel == plan.parallel@,
        table@.key == table.key.bytes@,
        table@.addresses == table.addresses@,
        key@ == key.bytes@,
        hash@ == hash.bytes@,
        signature@ == signature.bytes@,
{
}

} // verus!
