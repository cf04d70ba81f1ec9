//! What a transaction offers for execution: compute limits and priority fees.

use crate::binary64::F64;
use vstd::prelude::*;

verus! {

/// Micro-lamports in a lamport.
pub const MICRO: u64 = 1_000_000;

/// The compute-unit limit and the price per unit, in micro-lamports, of a
/// version 0 transaction. What is absent is not set.
pub type Cu = (Option<u32>, Option<u64>);

/// The configuration of a version 1 transaction. Its priority fee is a total in
/// lamports, not a price per unit.
#[derive(Clone, Copy, Debug, PartialEq, Eq, Structural)]
pub struct V1TxConfig {
    pub priority_fee: Option<u64>,
    pub compute_unit_limit: Option<u32>,
    pub loaded_accounts_data_size_limit: Option<u32>,
    pub heap_size: Option<u32>,
}

impl Default for V1TxConfig {
    fn default() -> (r: Self)
        ensures
            r.priority_fee is None,
            r.compute_unit_limit is None,
            r.loaded_accounts_data_size_limit is None,
            r.heap_size is None,
    {
        V1TxConfig {
            priority_fee: None,
            compute_unit_limit: None,
            loaded_accounts_data_size_limit: None,
            heap_size: None,
        }
    }
}

impl V1TxConfig {
    /// The same configuration with another priority fee.
    pub open spec fn with_fee(self, priority_fee: Option<u64>) -> V1TxConfig {
        V1TxConfig { priority_fee, ..self }
    }

    /// The same configuration with another priority fee.
    pub fn paying(self, priority_fee: Option<u64>) -> (r: V1TxConfig)
        ensures
            r == self.with_fee(priority_fee),
    {
        V1TxConfig {
            priority_fee,
            compute_unit_limit: self.compute_unit_limit,
            loaded_accounts_data_size_limit: self.loaded_accounts_data_size_limit,
            heap_size: self.heap_size,
        }
    }
}

/// A single budget for a version 0 send.
///
/// The budget is what one transaction may bid in all. Where a platform ranks by
/// compute price it becomes a price, and the tip stays at `tip_rate`; where it
/// ranks by tip it becomes the tip. Both variants go out on one nonce, so only
/// one of them can land and each may spend the whole budget.
#[derive(Clone, Copy, Debug)]
pub struct CostConfig {
    /// The budget, in lamports.
    pub cost_amount: u64,
    /// The compute-unit limit that turns the budget into a price.
    pub cu_limit: u32,
    /// The multiple of a platform's minimum tip that a priced transaction pays.
    pub tip_rate: F64,
}

/// A single budget for a version 1 send.
#[derive(Clone, Copy, Debug)]
pub struct CostTxConfig {
    /// The budget, in lamports.
    pub cost: u64,
    /// The compute-unit limit.
    pub cu_limit: u32,
    /// The multiple of a platform's minimum tip that a priced transaction pays.
    pub tip_rate: F64,
}

impl CostTxConfig {
    /// The configuration that spends the budget as a priority fee.
    pub open spec fn fee_config(self) -> V1TxConfig {
        V1TxConfig {
            priority_fee: Some(self.cost),
            compute_unit_limit: Some(self.cu_limit),
            loaded_accounts_data_size_limit: None,
            heap_size: None,
        }
    }

    /// The configuration that leaves the budget to the tip.
    pub open spec fn tip_channel_config(self) -> V1TxConfig {
        self.fee_config().with_fee(None)
    }

    /// The configuration that spends the budget as a priority fee.
    pub fn as_fee_config(&self) -> (r: V1TxConfig)
        ensures
            r == self.fee_config(),
    {
        V1TxConfig {
            priority_fee: Some(self.cost),
            compute_unit_limit: Some(self.cu_limit),
            loaded_accounts_data_size_limit: None,
            heap_size: None,
        }
    }

    /// The configuration that leaves the budget to the tip.
    pub fn as_tip_channel_config(&self) -> (r: V1TxConfig)
        ensures
            r == self.tip_channel_config(),
    {
        self.as_fee_config().paying(None)
    }
}

/// The price per compute unit that spends `lamports` over `cu_limit` units,
/// rounded down; the amount in micro-lamports is clamped to `u64` first. A limit
/// of zero gives no price.
pub open spec fn price_of(lamports: u64, cu_limit: u32) -> u64 {
    if cu_limit == 0 {
        0
    } else if lamports * MICRO > u64::MAX {
        (u64::MAX / cu_limit as u64) as u64
    } else {
        ((lamports * MICRO) / cu_limit as int) as u64
    }
}

/// The price per compute unit that spends `lamports` over `cu_limit` units.
pub fn cu_price_for(lamports: u64, cu_limit: u32) -> (r: u64)
    ensures
        r == price_of(lamports, cu_limit),
{
    if cu_limit > 0 {
        let micro: u64 = match lamports.checked_mul(MICRO) {
            Some(m) => m,
            None => u64::MAX,
        };
        micro / cu_limit as u64
    } else {
        0
    }
}

/// An amount of zero is not set.
pub open spec fn positive(n: u64) -> Option<u64> {
    if n > 0 {
        Some(n)
    } else {
        None
    }
}

/// An amount of zero is not set.
pub fn if_positive(n: u64) -> (r: Option<u64>)
    ensures
        r == positive(n),
{
    if n > 0 {
        Some(n)
    } else {
        None
    }
}

/// A price that stands for an amount never costs more than the amount: over the
/// whole compute-unit limit it comes to at most that many lamports.
pub proof fn lemma_price_within_amount(lamports: u64, cu_limit: u32)
    ensures
        price_of(lamports, cu_limit) * cu_limit <= lamports * MICRO,
{
    if cu_limit > 0 {
        let d = cu_limit as int;
        let n: int = if lamports * MICRO > u64::MAX {
            u64::MAX as int
        } else {
            lamports * MICRO
        };
        assert(0 <= n / d <= n && (n / d) * d <= n) by (nonlinear_arith)
            requires
                n >= 0,
                d > 0,
        ;
    }
}

/// A price that stands for an amount loses less than one micro-lamport per unit
/// to rounding, as long as the amount in micro-lamports fits in `u64`.
pub proof fn lemma_price_spends_amount(lamports: u64, cu_limit: u32)
    requires
        cu_limit > 0,
        lamports * MICRO <= u64::MAX,
    ensures
        lamports * MICRO - price_of(lamports, cu_limit) * cu_limit < cu_limit,
{
    let d = cu_limit as int;
    let n: int = lamports * MICRO;
    assert(0 <= n / d <= n && n - (n / d) * d < d) by (nonlinear_arith)
        requires
            n >= 0,
            d > 0,
    ;
}

} // verus!
