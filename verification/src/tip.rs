//! Tip amounts: what a strategy bids on a platform, and the floor under every bid.

use crate::binary64::{
    kept_digits, lemma_nearest_bounds, lemma_nearest_integer_exact, lemma_nearest_relative_error,
    lemma_portion_at_least, lemma_portion_at_most, nearest, nearest_integer, of_bits, F64,
};
use crate::rounding::{
    bit_len, lemma_bit_len_at_least, lemma_bit_len_at_most, lemma_bit_len_bounds,
    lemma_bit_len_shift, lemma_pow2_monotone,
};
use vstd::arithmetic::div_mod::{
    lemma_div_by_multiple, lemma_div_is_ordered, lemma_fundamental_div_mod,
};
use vstd::arithmetic::power2::{
    lemma2_to64_rest, lemma_pow2_adds, lemma_pow2_pos, lemma_pow2_unfold, pow2,
};
use vstd::prelude::*;

verus! {

/// 1.02, the least multiple of a platform's minimum that an explicit bid pays.
pub const FLOOR_RATIO: u64 = 0x3FF0_51EB_851E_B852;

/// How a tip is computed from a platform's minimum.
#[derive(Clone, Copy, Debug)]
pub enum TipStrategy {
    /// A fixed amount, in lamports.
    Absolute(u64),
    /// A multiple of the platform's minimum tip (0.9 is 90%, 1.1 is 110%).
    Ratio(F64),
}

impl TipStrategy {
    /// The bid on a platform that asks for at least `platform_min` lamports.
    pub open spec fn amount(self, platform_min: u64) -> u64 {
        match self {
            TipStrategy::Absolute(n) => n,
            TipStrategy::Ratio(r) => r.portion_of(platform_min),
        }
    }

    /// The strategy whose bids are `factor` times these.
    pub open spec fn times(self, factor: F64) -> TipStrategy {
        match self {
            TipStrategy::Absolute(n) => TipStrategy::Absolute(factor.portion_of(n)),
            TipStrategy::Ratio(r) => TipStrategy::Ratio(r.product(factor)),
        }
    }

    /// The bid on a platform that asks for at least `platform_min` lamports.
    pub fn compute(&self, platform_min: u64) -> (r: u64)
        ensures
            r == self.amount(platform_min),
    {
        match self {
            TipStrategy::Absolute(amt) => *amt,
            TipStrategy::Ratio(r) => r.portion(platform_min),
        }
    }

    /// The strategy scaled by `factor`.
    ///
    /// `Absolute(n).scaled(f)` is `Absolute(n * f)`, and `Ratio(r).scaled(f)` is
    /// `Ratio(r * f)`.
    pub fn scaled(self, factor: F64) -> (r: TipStrategy)
        ensures
            r == self.times(factor),
    {
        match self {
            TipStrategy::Absolute(n) => TipStrategy::Absolute(factor.portion(n)),
            TipStrategy::Ratio(r) => TipStrategy::Ratio(r.times(factor)),
        }
    }
}

/// The larger of two amounts.
pub open spec fn larger(a: u64, b: u64) -> u64 {
    if a >= b {
        a
    } else {
        b
    }
}

/// The larger of two amounts.
pub fn max_amount(a: u64, b: u64) -> (r: u64)
    ensures
        r == larger(a, b),
{
    if a >= b {
        a
    } else {
        b
    }
}

/// The floor under every explicit bid: 1.02 times the platform's minimum.
pub open spec fn tip_floor(platform_min: u64) -> u64 {
    of_bits(FLOOR_RATIO).portion_of(platform_min)
}

/// What an optional strategy pays: nothing explicit without one, else its bid
/// raised to the floor.
pub open spec fn explicit_tip(strategy: Option<TipStrategy>, platform_min: u64) -> Option<u64> {
    match strategy {
        None => None,
        Some(s) => Some(larger(s.amount(platform_min), tip_floor(platform_min))),
    }
}

/// The tip to attach for an optional strategy.
///
/// Without a strategy there is no explicit tip and the platform's own default
/// applies. With one, the bid is raised to 1.02 times the platform's minimum.
pub fn opt_tip(strategy: Option<TipStrategy>, platform_min: u64) -> (r: Option<u64>)
    ensures
        r == explicit_tip(strategy, platform_min),
{
    let floor: u64 = F64::from_bits(FLOOR_RATIO).portion(platform_min);
    match strategy {
        None => None,
        Some(s) => Some(max_amount(s.compute(platform_min), floor)),
    }
}

/// The tip to attach, with a default ratio where no strategy is given. The
/// result is never below 1.02 times the platform's minimum.
pub fn tip_or_default(
    strategy: Option<TipStrategy>,
    platform_min: u64,
    default_ratio: F64,
) -> (r: Option<u64>)
    ensures
        strategy is Some ==> r == explicit_tip(strategy, platform_min),
        strategy is None ==> r == explicit_tip(
            Some(TipStrategy::Ratio(default_ratio)),
            platform_min,
        ),
{
    let floor: u64 = F64::from_bits(FLOOR_RATIO).portion(platform_min);
    Some(
        match strategy {
            Some(s) => max_amount(s.compute(platform_min), floor),
            None => max_amount(default_ratio.portion(platform_min), floor),
        },
    )
}

/// A ratio bids nothing where there is no minimum to start from.
pub proof fn lemma_ratio_of_nothing(r: F64)
    ensures
        TipStrategy::Ratio(r).amount(0) == 0,
{
    lemma2_to64_rest();
    if r.is_finite() {
        assert(0 * r.magnitude() <= 0 * pow2(1074)) by (nonlinear_arith);
        lemma_portion_at_most(r, 0, 0);
    }
}

/// Where a ratio of the minimum comes to a whole number of lamports, that number
/// is the bid, as long as both are below `2^53`.
pub proof fn lemma_ratio_is_exact(r: F64, platform_min: u64, lamports: nat)
    requires
        r.is_finite(),
        !r.negative(),
        platform_min < 0x20_0000_0000_0000,
        lamports < 0x20_0000_0000_0000,
        platform_min * r.magnitude() == lamports * pow2(1074),
    ensures
        TipStrategy::Ratio(r).amount(platform_min) == lamports,
{
    lemma2_to64_rest();
    lemma_portion_at_most(r, platform_min, lamports);
    lemma_portion_at_least(r, platform_min, lamports);
}

/// The value of 1.02 as a binary64 number.
proof fn lemma_floor_ratio()
    ensures
        of_bits(FLOOR_RATIO).is_finite(),
        !of_bits(FLOOR_RATIO).negative(),
        of_bits(FLOOR_RATIO).magnitude() == 0x10_51EB_851E_B852 * pow2(1022),
{
    let f = of_bits(FLOOR_RATIO);
    assert(f.exponent() == 1023);
    assert(f.fraction() == 0x0_51EB_851E_B852);
}

/// An explicit tip is at least the platform's minimum plus two percent, rounded
/// down to a lamport, as long as the minimum is below `2^53` lamports.
pub proof fn lemma_floor_adds_two_percent(platform_min: u64)
    requires
        platform_min < 0x20_0000_0000_0000,
    ensures
        tip_floor(platform_min) >= 102 * platform_min / 100,
{
    lemma_floor_ratio();
    lemma2_to64_rest();
    let sig: nat = 0x10_51EB_851E_B852;
    let k = (102 * platform_min / 100) as nat;
    lemma_pow2_adds(52, 1022);
    let u = pow2(1022);
    if k < 0x20_0000_0000_0000 {
        assert(platform_min * (sig * u) >= k * (0x10_0000_0000_0000 * u)) by (nonlinear_arith)
            requires
                100 * k <= 102 * platform_min,
                100 * sig >= 102 * 0x10_0000_0000_0000,
                u >= 0,
        ;
        lemma_portion_at_least(of_bits(FLOOR_RATIO), platform_min, k);
    } else {
        lemma_wide_floor(platform_min, k);
    }
}

/// Above `2^53` only every other integer is a binary64 number. The floor ratio is
/// a little above 1.02, so that an odd number of lamports is rounded up.
proof fn lemma_wide_floor(platform_min: u64, k: nat)
    requires
        platform_min < 0x20_0000_0000_0000,
        k == 102 * platform_min / 100,
        k >= 0x20_0000_0000_0000,
    ensures
        tip_floor(platform_min) >= k,
{
    lemma_floor_ratio();
    lemma2_to64_rest();
    let sig: nat = 0x10_51EB_851E_B852;
    let m = platform_min as nat;
    let u = pow2(1022);
    let p = pow2(1074);
    let w = pow2(2148);
    let y = nearest_integer(m) * of_bits(FLOOR_RATIO).magnitude();
    lemma_pow2_pos(1022);
    lemma_pow2_pos(1074);
    lemma_pow2_adds(52, 1022);
    lemma_pow2_adds(1074, 1074);
    lemma_pow2_adds(53, 2148);
    lemma_pow2_adds(54, 2148);
    lemma_pow2_unfold(1075);
    lemma_pow2_unfold(2149);
    lemma_nearest_integer_exact(m);
    let e = u * p;
    assert(y == (m * sig) * e) by (nonlinear_arith)
        requires
            y == (m * p) * (sig * u),
            e == u * p,
    ;
    assert(w == 0x10_0000_0000_0000 * e) by (nonlinear_arith)
        requires
            w == p * p,
            p == 0x10_0000_0000_0000 * u,
            e == u * p,
    ;
    assert(e > 0) by (nonlinear_arith)
        requires
            u > 0,
            p > 0,
            e == u * p,
    ;
    assert(k * w < y < 0x40_0000_0000_0000 * w) by (nonlinear_arith)
        requires
            y == (m * sig) * e,
            w == 0x10_0000_0000_0000 * e,
            e > 0,
            m * sig > k * 0x10_0000_0000_0000,
            m * sig < 0x40_0000_0000_0000 * 0x10_0000_0000_0000,
    ;
    assert(0x20_0000_0000_0000 * w <= k * w) by (nonlinear_arith)
        requires
            k >= 0x20_0000_0000_0000,
            w >= 0,
    ;
    lemma_bit_len_at_least(y, 2201);
    lemma_bit_len_at_most(y, 2202);
    let d = pow2(2149);
    let q = y / d;
    let r = y % d;
    lemma_fundamental_div_mod(y as int, d as int);
    assert(2 * q + 1 >= k) by (nonlinear_arith)
        requires
            y == d * q + r,
            r < d,
            d == 2 * w,
            k * w < y,
    ;
    if 2 * q < k {
        assert(2 * r > d) by (nonlinear_arith)
            requires
                y == d * q + r,
                d == 2 * w,
                k * w < y,
                k == 2 * q + 1,
        ;
    }
    let kept = kept_digits(y);
    assert(2 * kept >= k);
    assert(nearest(y) == (2 * kept) * p) by (nonlinear_arith)
        requires
            nearest(y) == kept * (2 * p),
    ;
    lemma_div_by_multiple((2 * kept) as int, p as int);
}

/// An explicit tip is never below what the platform asks for.
pub proof fn lemma_floor_covers_minimum(platform_min: u64)
    ensures
        tip_floor(platform_min) >= platform_min,
{
    let m = platform_min as nat;
    if m > 0 {
        lemma_floor_ratio();
        lemma2_to64_rest();
        let ratio = of_bits(FLOOR_RATIO).magnitude();
        let unit = pow2(1074);
        let u = pow2(1022);
        let x = m * pow2(2148);
        let a = nearest(x);
        let y = a * ratio;
        let p = nearest(y);
        lemma_pow2_pos(1022);
        lemma_pow2_pos(1074);
        lemma_pow2_adds(52, 1022);
        lemma_pow2_adds(1074, 1074);
        lemma_bit_len_bounds(m);
        lemma_bit_len_shift(m, 2148);
        lemma_nearest_bounds(x);
        lemma_pow2_monotone(1074, (bit_len(x) - 1075) as nat);
        assert(ratio >= unit) by (nonlinear_arith)
            requires
                ratio == 0x10_51EB_851E_B852 * u,
                unit == 0x10_0000_0000_0000 * u,
                u > 0,
        ;
        assert(y >= unit * unit) by (nonlinear_arith)
            requires
                y == a * ratio,
                a >= unit,
                ratio >= unit,
        ;
        lemma_bit_len_at_least(y, 2148);
        lemma_nearest_relative_error(x);
        lemma_nearest_relative_error(y);
        // Both roundings together keep the product above the minimum.
        let full: nat = 0x20_0000_0000_0000;
        let less: nat = 0x1F_FFFF_FFFF_FFFF;
        assert(full * a >= less * (m * unit)) by (nonlinear_arith)
            requires
                full * (a * unit) >= less * (m * (unit * unit)),
                unit > 0,
        ;
        assert(full * (full * (p * unit)) >= less * (less * (m * unit) * ratio))
            by (nonlinear_arith)
            requires
                full * (p * unit) >= less * (a * ratio),
                full * a >= less * (m * unit),
                full > 0,
                less > 0,
                ratio >= 0,
        ;
        assert(less * (less * (m * unit) * ratio) >= full * (full * (m * unit * unit)))
            by (nonlinear_arith)
            requires
                ratio == 0x10_51EB_851E_B852 * u,
                unit == 0x10_0000_0000_0000 * u,
                full == 0x20_0000_0000_0000,
                less == 0x1F_FFFF_FFFF_FFFF,
                u > 0,
                m > 0,
        ;
        assert(p >= m * unit) by (nonlinear_arith)
            requires
                full * (full * (p * unit)) >= full * (full * (m * unit * unit)),
                full > 0,
                unit > 0,
        ;
        lemma_div_is_ordered((m * unit) as int, p as int, unit as int);
        lemma_div_by_multiple(m as int, unit as int);
    }
}

} // verus!
