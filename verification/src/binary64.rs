//! IEEE 754 binary64 numbers by their bit pattern: conversion from an integer,
//! multiplication, and truncation to an integer, all computed on integers.
//!
//! Tip ratios are binary64 numbers. Holding them by their bits keeps every
//! lamport amount that derives from one inside what can be proved: a caller
//! makes one with `f64::to_bits`.

use crate::rounding::{
    bit_len, lemma_bit_len_at_most, lemma_bit_len_bounds, lemma_bit_len_shift, lemma_pow2_monotone,
    lemma_round_between, lemma_round_common_factor, lemma_round_error, lemma_round_exact,
    lemma_round_small, round_half_even,
};
use vstd::arithmetic::div_mod::{
    lemma_basic_div, lemma_div_by_multiple, lemma_div_is_ordered, lemma_fundamental_div_mod,
    lemma_fundamental_div_mod_converse,
};
use vstd::arithmetic::power2::{
    lemma2_to64, lemma2_to64_rest, lemma_pow2_adds, lemma_pow2_pos, lemma_pow2_subtracts,
    lemma_pow2_unfold, pow2,
};
use vstd::prelude::*;

verus! {

/// 2^52: the weight of the implicit leading digit of a significand.
pub const HIDDEN: u64 = 0x0010_0000_0000_0000;

/// The bit pattern of positive infinity; magnitudes at or above it are not finite.
pub const INFINITY: u64 = 0x7FF0_0000_0000_0000;

/// The sign bit.
pub const SIGN: u64 = 0x8000_0000_0000_0000;

/// A quiet NaN.
pub const NAN: u64 = 0x7FF8_0000_0000_0000;

/// A binary64 number, held by its bit pattern.
#[derive(Clone, Copy, Debug, PartialEq, Eq, Structural)]
pub struct F64 {
    pub bits: u64,
}

/// The number with the given bit pattern.
pub open spec fn of_bits(bits: u64) -> F64 {
    F64 { bits }
}

/// The exponent of the last digit that rounding `x` to a binary64 number keeps,
/// for `x` in units of `2^-2148`: 53 digits are kept, none finer than `2^-1074`.
pub open spec fn quantum(x: nat) -> nat {
    if bit_len(x) > 1127 {
        (bit_len(x) - 53) as nat
    } else {
        1074
    }
}

/// The digits of `x` that are kept, rounded to nearest, ties to even.
pub open spec fn kept_digits(x: nat) -> nat {
    round_half_even(x, pow2(quantum(x)))
}

/// `x / 2^2148` rounded to the nearest binary64 number with an unbounded
/// exponent, ties to even, counted in units of `2^-1074` (the smallest positive
/// binary64 number). Products of two magnitudes come in units of `2^-2148`.
pub open spec fn nearest(x: nat) -> nat {
    kept_digits(x) * pow2((quantum(x) - 1074) as nat)
}

/// The bit pattern of the binary64 number nearest to `x / 2^2148`: the digits
/// below the exponent, the first of them carried into it.
pub open spec fn nearest_bits(x: nat) -> u64 {
    let raw = (quantum(x) - 1074) * HIDDEN + kept_digits(x);
    if raw >= INFINITY {
        INFINITY
    } else {
        raw as u64
    }
}

/// The magnitude, in units of `2^-1074`, of the binary64 number nearest to `n`.
pub open spec fn nearest_integer(n: nat) -> nat {
    nearest(n * pow2(2148))
}

/// The first magnitude that no finite binary64 number reaches.
pub open spec fn overflow_bound() -> nat {
    pow2(2098)
}

impl F64 {
    /// Whether the sign bit is set.
    pub open spec fn negative(self) -> bool {
        self.bits >= SIGN
    }

    /// The biased exponent.
    pub open spec fn exponent(self) -> nat {
        ((self.bits / HIDDEN) % 2048) as nat
    }

    /// The stored digits of the significand.
    pub open spec fn fraction(self) -> nat {
        (self.bits % HIDDEN) as nat
    }

    pub open spec fn is_nan(self) -> bool {
        self.exponent() == 2047 && self.fraction() != 0
    }

    pub open spec fn is_infinite(self) -> bool {
        self.exponent() == 2047 && self.fraction() == 0
    }

    pub open spec fn is_finite(self) -> bool {
        self.exponent() != 2047
    }

    /// The absolute value of a finite number, in units of `2^-1074`.
    pub open spec fn magnitude(self) -> nat {
        if self.exponent() == 0 {
            self.fraction()
        } else {
            (HIDDEN as nat + self.fraction()) * pow2((self.exponent() - 1) as nat)
        }
    }

    pub open spec fn is_zero(self) -> bool {
        self.is_finite() && self.magnitude() == 0
    }

    /// Whether `self` has the class, the sign and the value that the product of
    /// `a` and `b` rounds to.
    pub open spec fn is_product_of(self, a: F64, b: F64) -> bool {
        if a.is_nan() || b.is_nan() || (a.is_infinite() && b.is_zero()) || (a.is_zero()
            && b.is_infinite()) {
            self.is_nan()
        } else {
            &&& self.negative() == (a.negative() != b.negative())
            &&& if a.is_infinite() || b.is_infinite() || nearest(a.magnitude() * b.magnitude())
                >= overflow_bound() {
                self.is_infinite()
            } else {
                self.is_finite() && self.magnitude() == nearest(a.magnitude() * b.magnitude())
            }
        }
    }

    /// The product of two numbers, rounded to nearest, ties to even.
    pub open spec fn product(self, other: F64) -> F64 {
        let sign: u64 = if self.negative() != other.negative() {
            SIGN
        } else {
            0
        };
        if self.is_nan() || other.is_nan() || (self.is_infinite() && other.is_zero()) || (
        self.is_zero() && other.is_infinite()) {
            of_bits(NAN)
        } else if self.is_infinite() || other.is_infinite() {
            of_bits((sign + INFINITY) as u64)
        } else {
            of_bits((sign + nearest_bits(self.magnitude() * other.magnitude())) as u64)
        }
    }

    /// The number cut to an integer and clamped to `u64`; NaN gives zero.
    pub open spec fn truncated(self) -> u64 {
        if self.is_nan() || self.negative() {
            0
        } else if self.is_infinite() || self.magnitude() / pow2(1074) > u64::MAX {
            u64::MAX
        } else {
            (self.magnitude() / pow2(1074)) as u64
        }
    }

    /// `amount` times `self`, with the two roundings of binary64 arithmetic (of
    /// the amount and of the product), cut to an integer and clamped to `u64`.
    pub open spec fn portion_of(self, amount: u64) -> u64 {
        if self.is_nan() || self.negative() {
            0
        } else if self.is_infinite() {
            if amount == 0 {
                0
            } else {
                u64::MAX
            }
        } else {
            let lamports = nearest(nearest_integer(amount as nat) * self.magnitude()) / pow2(1074);
            if lamports > u64::MAX {
                u64::MAX
            } else {
                lamports as u64
            }
        }
    }
}

proof fn lemma_constants()
    ensures
        pow2(52) == HIDDEN,
        pow2(53) == 2 * HIDDEN,
        pow2(63) == SIGN,
        pow2(64) == 2 * SIGN,
        INFINITY == 2047 * HIDDEN,
{
    lemma2_to64();
    lemma2_to64_rest();
}

/// Two to the power of `n`.
fn power_of_two(n: u32) -> (r: u128)
    requires
        n < 128,
    ensures
        r == pow2(n as nat),
{
    proof {
        lemma2_to64();
    }
    let mut r: u128 = 1;
    let mut i: u32 = 0;
    while i < n
        invariant
            i <= n < 128,
            r == pow2(i as nat),
        decreases n - i,
    {
        proof {
            lemma_pow2_unfold((i + 1) as nat);
            lemma_pow2_monotone((i + 1) as nat, 127);
            lemma_power_127();
        }
        r = r * 2;
        i = i + 1;
    }
    r
}

proof fn lemma_power_127()
    ensures
        pow2(127) == 0x8000_0000_0000_0000_0000_0000_0000_0000,
{
    lemma2_to64();
    lemma2_to64_rest();
    lemma_pow2_adds(63, 64);
}

/// The number of binary digits of `x`.
fn digits(x: u128) -> (r: u32)
    ensures
        r == bit_len(x as nat),
        r <= 128,
{
    let mut rest: u128 = x;
    let mut n: u32 = 0;
    proof {
        lemma_power_127();
        lemma_pow2_unfold(128);
        lemma_bit_len_at_most(x as nat, 128);
    }
    while rest > 0
        invariant
            n + bit_len(rest as nat) == bit_len(x as nat),
            bit_len(x as nat) <= 128,
        decreases rest,
    {
        rest = rest / 2;
        n = n + 1;
    }
    n
}

/// `n / d` rounded to the nearest integer, ties to even.
fn round_quotient(n: u128, d: u128) -> (r: u128)
    requires
        0 < d <= 0x4000_0000_0000_0000_0000_0000_0000_0000,
        n < u128::MAX,
    ensures
        r == round_half_even(n as nat, d as nat),
{
    let q: u128 = n / d;
    let rem: u128 = n % d;
    proof {
        assert(q <= n) by (nonlinear_arith)
            requires
                q == n / d,
                d > 0,
        ;
    }
    if 2 * rem < d || (2 * rem == d && q % 2 == 0) {
        q
    } else {
        q + 1
    }
}

/// The digits kept and the quantum of `nearest(p * 2^t)`.
fn round_scaled(p: u128, t: u32) -> (r: (u64, u32))
    requires
        p < pow2(106),
        t <= 4300,
    ensures
        r.1 <= 3400,
        r.0 <= 2 * HIDDEN,
        r.1 > 0 ==> r.0 >= HIDDEN,
        r.0 == kept_digits(p as nat * pow2(t as nat)),
        r.1 + 1074 == quantum(p as nat * pow2(t as nat)),
{
    if p == 0 {
        proof {
            lemma_pow2_pos(1074);
            assert(0 * pow2(t as nat) == 0);
            lemma_round_exact(0, pow2(1074));
            lemma2_to64();
        }
        return (0, 0);
    }
    let l: u32 = digits(p);
    proof {
        lemma_bit_len_at_most(p as nat, 106);
        lemma_bit_len_bounds(p as nat);
        lemma_bit_len_shift(p as nat, t as nat);
    }
    let total: u32 = l + t;
    let q: u32 = if total > 1127 {
        total - 53
    } else {
        1074
    };
    let ghost x: nat = p as nat * pow2(t as nat);
    let ghost kept: nat = round_half_even(x, pow2(q as nat));
    proof {
        lemma_constants();
        lemma_pow2_pos(q as nat);
        lemma_bit_len_bounds(x);
        // The kept digits fit in 53 places, and fill them when the quantum is coarse.
        lemma_pow2_monotone(total as nat, (q + 53) as nat);
        lemma_pow2_adds(53, q as nat);
        if total > 1127 {
            lemma_pow2_adds(52, q as nat);
            lemma_round_between(x, pow2(q as nat), HIDDEN as nat, (2 * HIDDEN) as nat);
        } else {
            lemma_round_between(x, pow2(q as nat), 0, (2 * HIDDEN) as nat);
        }
    }
    let r: u128 = if q >= t {
        let shift: u32 = q - t;
        proof {
            lemma_pow2_adds(shift as nat, t as nat);
            lemma_pow2_pos(shift as nat);
            lemma_pow2_pos(t as nat);
            lemma_round_common_factor(p as nat, pow2(shift as nat), pow2(t as nat));
        }
        if shift > 106 {
            proof {
                lemma_pow2_unfold(shift as nat);
                lemma_pow2_monotone(106, (shift - 1) as nat);
                lemma_round_small(p as nat, pow2(shift as nat));
            }
            0
        } else {
            proof {
                lemma_power_127();
                lemma_pow2_unfold(127);
                lemma_pow2_monotone(106, 126);
                lemma_pow2_monotone(shift as nat, 126);
            }
            round_quotient(p, power_of_two(shift))
        }
    } else {
        let shift: u32 = t - q;
        proof {
            lemma_pow2_adds(shift as nat, q as nat);
            assert(x == (p as nat * pow2(shift as nat)) * pow2(q as nat)) by (nonlinear_arith)
                requires
                    x == p as nat * pow2(t as nat),
                    pow2(t as nat) == pow2(shift as nat) * pow2(q as nat),
            ;
            lemma_round_exact(p as nat * pow2(shift as nat), pow2(q as nat));
        }
        p * power_of_two(shift)
    };
    assert(r == kept);
    (r as u64, q - 1074)
}

/// The bit pattern of the binary64 number nearest to `p * 2^t / 2^2148`.
fn encode(p: u128, t: u32) -> (bits: u64)
    requires
        p < pow2(106),
        t <= 4300,
    ensures
        bits <= INFINITY,
        bits == nearest_bits(p as nat * pow2(t as nat)),
        bits == INFINITY <==> nearest(p as nat * pow2(t as nat)) >= overflow_bound(),
        bits < INFINITY ==> of_bits(bits).magnitude() == nearest(p as nat * pow2(t as nat)),
{
    let (r, g) = round_scaled(p, t);
    let raw: u64 = g as u64 * HIDDEN + r;
    proof {
        lemma_constants();
        lemma_encoding(r, g as nat);
    }
    if raw >= INFINITY {
        INFINITY
    } else {
        raw
    }
}

/// Adding the kept digits to the shifted quantum gives the bit pattern, also
/// where the rounding carried into the next exponent.
proof fn lemma_encoding(r: u64, g: nat)
    requires
        g <= 3400,
        r <= 2 * HIDDEN,
        g > 0 ==> r >= HIDDEN,
    ensures
        g * HIDDEN + r >= INFINITY <==> r * pow2(g) >= overflow_bound(),
        g * HIDDEN + r < INFINITY ==> of_bits((g * HIDDEN + r) as u64).magnitude() == r * pow2(g),
{
    lemma_constants();
    lemma_pow2_pos(g);
    let raw: int = g * HIDDEN + r;
    let f = F64 { bits: raw as u64 };
    if g == 0 && r < HIDDEN {
        lemma2_to64();
        lemma_pow2_monotone(52, 2098);
        assert(f.bits == r);
        assert(f.exponent() == 0);
        assert(f.fraction() == r);
    } else if r < 2 * HIDDEN {
        assert(raw == (g + 1) * HIDDEN + (r - HIDDEN)) by (nonlinear_arith)
            requires
                raw == g * HIDDEN + r,
        ;
        if raw < INFINITY {
            assert(g + 1 < 2047) by (nonlinear_arith)
                requires
                    raw == (g + 1) * HIDDEN + (r - HIDDEN),
                    raw < 2047 * HIDDEN,
                    r >= HIDDEN,
                    HIDDEN == 0x0010_0000_0000_0000,
            ;
            assert(f.exponent() == g + 1 && f.fraction() == r - HIDDEN);
            assert(r * pow2(g) < pow2(53) * pow2(g)) by (nonlinear_arith)
                requires
                    r < pow2(53),
                    pow2(g) > 0,
            ;
            lemma_pow2_adds(53, g);
            lemma_pow2_monotone((53 + g) as nat, 2098);
        } else {
            assert(g + 1 >= 2047) by (nonlinear_arith)
                requires
                    raw == (g + 1) * HIDDEN + (r - HIDDEN),
                    raw >= 2047 * HIDDEN,
                    r < 2 * HIDDEN,
                    HIDDEN == 0x0010_0000_0000_0000,
            ;
            assert(r * pow2(g) >= pow2(52) * pow2(g)) by (nonlinear_arith)
                requires
                    r >= pow2(52),
                    pow2(g) > 0,
            ;
            lemma_pow2_adds(52, g);
            lemma_pow2_monotone(2098, (52 + g) as nat);
        }
    } else {
        assert(raw == (g + 2) * HIDDEN) by (nonlinear_arith)
            requires
                raw == g * HIDDEN + r,
                r == 2 * HIDDEN,
        ;
        lemma_pow2_adds(53, g);
        lemma_pow2_adds(52, g + 1);
        assert(52 + (g + 1) == 53 + g);
        if raw < INFINITY {
            assert(g + 2 < 2047) by (nonlinear_arith)
                requires
                    raw == (g + 2) * HIDDEN,
                    raw < 2047 * HIDDEN,
                    HIDDEN == 0x0010_0000_0000_0000,
            ;
            assert(f.exponent() == g + 2 && f.fraction() == 0);
            lemma_pow2_unfold(2098);
            lemma_pow2_monotone((53 + g) as nat, 2097);
            lemma_pow2_pos(2097);
        } else {
            assert(g + 2 >= 2047) by (nonlinear_arith)
                requires
                    raw == (g + 2) * HIDDEN,
                    raw >= 2047 * HIDDEN,
                    HIDDEN == 0x0010_0000_0000_0000,
            ;
            lemma_pow2_monotone(2098, (53 + g) as nat);
        }
    }
}

/// A common factor cancels in an integer quotient.
proof fn lemma_truncate_factor(n: nat, d: nat, c: nat)
    requires
        d > 0,
        c > 0,
    ensures
        (n * c) / (c * d) == n / d,
{
    lemma_fundamental_div_mod(n as int, d as int);
    let q = n / d;
    let r = n % d;
    assert(n * c == q * (c * d) + r * c) by (nonlinear_arith)
        requires
            n == d * q + r,
    ;
    assert(0 <= r * c < c * d) by (nonlinear_arith)
        requires
            0 <= r < d,
            c > 0,
    ;
    lemma_fundamental_div_mod_converse((n * c) as int, (c * d) as int, q as int, (r * c) as int);
}

/// Setting the sign bit leaves exponent and fraction alone.
proof fn lemma_signed(bits: u64, sign: u64)
    requires
        bits <= INFINITY,
        sign == 0 || sign == SIGN,
    ensures
        of_bits((sign + bits) as u64).negative() == (sign == SIGN),
        of_bits((sign + bits) as u64).exponent() == of_bits(bits).exponent(),
        of_bits((sign + bits) as u64).fraction() == of_bits(bits).fraction(),
        of_bits(bits).is_finite() == (bits < INFINITY),
        bits == INFINITY ==> of_bits(bits).is_infinite(),
{
}

/// A finite number is zero where its significand is.
proof fn lemma_zero_magnitude(f: F64)
    ensures
        f.is_finite() && f.exponent() > 0 ==> f.magnitude() > 0,
{
    if f.is_finite() && f.exponent() > 0 {
        let e = (f.exponent() - 1) as nat;
        lemma_pow2_pos(e);
        assert((HIDDEN as nat + f.fraction()) * pow2(e) > 0) by (nonlinear_arith)
            requires
                pow2(e) > 0,
                HIDDEN > 0,
        ;
    }
}

/// Rounding keeps a number between the powers of two around it.
pub proof fn lemma_nearest_bounds(x: nat)
    requires
        bit_len(x) > 1127,
    ensures
        pow2((bit_len(x) - 1075) as nat) <= nearest(x) <= pow2((bit_len(x) - 1074) as nat),
{
    let l = bit_len(x);
    let q = (l - 53) as nat;
    let g = (q - 1074) as nat;
    let r = round_half_even(x, pow2(q));
    assert(x > 0);
    lemma_bit_len_bounds(x);
    lemma_pow2_pos(q);
    lemma_pow2_pos(g);
    lemma_pow2_adds(52, q);
    lemma_pow2_adds(53, q);
    lemma_round_between(x, pow2(q), pow2(52), pow2(53));
    lemma_pow2_adds(52, g);
    lemma_pow2_adds(53, g);
    assert(pow2(52) * pow2(g) <= r * pow2(g) <= pow2(53) * pow2(g)) by (nonlinear_arith)
        requires
            pow2(52) <= r <= pow2(53),
    ;
}

/// Every 64-bit integer converts to a finite number.
proof fn lemma_nearest_integer_bound(n: u64)
    ensures
        nearest_integer(n as nat) < overflow_bound(),
{
    lemma_constants();
    if n == 0 {
        lemma_nearest_zero(n);
        lemma_pow2_pos(2098);
    } else {
        lemma_bit_len_at_most(n as nat, 64);
        lemma_bit_len_bounds(n as nat);
        lemma_bit_len_shift(n as nat, 2148);
        let x = n as nat * pow2(2148);
        lemma_nearest_bounds(x);
        lemma_pow2_monotone((bit_len(x) - 1074) as nat, 2097);
        lemma_pow2_unfold(2098);
        lemma_pow2_pos(2097);
    }
}

/// Only zero converts to zero.
proof fn lemma_nearest_zero(n: u64)
    ensures
        n == 0 <==> nearest_integer(n as nat) == 0,
{
    if n == 0 {
        assert(n as nat * pow2(2148) == 0) by (nonlinear_arith)
            requires
                n == 0,
        ;
        lemma_pow2_pos(1074);
        lemma_round_exact(0, pow2(1074));
        assert(0 * pow2(1074) == 0);
        assert(kept_digits(0) == 0);
    } else {
        lemma_bit_len_bounds(n as nat);
        lemma_bit_len_shift(n as nat, 2148);
        let x = n as nat * pow2(2148);
        lemma_nearest_bounds(x);
        lemma_pow2_pos((bit_len(x) - 1075) as nat);
    }
}

/// A magnitude that overflows is far above every 64-bit integer.
proof fn lemma_overflow_truncates()
    ensures
        overflow_bound() / pow2(1074) > u64::MAX,
{
    lemma_constants();
    lemma_pow2_subtracts(1074, 2098);
    lemma_pow2_monotone(64, 1024);
}

impl F64 {
    /// The number with this bit pattern, as `f64::from_bits` gives it.
    pub fn from_bits(bits: u64) -> (r: F64)
        ensures
            r.bits == bits,
    {
        F64 { bits }
    }

    fn test_nan(self) -> (r: bool)
        ensures
            r == self.is_nan(),
    {
        (self.bits / HIDDEN) % 2048 == 2047 && self.bits % HIDDEN != 0
    }

    fn test_infinite(self) -> (r: bool)
        ensures
            r == self.is_infinite(),
    {
        (self.bits / HIDDEN) % 2048 == 2047 && self.bits % HIDDEN == 0
    }

    fn test_zero(self) -> (r: bool)
        ensures
            r == self.is_zero(),
    {
        proof {
            lemma_zero_magnitude(self);
        }
        (self.bits / HIDDEN) % 2048 == 0 && self.bits % HIDDEN == 0
    }

    fn test_negative(self) -> (r: bool)
        ensures
            r == self.negative(),
    {
        self.bits >= SIGN
    }

    /// The significand as an integer, and the power of two that weighs it.
    fn decode(self) -> (r: (u64, u32))
        requires
            self.is_finite(),
        ensures
            r.0 < 2 * HIDDEN,
            r.1 <= 2045,
            r.1 > 0 ==> r.0 >= HIDDEN,
            self.magnitude() == r.0 * pow2(r.1 as nat),
    {
        let exponent: u64 = (self.bits / HIDDEN) % 2048;
        let fraction: u64 = self.bits % HIDDEN;
        proof {
            lemma2_to64();
        }
        if exponent == 0 {
            assert(fraction * pow2(0) == fraction);
            (fraction, 0)
        } else {
            assert(self.exponent() == exponent);
            assert(((exponent - 1) as u32) as nat == (self.exponent() - 1) as nat);
            (HIDDEN + fraction, (exponent - 1) as u32)
        }
    }

    /// The binary64 number nearest to `n`.
    pub fn from_u64(n: u64) -> (r: F64)
        ensures
            r.is_finite(),
            !r.negative(),
            r.magnitude() == nearest_integer(n as nat),
    {
        proof {
            lemma_constants();
            lemma_pow2_monotone(64, 106);
            lemma_nearest_integer_bound(n);
        }
        F64 { bits: encode(n as u128, 2148) }
    }

    /// The product of two binary64 numbers, rounded to nearest, ties to even.
    pub fn times(self, other: F64) -> (r: F64)
        ensures
            r == self.product(other),
            r.is_product_of(self, other),
    {
        let sign: u64 = if self.test_negative() != other.test_negative() {
            SIGN
        } else {
            0
        };
        if self.test_nan() || other.test_nan() {
            return F64 { bits: NAN };
        }
        if self.test_infinite() || other.test_infinite() {
            if self.test_zero() || other.test_zero() {
                return F64 { bits: NAN };
            }
            proof {
                lemma_signed(INFINITY, sign);
            }
            return F64 { bits: sign + INFINITY };
        }
        let (s1, e1) = self.decode();
        let (s2, e2) = other.decode();
        proof {
            lemma_constants();
            lemma_pow2_adds(53, 53);
            lemma_pow2_adds(e1 as nat, e2 as nat);
            assert((s1 as nat) * (s2 as nat) < pow2(53) * pow2(53)) by (nonlinear_arith)
                requires
                    s1 < pow2(53),
                    s2 < pow2(53),
            ;
            assert(self.magnitude() * other.magnitude() == (s1 as nat * s2 as nat) * pow2(
                (e1 + e2) as nat,
            )) by (nonlinear_arith)
                requires
                    self.magnitude() == s1 * pow2(e1 as nat),
                    other.magnitude() == s2 * pow2(e2 as nat),
                    pow2((e1 + e2) as nat) == pow2(e1 as nat) * pow2(e2 as nat),
            ;
            lemma_power_127();
            lemma_pow2_monotone(106, 127);
        }
        let bits: u64 = encode(s1 as u128 * s2 as u128, e1 + e2);
        proof {
            lemma_signed(bits, sign);
        }
        F64 { bits: sign + bits }
    }

    /// The number cut to an integer and clamped to `u64`, as `as u64` does it.
    pub fn truncate(self) -> (r: u64)
        ensures
            r == self.truncated(),
    {
        if self.test_nan() || self.test_negative() {
            return 0;
        }
        if self.test_infinite() {
            return u64::MAX;
        }
        let (s, e) = self.decode();
        proof {
            lemma_constants();
            lemma_pow2_pos(1074);
            lemma_pow2_pos(e as nat);
        }
        if e >= 1074 {
            let shift: u32 = e - 1074;
            proof {
                lemma_pow2_adds(shift as nat, 1074);
                assert(self.magnitude() == (s * pow2(shift as nat)) * pow2(1074))
                    by (nonlinear_arith)
                    requires
                        self.magnitude() == s * pow2(e as nat),
                        pow2(e as nat) == pow2(shift as nat) * pow2(1074),
                ;
                lemma_div_by_multiple((s * pow2(shift as nat)) as int, pow2(1074) as int);
            }
            if shift > 11 {
                proof {
                    lemma_pow2_adds(52, 12);
                    lemma_pow2_monotone(12, shift as nat);
                    assert(s * pow2(shift as nat) >= pow2(52) * pow2(12)) by (nonlinear_arith)
                        requires
                            s >= pow2(52),
                            pow2(shift as nat) >= pow2(12),
                    ;
                }
                u64::MAX
            } else {
                let factor: u128 = power_of_two(shift);
                proof {
                    lemma2_to64();
                    lemma_pow2_monotone(shift as nat, 11);
                    assert(s * factor < 0x1_0000_0000_0000_0000) by (nonlinear_arith)
                        requires
                            s < 0x20_0000_0000_0000,
                            factor <= 0x800,
                    ;
                }
                (s as u128 * factor) as u64
            }
        } else {
            let shift: u32 = 1074 - e;
            proof {
                lemma_pow2_adds(shift as nat, e as nat);
                lemma_pow2_pos(shift as nat);
                assert(pow2(1074) == pow2(e as nat) * pow2(shift as nat)) by (nonlinear_arith)
                    requires
                        pow2(1074) == pow2(shift as nat) * pow2(e as nat),
                ;
                lemma_truncate_factor(s as nat, pow2(shift as nat), pow2(e as nat));
            }
            if shift > 53 {
                proof {
                    lemma_pow2_monotone(53, shift as nat);
                    lemma_basic_div(s as int, pow2(shift as nat) as int);
                }
                0
            } else {
                let divisor: u128 = power_of_two(shift);
                let cut: u128 = s as u128 / divisor;
                proof {
                    assert(cut <= s) by (nonlinear_arith)
                        requires
                            cut == s as u128 / divisor,
                            divisor > 0,
                    ;
                }
                cut as u64
            }
        }
    }

    /// `amount` times this number in binary64 arithmetic, cut to an integer.
    pub fn portion(self, amount: u64) -> (r: u64)
        ensures
            r == self.portion_of(amount),
    {
        let exact = F64::from_u64(amount);
        let product = exact.times(self);
        proof {
            lemma_nearest_zero(amount);
            lemma_overflow_truncates();
            lemma_pow2_pos(1074);
            let x = nearest(exact.magnitude() * self.magnitude());
            if x >= overflow_bound() {
                lemma_div_is_ordered(overflow_bound() as int, x as int, pow2(1074) as int);
            }
        }
        product.truncate()
    }
}

/// What is at most an integer below `2^53` rounds to at most that integer.
pub proof fn lemma_nearest_at_most(x: nat, k: nat)
    requires
        k < pow2(53),
        x <= k * pow2(2148),
    ensures
        nearest(x) <= k * pow2(1074),
{
    lemma_pow2_pos(2148);
    lemma_pow2_adds(53, 2148);
    assert(k * pow2(2148) < pow2(53) * pow2(2148)) by (nonlinear_arith)
        requires
            k < pow2(53),
            pow2(2148) > 0,
    ;
    lemma_bit_len_at_most(x, 2201);
    let q = quantum(x);
    lemma_integer_multiple(k, q);
    lemma_pow2_pos(q);
    lemma_round_between(x, pow2(q), 0, k * pow2((2148 - q) as nat));
    let r = round_half_even(x, pow2(q));
    assert(r * pow2((q - 1074) as nat) <= (k * pow2((2148 - q) as nat)) * pow2((q - 1074) as nat))
        by (nonlinear_arith)
        requires
            r <= k * pow2((2148 - q) as nat),
    ;
}

/// What is at least an integer below `2^53` rounds to at least that integer.
pub proof fn lemma_nearest_at_least(x: nat, k: nat)
    requires
        k < pow2(53),
        x >= k * pow2(2148),
    ensures
        nearest(x) >= k * pow2(1074),
{
    if bit_len(x) > 2201 {
        lemma_nearest_bounds(x);
        lemma_pow2_monotone(1127, (bit_len(x) - 1075) as nat);
        lemma_pow2_adds(53, 1074);
        lemma_pow2_pos(1074);
        assert(k * pow2(1074) <= pow2(53) * pow2(1074)) by (nonlinear_arith)
            requires
                k < pow2(53),
        ;
    } else {
        let q = quantum(x);
        lemma_integer_multiple(k, q);
        lemma_pow2_pos(q);
        let lo = k * pow2((2148 - q) as nat);
        let hi = x;
        assert(x <= hi * pow2(q)) by (nonlinear_arith)
            requires
                hi == x,
                pow2(q) > 0,
        ;
        lemma_round_between(x, pow2(q), lo, hi);
        let r = round_half_even(x, pow2(q));
        assert(r * pow2((q - 1074) as nat) >= lo * pow2((q - 1074) as nat)) by (nonlinear_arith)
            requires
                r >= lo,
        ;
    }
}

/// An integer is a multiple of every quantum from `2^-1074` to one.
proof fn lemma_integer_multiple(k: nat, q: nat)
    requires
        1074 <= q <= 2148,
    ensures
        k * pow2(2148) == (k * pow2((2148 - q) as nat)) * pow2(q),
        k * pow2(1074) == (k * pow2((2148 - q) as nat)) * pow2((q - 1074) as nat),
{
    let a = (2148 - q) as nat;
    let b = (q - 1074) as nat;
    lemma_pow2_adds(a, q);
    lemma_pow2_adds(a, b);
    assert(a + b == 1074);
    assert(k * (pow2(a) * pow2(q)) == (k * pow2(a)) * pow2(q)) by (nonlinear_arith);
    assert(k * (pow2(a) * pow2(b)) == (k * pow2(a)) * pow2(b)) by (nonlinear_arith);
}

/// Integers below `2^53` convert without rounding.
pub proof fn lemma_nearest_integer_exact(n: nat)
    requires
        n < pow2(53),
    ensures
        nearest_integer(n) == n * pow2(1074),
{
    lemma_nearest_at_most(n * pow2(2148), n);
    lemma_nearest_at_least(n * pow2(2148), n);
}

/// A portion is no larger than an integer that the exact product does not exceed.
pub proof fn lemma_portion_at_most(f: F64, amount: u64, k: nat)
    requires
        f.is_finite(),
        amount < pow2(53),
        k < pow2(53),
        amount * f.magnitude() <= k * pow2(1074),
    ensures
        f.portion_of(amount) <= k,
{
    if !f.negative() {
        let a = nearest_integer(amount as nat);
        lemma_nearest_integer_exact(amount as nat);
        lemma_scale(amount as nat, f.magnitude(), k);
        assert(a * f.magnitude() <= k * pow2(2148)) by (nonlinear_arith)
            requires
                a * f.magnitude() == (amount as nat * f.magnitude()) * pow2(1074),
                k * pow2(2148) == (k * pow2(1074)) * pow2(1074),
                amount as nat * f.magnitude() <= k * pow2(1074),
        ;
        lemma_nearest_at_most(a * f.magnitude(), k);
        lemma_pow2_pos(1074);
        lemma_div_is_ordered(
            nearest(a * f.magnitude()) as int,
            (k * pow2(1074)) as int,
            pow2(1074) as int,
        );
        lemma_div_by_multiple(k as int, pow2(1074) as int);
    }
}

/// A portion is no smaller than an integer that the exact product reaches.
pub proof fn lemma_portion_at_least(f: F64, amount: u64, k: nat)
    requires
        f.is_finite(),
        !f.negative(),
        amount < pow2(53),
        k < pow2(53),
        amount * f.magnitude() >= k * pow2(1074),
    ensures
        f.portion_of(amount) >= k,
{
    let a = nearest_integer(amount as nat);
    lemma_constants();
    lemma_nearest_integer_exact(amount as nat);
    lemma_scale(amount as nat, f.magnitude(), k);
    assert(a * f.magnitude() >= k * pow2(2148)) by (nonlinear_arith)
        requires
            a * f.magnitude() == (amount as nat * f.magnitude()) * pow2(1074),
            k * pow2(2148) == (k * pow2(1074)) * pow2(1074),
            amount as nat * f.magnitude() >= k * pow2(1074),
    ;
    lemma_nearest_at_least(a * f.magnitude(), k);
    lemma_pow2_pos(1074);
    lemma_div_is_ordered(
        (k * pow2(1074)) as int,
        nearest(a * f.magnitude()) as int,
        pow2(1074) as int,
    );
    lemma_div_by_multiple(k as int, pow2(1074) as int);
}

proof fn lemma_scale(n: nat, m: nat, k: nat)
    ensures
        (n * pow2(1074)) * m == (n * m) * pow2(1074),
        k * pow2(2148) == (k * pow2(1074)) * pow2(1074),
{
    lemma_pow2_adds(1074, 1074);
    assert((n * pow2(1074)) * m == (n * m) * pow2(1074)) by (nonlinear_arith);
    assert(k * (pow2(1074) * pow2(1074)) == (k * pow2(1074)) * pow2(1074)) by (nonlinear_arith);
}

/// Rounding loses at most one part in `2^53`.
pub proof fn lemma_nearest_relative_error(x: nat)
    requires
        bit_len(x) > 1127,
    ensures
        pow2(53) * (nearest(x) * pow2(1074)) >= (pow2(53) - 1) * x,
{
    let q = (bit_len(x) - 53) as nat;
    let g = (q - 1074) as nat;
    let r = round_half_even(x, pow2(q));
    assert(x > 0);
    lemma_bit_len_bounds(x);
    lemma_pow2_pos(q);
    lemma_round_error(x, pow2(q));
    lemma_pow2_adds(g, 1074);
    assert((r * pow2(g)) * pow2(1074) == r * (pow2(g) * pow2(1074))) by (nonlinear_arith);
    lemma_pow2_adds(52, q);
    lemma_pow2_unfold(53);
    let y = r * pow2(q);
    assert(pow2(53) * y >= (pow2(53) - 1) * x) by (nonlinear_arith)
        requires
            2 * x <= 2 * y + pow2(q),
            pow2(52) * pow2(q) <= x,
            pow2(53) == 2 * pow2(52),
            pow2(52) >= 0,
    ;
}

} // verus!
