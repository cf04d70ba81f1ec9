//! What binary64 arithmetic does: results are the representable numbers nearest to
//! the exact ones.

use crate::binary64::{kept_digits, nearest, nearest_integer, of_bits, overflow_bound, quantum, F64};
use crate::rounding::{
    bit_len, lemma_bit_len_bounds, lemma_pow2_monotone, lemma_round_between, lemma_round_error,
    round_half_even,
};
use vstd::arithmetic::power2::{
    lemma2_to64, lemma_pow2_adds, lemma_pow2_pos, lemma_pow2_unfold, pow2,
};
use vstd::prelude::*;

verus! {

/// `digits * 2^exponent`.
pub open spec fn scaled_digits(digits: nat, exponent: nat) -> nat {
    digits * pow2(exponent)
}

/// Whether a number of units of `2^-1074` has at most 53 significant digits.
pub open spec fn representable(n: nat) -> bool {
    exists|digits: nat, exponent: nat|
        digits < pow2(53) && n == #[trigger] scaled_digits(digits, exponent)
}

/// How far `n` units of `2^-1074` are from `x` units of `2^-2148`.
pub open spec fn distance(n: nat, x: nat) -> int {
    if n * pow2(1074) >= x {
        n * pow2(1074) - x
    } else {
        x - n * pow2(1074)
    }
}

/// Whether no representable number is nearer to `x` than `m` is.
pub open spec fn closest(m: nat, x: nat) -> bool {
    &&& representable(m)
    &&& forall|n: nat| #[trigger] representable(n) ==> distance(m, x) <= distance(n, x)
}

/// A quotient's rounding is no further off than any other integer.
proof fn lemma_round_is_closest(x: nat, d: nat, c: nat)
    requires
        d > 0,
    ensures
        ({
            let k = round_half_even(x, d);
            let near: int = if k * d >= x { k * d - x } else { x - k * d };
            let far: int = if c * d >= x { c * d - x } else { x - c * d };
            near <= far
        }),
{
    let k = round_half_even(x, d);
    lemma_round_error(x, d);
    if c < k {
        assert(k * d >= c * d + d) by (nonlinear_arith)
            requires
                k >= c + 1,
                d > 0,
        ;
    } else if c > k {
        assert(c * d >= k * d + d) by (nonlinear_arith)
            requires
                c >= k + 1,
                d > 0,
        ;
    }
}

/// Rounding to binary64 gives the nearest number with 53 digits.
pub proof fn lemma_nearest_is_closest(x: nat)
    ensures
        closest(nearest(x), x),
{
    let q = quantum(x);
    let e0 = (q - 1074) as nat;
    let d = pow2(q);
    let unit = pow2(1074);
    let k = kept_digits(x);
    let m = nearest(x);
    lemma_pow2_pos(q);
    lemma_pow2_pos(1074);
    lemma_pow2_pos(e0);
    lemma_pow2_adds(e0, 1074);
    lemma_pow2_adds(53, q);
    lemma_pow2_adds(52, q);
    lemma_pow2_adds(52, e0);
    lemma_pow2_unfold(53);
    lemma_pow2_unfold(e0 + 1);
    // The kept digits are at most 2^53.
    if x > 0 {
        lemma_bit_len_bounds(x);
        lemma_pow2_monotone(bit_len(x), 53 + q);
    } else {
        lemma_pow2_pos(53 + q);
    }
    assert(0 * d <= x <= pow2(53) * d) by {
        assert(0 * d == 0);
    }
    lemma_round_between(x, d, 0, pow2(53));
    if k < pow2(53) {
        assert(m == scaled_digits(k, e0));
    } else {
        assert(k * pow2(e0) == pow2(52) * pow2(e0 + 1)) by (nonlinear_arith)
            requires
                k == 2 * pow2(52),
                pow2(e0 + 1) == 2 * pow2(e0),
        ;
        lemma_pow2_pos(52);
        assert(m == scaled_digits(pow2(52), e0 + 1));
    }
    assert(m * unit == k * d) by (nonlinear_arith)
        requires
            m == k * pow2(e0),
            d == pow2(e0) * unit,
    ;
    assert forall|n: nat| #[trigger] representable(n) implies distance(m, x) <= distance(n, x) by {
        let (digits, e) = choose|digits: nat, e: nat|
            digits < pow2(53) && n == #[trigger] scaled_digits(digits, e);
        if e >= e0 {
            let c = digits * pow2((e - e0) as nat);
            lemma_pow2_adds((e - e0) as nat, e0);
            assert(n * unit == c * d) by (nonlinear_arith)
                requires
                    n == digits * pow2(e),
                    pow2(e) == pow2((e - e0) as nat) * pow2(e0),
                    c == digits * pow2((e - e0) as nat),
                    d == pow2(e0) * unit,
            ;
            lemma_round_is_closest(x, d, c);
        } else {
            // The last digit of x is coarser: a power of two lies between.
            let c = pow2(52);
            lemma_pow2_monotone(e, (e0 - 1) as nat);
            lemma_pow2_unfold(e0);
            assert(x >= c * d) by {
                assert(52 + q == (bit_len(x) - 1) as nat);
            }
            assert(n * unit <= c * d) by (nonlinear_arith)
                requires
                    n == digits * pow2(e),
                    digits < 2 * c,
                    2 * pow2(e) <= pow2(e0),
                    d == pow2(e0) * unit,
                    unit > 0,
                    c >= 0,
                    digits >= 0,
                    pow2(e) >= 0,
            ;
            lemma_round_is_closest(x, d, c);
        }
    }
}

// ── Numbers and their bits ───────────────────────────────────────────────────

/// Zero is the first number, and each next one is a unit in the last place larger.
pub proof fn lemma_next_number(bits: u64)
    requires
        bits + 1 < 0x7FF0_0000_0000_0000,
    ensures
        of_bits(0).magnitude() == 0,
        of_bits(bits).is_finite(),
        !of_bits(bits).negative(),
        of_bits((bits + 1) as u64).magnitude() == of_bits(bits).magnitude() + pow2(
            if bits < 0x0010_0000_0000_0000 {
                0
            } else {
                (bits as int / 0x0010_0000_0000_0000 - 1) as nat
            },
        ),
{
    let f = of_bits(bits);
    let g = of_bits((bits + 1) as u64);
    let e = f.exponent();
    lemma2_to64();
    assert(e == bits as int / 0x0010_0000_0000_0000);
    if f.fraction() + 1 < 0x0010_0000_0000_0000 {
        assert(g.exponent() == e && g.fraction() == f.fraction() + 1);
        if e > 0 {
            let u = pow2((e - 1) as nat);
            let s: nat = 0x0010_0000_0000_0000 + f.fraction();
            assert(f.magnitude() == s * u);
            assert(g.magnitude() == (s + 1) * u);
            assert((s + 1) * u == s * u + u) by (nonlinear_arith);
        }
    } else {
        assert(g.exponent() == e + 1 && g.fraction() == 0);
        if e > 0 {
            let u = pow2((e - 1) as nat);
            lemma_pow2_unfold(e);
            assert(f.magnitude() == 0x001F_FFFF_FFFF_FFFF * u);
            assert(g.magnitude() == 0x0010_0000_0000_0000 * pow2(e));
            assert(0x0010_0000_0000_0000 * (2 * u) == 0x001F_FFFF_FFFF_FFFF * u + u)
                by (nonlinear_arith);
        }
    }
}

/// The upper half of the bit patterns are the negatives of the lower half.
pub proof fn lemma_sign_bit(bits: u64)
    requires
        bits < 0x8000_0000_0000_0000,
    ensures
        !of_bits(bits).negative(),
        of_bits((bits + 0x8000_0000_0000_0000) as u64).negative(),
        of_bits((bits + 0x8000_0000_0000_0000) as u64).magnitude() == of_bits(bits).magnitude(),
        of_bits((bits + 0x8000_0000_0000_0000) as u64).is_nan() == of_bits(bits).is_nan(),
        of_bits(bits).is_nan() <==> bits > 0x7FF0_0000_0000_0000,
        of_bits(bits).is_infinite() <==> bits == 0x7FF0_0000_0000_0000,
        of_bits(bits).is_finite() <==> bits < 0x7FF0_0000_0000_0000,
{
}

// ── The operations ───────────────────────────────────────────────────────────

/// An integer converts to the nearest number.
pub proof fn lemma_from_u64(n: u64, r: F64)
    requires
        call_ensures(F64::from_u64, (n,), r),
    ensures
        r.is_finite(),
        !r.negative(),
        closest(r.magnitude(), n as nat * pow2(2148)),
{
    lemma_nearest_is_closest(n as nat * pow2(2148));
}

/// A product is the nearest number to the exact product, with the sign of the
/// exact product; it is infinite where that number is too large, or a factor is.
pub proof fn lemma_times(a: F64, b: F64, r: F64)
    requires
        call_ensures(F64::times, (a, b), r),
        !a.is_nan(),
        !b.is_nan(),
        !(a.is_infinite() && b.is_zero()),
        !(b.is_infinite() && a.is_zero()),
    ensures
        r.negative() == (a.negative() != b.negative()),
        !r.is_nan(),
        r.is_finite() ==> a.is_finite() && b.is_finite() && closest(
            r.magnitude(),
            a.magnitude() * b.magnitude(),
        ),
        r.is_infinite() && a.is_finite() && b.is_finite() ==> exists|m: nat|
            m >= pow2(2098) && #[trigger] closest(m, a.magnitude() * b.magnitude()),
{
    lemma_nearest_is_closest(a.magnitude() * b.magnitude());
    assert(overflow_bound() == pow2(2098));
}

/// Where there is no product, the result is not a number.
pub proof fn lemma_times_undefined(a: F64, b: F64, r: F64)
    requires
        call_ensures(F64::times, (a, b), r),
        a.is_nan() || b.is_nan() || (a.is_infinite() && b.is_zero()) || (b.is_infinite()
            && a.is_zero()),
    ensures
        r.is_nan(),
{
}

/// Truncation keeps the integer part, held within `u64`.
pub proof fn lemma_truncate(f: F64, r: u64)
    requires
        call_ensures(F64::truncate, (f,), r),
    ensures
        f.is_nan() || f.negative() ==> r == 0,
        f.is_infinite() && !f.negative() ==> r == u64::MAX,
        f.is_finite() && !f.negative() ==> r * pow2(1074) <= f.magnitude(),
        f.is_finite() && !f.negative() && r < u64::MAX ==> f.magnitude() < (r + 1) * pow2(1074),
{
    if f.is_finite() && !f.negative() {
        let m = f.magnitude();
        let u = pow2(1074);
        lemma_pow2_pos(1074);
        lemma_whole_part(m, u);
        assert(r * u <= (m / u) * u) by (nonlinear_arith)
            requires
                r <= m / u,
                u > 0,
        ;
    }
}

proof fn lemma_whole_part(m: nat, u: nat)
    requires
        u > 0,
    ensures
        (m / u) * u <= m < (m / u + 1) * u,
{
    vstd::arithmetic::div_mod::lemma_fundamental_div_mod(m as int, u as int);
    assert((m / u) * u <= m < (m / u + 1) * u) by (nonlinear_arith)
        requires
            m == u * (m / u) + m % u,
            0 <= m % u < u,
    ;
}

/// A portion of an amount: the amount converted to the nearest number, the product
/// rounded to the nearest number, its integer part taken and held within `u64`.
pub proof fn lemma_portion(f: F64, amount: u64, r: u64)
    requires
        call_ensures(F64::portion, (f, amount), r),
    ensures
        f.is_nan() || f.negative() ==> r == 0,
        f.is_infinite() && !f.negative() ==> r == if amount == 0 {
            0
        } else {
            u64::MAX
        },
        f.is_finite() && !f.negative() ==> portioned(f.magnitude(), amount, r),
{
    if f.is_finite() && !f.negative() {
        let a = nearest_integer(amount as nat);
        let p = nearest(a * f.magnitude());
        lemma_nearest_is_closest(amount as nat * pow2(2148));
        lemma_nearest_is_closest(a * f.magnitude());
        lemma_pow2_pos(1074);
        lemma_whole_part(p, pow2(1074));
        if r == u64::MAX {
            assert(r * pow2(1074) <= (p / pow2(1074)) * pow2(1074)) by (nonlinear_arith)
                requires
                    r <= p / pow2(1074),
                    pow2(1074) > 0,
            ;
        }
        assert(closest(a, amount as nat * pow2(2148)) && closest(p, a * f.magnitude()));
    }
}

/// Whether `r` is the portion that two roundings to the nearest number and a cut
/// give.
pub open spec fn portioned(magnitude: nat, amount: u64, r: u64) -> bool {
    exists|a: nat, p: nat| #[trigger]
        closest(a, amount as nat * pow2(2148)) && #[trigger] closest(p, a * magnitude) && r * pow2(
            1074,
        ) <= p && (r < u64::MAX ==> p < (r + 1) * pow2(1074))
}

} // verus!
