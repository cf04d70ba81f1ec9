//! Rounding of natural numbers to a fixed number of significant bits.

use vstd::arithmetic::div_mod::{lemma_fundamental_div_mod, lemma_fundamental_div_mod_converse};
use vstd::arithmetic::mul::{
    lemma_mul_inequality, lemma_mul_is_commutative, lemma_mul_strict_inequality,
};
use vstd::arithmetic::power2::{
    lemma2_to64, lemma_pow2_adds, lemma_pow2_pos, lemma_pow2_strictly_increases, lemma_pow2_unfold,
    pow2,
};
use vstd::prelude::*;

verus! {

/// The number of binary digits of `x`; zero has none.
pub open spec fn bit_len(x: nat) -> nat
    decreases x,
{
    if x == 0 {
        0
    } else {
        1 + bit_len(x / 2)
    }
}

/// The integer nearest to `n / d`; a tie goes to the even neighbour.
pub open spec fn round_half_even(n: nat, d: nat) -> nat {
    let q = n / d;
    let r = n % d;
    if 2 * r < d || (2 * r == d && q % 2 == 0) {
        q
    } else {
        q + 1
    }
}

pub proof fn lemma_pow2_monotone(a: nat, b: nat)
    requires
        a <= b,
    ensures
        pow2(a) <= pow2(b),
{
    if a < b {
        lemma_pow2_strictly_increases(a, b);
    }
}

/// A positive number lies between the two powers of two that its length names.
pub proof fn lemma_bit_len_bounds(x: nat)
    requires
        x > 0,
    ensures
        bit_len(x) > 0,
        pow2((bit_len(x) - 1) as nat) <= x < pow2(bit_len(x)),
    decreases x,
{
    lemma2_to64();
    if x / 2 == 0 {
        assert(bit_len(x / 2) == 0);
    } else {
        lemma_bit_len_bounds(x / 2);
        lemma_pow2_unfold(bit_len(x / 2));
        lemma_pow2_unfold(bit_len(x));
    }
}

/// The length of a number is the only exponent whose powers of two enclose it.
pub proof fn lemma_bit_len_unique(x: nat, k: nat)
    requires
        k > 0,
        pow2((k - 1) as nat) <= x < pow2(k),
    ensures
        bit_len(x) == k,
{
    lemma_pow2_pos((k - 1) as nat);
    lemma_bit_len_bounds(x);
    let l = bit_len(x);
    if l < k {
        lemma_pow2_monotone(l, (k - 1) as nat);
    }
    if k < l {
        lemma_pow2_monotone(k, (l - 1) as nat);
    }
}

/// Multiplying by a power of two appends binary zeros.
pub proof fn lemma_bit_len_shift(p: nat, t: nat)
    requires
        p > 0,
    ensures
        bit_len(p * pow2(t)) == bit_len(p) + t,
{
    let l = bit_len(p);
    lemma_bit_len_bounds(p);
    lemma_pow2_adds((l - 1) as nat, t);
    lemma_pow2_adds(l, t);
    lemma_pow2_pos(t);
    lemma_mul_inequality(pow2((l - 1) as nat) as int, p as int, pow2(t) as int);
    lemma_mul_strict_inequality(p as int, pow2(l) as int, pow2(t) as int);
    assert((l - 1) as nat + t == (l + t - 1) as nat);
    lemma_bit_len_unique(p * pow2(t), l + t);
}

/// A number below `2^k` has at most `k` digits.
pub proof fn lemma_bit_len_at_most(x: nat, k: nat)
    requires
        x < pow2(k),
    ensures
        bit_len(x) <= k,
{
    if x > 0 {
        lemma_bit_len_bounds(x);
        if bit_len(x) > k {
            lemma_pow2_monotone(k, (bit_len(x) - 1) as nat);
        }
    }
}

/// A number from `2^k` on has more than `k` digits.
pub proof fn lemma_bit_len_at_least(x: nat, k: nat)
    requires
        x >= pow2(k),
    ensures
        bit_len(x) > k,
{
    lemma_pow2_pos(k);
    lemma_bit_len_bounds(x);
    if bit_len(x) <= k {
        lemma_pow2_monotone(bit_len(x), k);
    }
}

/// A common factor of numerator and denominator does not change the rounding.
pub proof fn lemma_round_common_factor(n: nat, d: nat, c: nat)
    requires
        d > 0,
        c > 0,
    ensures
        round_half_even(n * c, d * c) == round_half_even(n, d),
{
    let q = n / d;
    let r = n % d;
    lemma_fundamental_div_mod(n as int, d as int);
    assert(n == d * q + r);
    assert(n * c == q * (d * c) + r * c) by (nonlinear_arith)
        requires
            n == d * q + r,
    ;
    assert(0 <= r * c < d * c) by (nonlinear_arith)
        requires
            0 <= r < d,
            c > 0,
    ;
    lemma_fundamental_div_mod_converse(
        (n * c) as int,
        (d * c) as int,
        q as int,
        (r * c) as int,
    );
    assert((2 * r < d) == (2 * (r * c) < d * c)) by (nonlinear_arith)
        requires
            c > 0,
    ;
    assert((2 * r == d) == (2 * (r * c) == d * c)) by (nonlinear_arith)
        requires
            c > 0,
    ;
}

/// An exact quotient is its own rounding.
pub proof fn lemma_round_exact(q: nat, d: nat)
    requires
        d > 0,
    ensures
        round_half_even(q * d, d) == q,
{
    lemma_fundamental_div_mod_converse((q * d) as int, d as int, q as int, 0);
}

/// Less than half of the denominator rounds to zero.
pub proof fn lemma_round_small(n: nat, d: nat)
    requires
        2 * n < d,
    ensures
        round_half_even(n, d) == 0,
{
    lemma_fundamental_div_mod_converse(n as int, d as int, 0, n as int);
}

/// Rounding respects integer bounds on the quotient.
pub proof fn lemma_round_between(n: nat, d: nat, lo: nat, hi: nat)
    requires
        d > 0,
        lo * d <= n <= hi * d,
    ensures
        lo <= round_half_even(n, d) <= hi,
{
    let q = n / d;
    let r = n % d;
    lemma_fundamental_div_mod(n as int, d as int);
    assert(lo <= q) by (nonlinear_arith)
        requires
            n == d * q + r,
            0 <= r < d,
            lo * d <= n,
    ;
    assert(q < hi || (q == hi && r == 0)) by (nonlinear_arith)
        requires
            n == d * q + r,
            0 <= r < d,
            n <= hi * d,
    ;
}

/// Rounding moves a quotient by at most one half.
pub proof fn lemma_round_error(n: nat, d: nat)
    requires
        d > 0,
    ensures
        2 * (round_half_even(n, d) * d) <= 2 * n + d,
        2 * n <= 2 * (round_half_even(n, d) * d) + d,
{
    let q = n / d;
    let r = n % d;
    lemma_fundamental_div_mod(n as int, d as int);
    lemma_mul_is_commutative(d as int, q as int);
    assert((q + 1) * d == q * d + d) by (nonlinear_arith);
}

} // verus!
