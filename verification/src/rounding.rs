//! Rounding to the nearest, with ties going to the even neighbour.

use vstd::prelude::*;

verus! {

/// The whole number nearest to `num / den`; of two that are equally near, the
/// even one.
pub open spec fn rounded_quotient(num: nat, den: nat) -> nat
    recommends
        den > 0,
{
    let q = num / den;
    let r = num % den;
    if 2 * r < den {
        q
    } else if 2 * r > den {
        q + 1
    } else if q % 2 == 0 {
        q
    } else {
        q + 1
    }
}

/// The distance between neighbouring double-precision numbers around `n`: 1 up
/// to 2^53, and twice as much for each further binary digit.
pub open spec fn double_spacing(n: nat) -> nat
    decreases n,
{
    if n < 0x20_0000_0000_0000 {
        1
    } else {
        2 * double_spacing(n / 2)
    }
}

/// The double-precision number nearest to `n`, which is what `n` becomes when it
/// is converted to one.
pub open spec fn nearest_double(n: nat) -> nat {
    rounded_quotient(n, double_spacing(n)) * double_spacing(n)
}

/// Rounding is off by at most half: twice the distance between the rounded
/// quotient, scaled back by `den`, and `num` is at most `den`.
pub proof fn lemma_rounded_quotient_is_nearest(num: nat, den: nat)
    requires
        den > 0,
    ensures
        2 * (rounded_quotient(num, den) * den - num) <= den,
        2 * (num - rounded_quotient(num, den) * den) <= den,
{
    let q = num / den;
    let r = num % den;
    assert(num == q * den + r) by {
        vstd::arithmetic::div_mod::lemma_fundamental_div_mod(num as int, den as int);
        assert(den * q == q * den) by (nonlinear_arith);
    }
    assert((q + 1) * den == q * den + den) by (nonlinear_arith);
}

/// Divides, rounding to the nearest whole number and ties to the even one.
pub(crate) fn round_half_even(num: u128, den: u64) -> (rounded: u128)
    requires
        den > 0,
        num < u128::MAX,
    ensures
        rounded == rounded_quotient(num as nat, den as nat),
{
    let d: u128 = den as u128;
    let q: u128 = num / d;
    let r: u128 = num % d;
    if 2 * r < d {
        q
    } else if 2 * r > d {
        q + 1
    } else if q % 2 == 0 {
        q
    } else {
        q + 1
    }
}

/// Computes the distance between neighbouring double-precision numbers around `n`.
pub(crate) fn spacing_of(n: u64) -> (spacing: u64)
    ensures
        spacing == double_spacing(n as nat),
        1 <= spacing <= 4096,
{
    let mut spacing: u64 = 1;
    let mut m: u64 = n;
    while m >= 0x20_0000_0000_0000
        invariant
            1 <= spacing <= 4096,
            spacing * m <= n,
            double_spacing(n as nat) == spacing * double_spacing(m as nat),
        decreases m,
    {
        assert(spacing < 2048 && (spacing * 2) * (m / 2) <= n) by (nonlinear_arith)
            requires
                spacing * m <= n,
                m >= 0x20_0000_0000_0000,
                n <= u64::MAX,
                1 <= spacing,
        ;
        assert(spacing * (2 * double_spacing((m / 2) as nat)) == (spacing * 2) * double_spacing(
            (m / 2) as nat,
        )) by (nonlinear_arith);
        spacing = spacing * 2;
        m = m / 2;
    }
    assert(spacing * double_spacing(m as nat) == spacing) by (nonlinear_arith)
        requires
            double_spacing(m as nat) == 1,
    ;
    spacing
}

} // verus!
