//! The pulse period of a clock, turned into ticks.
//!
//! A period arrives as a double-precision number of microseconds. Its value
//! is read from the bit pattern and the number of ticks is computed in
//! integers, so that the result is the exact quotient, rounded once.

use crate::value::Float;
use vstd::arithmetic::div_mod::{lemma_basic_div, lemma_div_is_ordered, lemma_div_multiples_vanish};
use vstd::arithmetic::power2::{lemma2_to64, lemma_pow2_adds, lemma_pow2_pos, lemma_pow2_unfold, pow2};
use vstd::prelude::*;

verus! {

/// The sign bit of a double.
pub open spec fn float_sign(bits: u64) -> int {
    bits as int / 0x8000_0000_0000_0000
}

/// The exponent field of a double.
pub open spec fn float_exp(bits: u64) -> int {
    (bits as int / 0x10_0000_0000_0000) % 2048
}

/// The fraction field of a double.
pub open spec fn float_frac(bits: u64) -> int {
    bits as int % 0x10_0000_0000_0000
}

/// The integer `m` of a finite double `m * 2^s`.
pub open spec fn float_mantissa(bits: u64) -> int {
    if float_exp(bits) == 0 {
        float_frac(bits)
    } else {
        0x10_0000_0000_0000 + float_frac(bits)
    }
}

/// The power `s` of a finite double `m * 2^s`.
pub open spec fn float_scale(bits: u64) -> int {
    if float_exp(bits) == 0 {
        -1074
    } else {
        float_exp(bits) - 1075
    }
}

/// `num / den`, rounded to the nearest integer, a half upwards.
pub open spec fn round_ratio(num: int, den: int) -> int {
    (2 * num + den) / (2 * den)
}

/// The number of ticks that `period * sample_rate / 1_000_000` rounds to,
/// for a period given in microseconds.
pub open spec fn scaled_ticks(bits: u64, sample_rate: usize) -> int {
    let n = float_mantissa(bits) * sample_rate;
    let s = float_scale(bits);
    if s >= 0 {
        round_ratio(n * pow2(s as nat) as int, 1_000_000)
    } else {
        round_ratio(n, 1_000_000 * pow2((-s) as nat) as int)
    }
}

/// The ticks between two steps of a clock with the given period: at least
/// one, at most what a tick count can hold. A negative period and one that
/// is no number count as zero.
pub open spec fn period_ticks_spec(bits: u64, sample_rate: usize) -> usize {
    if float_sign(bits) != 0 || (float_exp(bits) == 2047 && float_frac(bits) != 0) {
        1
    } else if float_exp(bits) == 2047 {
        usize::MAX
    } else if scaled_ticks(bits, sample_rate) < 1 {
        1
    } else if scaled_ticks(bits, sample_rate) > usize::MAX {
        usize::MAX
    } else {
        scaled_ticks(bits, sample_rate) as usize
    }
}

proof fn lemma_round_zero(num: int, den: int)
    requires
        0 <= 2 * num < den,
    ensures
        round_ratio(num, den) == 0,
{
    lemma_basic_div(2 * num + den, 2 * den);
}

proof fn lemma_round_big(num: int, den: int, c: int)
    requires
        den > 0,
        c >= 0,
        num >= c * den,
    ensures
        round_ratio(num, den) >= c,
{
    assert((2 * den) * c <= 2 * num + den) by (nonlinear_arith)
        requires
            den > 0,
            num >= c * den,
    ;
    lemma_div_is_ordered((2 * den) * c, 2 * num + den, 2 * den);
    lemma_div_multiples_vanish(c, 2 * den);
}

/// A bound no tick count exceeds.
pub const SATURATED: u128 = 0x1_0000_0000_0000_0000;

/// What a count too large to matter is cut down to.
pub open spec fn saturate(r: int) -> int {
    if r > SATURATED {
        SATURATED as int
    } else {
        r
    }
}

fn scale_up(n: u128, x: u64) -> (r: u128)
    requires
        n < 0x20_0000_0000_0000_0000_0000_0000_0000,
    ensures
        r == saturate(round_ratio(n as int * pow2(x as nat) as int, 1_000_000)),
{
    if n == 0 {
        proof {
            assert(0 * pow2(x as nat) == 0);
            lemma_round_zero(0, 1_000_000);
        }
        return 0;
    }
    let mut v: u128 = n;
    let mut i: u64 = 0;
    proof {
        lemma2_to64();
        assert(n * pow2(0) == n);
    }
    while i < x
        invariant
            i <= x,
            n >= 1,
            v == n * pow2(i as nat),
            v < 0x20_0000_0000_0000_0000_0000_0000_0000,
        decreases x - i,
    {
        if v >= 0x10_0000_0000_0000_0000_0000_0000 {
            proof {
                let rest = (x - i) as nat;
                lemma_pow2_adds(i as nat, rest);
                lemma_pow2_pos(rest);
                let full: int = n as int * pow2(x as nat) as int;
                assert(full == v * pow2(rest)) by (nonlinear_arith)
                    requires
                        full == n * pow2(x as nat),
                        pow2(x as nat) == pow2(i as nat) * pow2(rest),
                        v == n * pow2(i as nat),
                ;
                assert(full >= v) by (nonlinear_arith)
                    requires
                        full == v * pow2(rest),
                        pow2(rest) >= 1,
                        v >= 0,
                ;
                lemma_round_big(full, 1_000_000, SATURATED as int + 1);
            }
            return SATURATED;
        }
        proof {
            lemma_pow2_unfold((i + 1) as nat);
            assert(n * (2 * pow2(i as nat)) == 2 * (n * pow2(i as nat))) by (nonlinear_arith);
        }
        v = v * 2;
        i += 1;
    }
    let r = (2 * v + 1_000_000) / 2_000_000;
    if r > SATURATED {
        SATURATED
    } else {
        r
    }
}

fn scale_down(n: u128, k: u64) -> (r: u128)
    requires
        n < 0x20_0000_0000_0000_0000_0000_0000_0000,
    ensures
        r == saturate(round_ratio(n as int, 1_000_000 * pow2(k as nat) as int)),
{
    let mut d: u128 = 1_000_000;
    let mut i: u64 = 0;
    proof {
        lemma2_to64();
        assert(1_000_000 * pow2(0) == 1_000_000);
    }
    while i < k
        invariant
            i <= k,
            d == 1_000_000 * pow2(i as nat),
            1_000_000 <= d < 0x80_0000_0000_0000_0000_0000_0000_0000,
            n < 0x20_0000_0000_0000_0000_0000_0000_0000,
        decreases k - i,
    {
        if d >= 0x40_0000_0000_0000_0000_0000_0000_0000 {
            proof {
                let rest = (k - i) as nat;
                lemma_pow2_adds(i as nat, rest);
                lemma_pow2_pos(rest);
                let full: int = 1_000_000 * pow2(k as nat) as int;
                assert(full == d * pow2(rest)) by (nonlinear_arith)
                    requires
                        full == 1_000_000 * pow2(k as nat),
                        pow2(k as nat) == pow2(i as nat) * pow2(rest),
                        d == 1_000_000 * pow2(i as nat),
                ;
                assert(full >= d) by (nonlinear_arith)
                    requires
                        full == d * pow2(rest),
                        pow2(rest) >= 1,
                        d >= 0,
                ;
                lemma_round_zero(n as int, full);
            }
            return 0;
        }
        proof {
            lemma_pow2_unfold((i + 1) as nat);
            assert(1_000_000 * (2 * pow2(i as nat)) == 2 * (1_000_000 * pow2(i as nat)))
                by (nonlinear_arith);
        }
        d = d * 2;
        i += 1;
    }
    let r = (2 * n + d) / (2 * d);
    if r > SATURATED {
        SATURATED
    } else {
        r
    }
}

/// The ticks between two steps of a clock whose period is `period`
/// microseconds, at `sample_rate` ticks per second.
pub fn period_ticks(period: Float, sample_rate: usize) -> (t: usize)
    ensures
        t == period_ticks_spec(period.bits, sample_rate),
        t >= 1,
{
    let bits = period.bits;
    let sign = bits / 0x8000_0000_0000_0000;
    let e = (bits / 0x10_0000_0000_0000) % 2048;
    let f = bits % 0x10_0000_0000_0000;
    if sign != 0 || (e == 2047 && f != 0) {
        return 1;
    }
    if e == 2047 {
        return usize::MAX;
    }
    let m: u128 = if e == 0 {
        f as u128
    } else {
        0x10_0000_0000_0000u128 + f as u128
    };
    let sr = sample_rate as u128;
    assert(m * sr <= 0x20_0000_0000_0000 * 0xffff_ffff_ffff_ffff) by (nonlinear_arith)
        requires
            m <= 0x20_0000_0000_0000,
            sr <= 0xffff_ffff_ffff_ffff,
    ;
    let n: u128 = m * sr;
    let r: u128 = if e >= 1075 {
        scale_up(n, e - 1075)
    } else if e == 0 {
        scale_down(n, 1074)
    } else {
        scale_down(n, 1075 - e)
    };
    if r < 1 {
        1
    } else if r > usize::MAX as u128 {
        usize::MAX
    } else {
        r as usize
    }
}

} // verus!
