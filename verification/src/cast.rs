//! Conversions between integers and floating-point encodings, computed on
//! the bits.

use vstd::prelude::*;
use vstd::arithmetic::power2::{
    lemma2_to64,
    lemma2_to64_rest,
    lemma_pow2_adds,
    lemma_pow2_pos,
    lemma_pow2_strictly_increases,
    lemma_pow2_unfold,
    pow2,
};
use crate::number::{Double, Single};

verus! {

/// The position of the highest bit that is set in `m`, counted from zero.
pub open spec fn leading_bit(m: nat) -> nat
    decreases m,
{
    if m <= 1 {
        0
    } else {
        1 + leading_bit(m / 2)
    }
}

/// The quotient of `n` by `d`, rounded to the nearest integer; halfway
/// between two integers, to the even one.
pub open spec fn round_half_even(n: nat, d: nat) -> nat {
    let q = n / d;
    let r = n % d;
    if 2 * r > d || (2 * r == d && q % 2 == 1) {
        q + 1
    } else {
        q
    }
}

/// The rounded quotient is an integer nearest to the exact quotient: it lies
/// no more than a half away. Where two integers are equally near, it is the
/// even one.
pub proof fn lemma_round_half_even(n: nat, d: nat)
    requires
        d > 0,
    ensures
        2 * (round_half_even(n, d) * d - n) <= d,
        2 * (n - round_half_even(n, d) * d) <= d,
        2 * (round_half_even(n, d) * d - n) == d || 2 * (n - round_half_even(n, d) * d) == d
            ==> round_half_even(n, d) % 2 == 0,
{
    let q = n / d;
    let r = n % d;
    assert(q * d + r == n && 0 <= r < d) by (nonlinear_arith)
        requires
            q == n / d,
            r == n % d,
            d > 0,
    ;
    assert((q + 1) * d == q * d + d) by (nonlinear_arith);
    if 2 * r == d && q % 2 == 1 {
        assert((q + 1) % 2 == 0);
    }
}

/// The encoding of the single-precision number nearest to the natural number
/// `m`, halfway cases going to the even fraction. With `e` the position of
/// the leading bit of `m`, the exponent field is `e + 127` and the fraction
/// is `m` scaled to 24 bits, without its leading bit; a fraction that rounds
/// up to 25 bits carries into the exponent.
pub open spec fn single_of_nat(m: nat) -> nat {
    if m == 0 {
        0
    } else {
        let e = leading_bit(m);
        if e <= 23 {
            (e + 126) * 0x80_0000 + m * pow2((23 - e) as nat)
        } else {
            (e + 126) * 0x80_0000 + round_half_even(m, pow2((e - 23) as nat))
        }
    }
}

/// The encoding of the single-precision number nearest to the integer `v`.
pub open spec fn single_of_int(v: int) -> nat {
    if v < 0 {
        0x8000_0000 + single_of_nat((-v) as nat)
    } else {
        single_of_nat(v as nat)
    }
}

/// A number between two neighbouring powers of two has its leading bit at
/// the exponent of the lower one.
pub proof fn lemma_leading_bit(m: nat, e: nat)
    requires
        pow2(e) <= m < pow2(e + 1),
    ensures
        leading_bit(m) == e,
    decreases e,
{
    lemma_pow2_unfold(e + 1);
    if e == 0 {
        lemma2_to64();
    } else {
        lemma_pow2_unfold(e);
        lemma_leading_bit(m / 2, (e - 1) as nat);
    }
}

/// Powers of two below the sixty-fourth fit in 64 bits.
proof fn lemma_pow2_fits(k: nat)
    requires
        k <= 63,
    ensures
        0 < pow2(k) <= 0x8000_0000_0000_0000,
{
    lemma2_to64();
    lemma2_to64_rest();
    lemma_pow2_pos(k);
    if k < 63 {
        lemma_pow2_strictly_increases(k, 63);
    }
}

/// Two to the power `k`.
pub fn power_of_two(k: u32) -> (p: u64)
    requires
        k <= 63,
    ensures
        p == pow2(k as nat),
{
    let mut p: u64 = 1;
    let mut i: u32 = 0;
    proof {
        lemma2_to64();
    }
    while i < k
        invariant
            i <= k <= 63,
            p == pow2(i as nat),
        decreases k - i,
    {
        proof {
            lemma_pow2_unfold((i + 1) as nat);
            lemma_pow2_fits((i + 1) as nat);
        }
        p = p * 2;
        i = i + 1;
    }
    p
}

/// Divides and rounds to the nearest integer, halfway cases to the even
/// one.
pub fn divide_round_half_even(n: u64, d: u64) -> (q: u64)
    requires
        d > 0,
    ensures
        q == round_half_even(n as nat, d as nat),
        n / d <= q <= n / d + 1,
{
    let q: u64 = n / d;
    let r: u64 = n % d;
    assert(q * d + r == n && r < d) by (nonlinear_arith)
        requires
            q == n / d,
            r == n % d,
            d > 0,
    ;
    if r > d - r || (r == d - r && q % 2 == 1) {
        assert(q < u64::MAX) by (nonlinear_arith)
            requires
                q * d + r == n,
                r > 0,
                d >= 1,
                n <= u64::MAX,
        ;
        q + 1
    } else {
        q
    }
}

/// The single-precision number nearest to `m`.
pub fn single_from_u32(m: u32) -> (x: Single)
    ensures
        x.bits == single_of_nat(m as nat),
        x.bits < 0x8000_0000,
{
    if m == 0 {
        return Single { bits: 0 };
    }
    let wide: u64 = m as u64;
    let mut e: u32 = 0;
    let mut p: u64 = 1;
    proof {
        lemma2_to64();
    }
    while p * 2 <= wide
        invariant
            e <= 31,
            p == pow2(e as nat),
            1 <= p <= wide,
            wide == m,
        decreases wide - p,
    {
        proof {
            lemma2_to64();
            lemma_pow2_unfold((e + 1) as nat);
            if e + 1 >= 32 {
                if e + 1 > 32 {
                    lemma_pow2_strictly_increases(32, (e + 1) as nat);
                }
                assert(false);
            }
        }
        p = p * 2;
        e = e + 1;
    }
    proof {
        lemma_pow2_unfold((e + 1) as nat);
        lemma_leading_bit(m as nat, e as nat);
    }
    let scaled: u64 = if e <= 23 {
        let scale: u64 = power_of_two(23 - e);
        proof {
            lemma_pow2_adds((e + 1) as nat, (23 - e) as nat);
            lemma_pow2_fits((23 - e) as nat);
            assert(wide * scale < 0x100_0000) by (nonlinear_arith)
                requires
                    wide < pow2((e + 1) as nat),
                    scale == pow2((23 - e) as nat),
                    pow2((e + 1) as nat) * pow2((23 - e) as nat) == 0x100_0000,
                    scale > 0,
            ;
        }
        wide * scale
    } else {
        let d: u64 = power_of_two(e - 23);
        proof {
            lemma_pow2_adds((e - 23) as nat, 24);
            lemma_pow2_fits((e - 23) as nat);
            assert(wide / d < 0x100_0000) by (nonlinear_arith)
                requires
                    wide < pow2((e + 1) as nat),
                    d == pow2((e - 23) as nat),
                    pow2((e - 23) as nat) * 0x100_0000 == pow2((e + 1) as nat),
                    d > 0,
            ;
        }
        divide_round_half_even(wide, d)
    };
    let bits: u64 = (e as u64 + 126) * 0x80_0000 + scaled;
    Single { bits: bits as u32 }
}

/// The single-precision number nearest to `v`.
pub fn single_from_i32(v: i32) -> (x: Single)
    ensures
        x.bits == single_of_int(v as int),
{
    if v < 0 {
        let magnitude: u32 = (-(v as i64)) as u32;
        let positive = single_from_u32(magnitude);
        Single { bits: 0x8000_0000 + positive.bits }
    } else {
        single_from_u32(v as u32)
    }
}

/// The encoding of the single-precision number nearest to the
/// double-precision number with the encoding `bits`, halfway cases going
/// to the even fraction. An infinity stays one, a number too large becomes
/// one, a number too small becomes a subnormal number or zero. A value that
/// is not a number becomes the quiet one that keeps the upper bits of its
/// payload.
pub open spec fn single_of_double(bits: nat) -> nat {
    let sign = bits / 0x8000_0000_0000_0000;
    let exponent = bits / 0x10_0000_0000_0000 % 2048;
    let fraction = bits % 0x10_0000_0000_0000;
    let significand = 0x10_0000_0000_0000 + fraction;
    let magnitude: nat = if exponent == 2047 {
        if fraction == 0 {
            0x7f80_0000
        } else {
            0x7fc0_0000 + fraction / 0x2000_0000 % 0x40_0000
        }
    } else if exponent == 0 {
        0
    } else if exponent >= 1151 {
        0x7f80_0000
    } else if exponent >= 897 {
        ((exponent - 897) * 0x80_0000 + round_half_even(significand, 0x2000_0000)) as nat
    } else {
        round_half_even(significand, pow2((926 - exponent) as nat))
    };
    sign * 0x8000_0000 + magnitude
}

/// The unsigned integer that a single-precision number is cut down to: its
/// integer part, zero for a negative number and for a value that is not a
/// number, the largest integer for a number too large.
pub open spec fn uint_of_single(bits: nat) -> nat {
    let sign = bits / 0x8000_0000;
    let exponent = bits / 0x80_0000 % 256;
    let fraction = bits % 0x80_0000;
    let significand = 0x80_0000 + fraction;
    if sign == 1 || exponent < 127 || (exponent == 255 && fraction != 0) {
        0
    } else if exponent >= 159 {
        0xffff_ffff
    } else if exponent >= 150 {
        significand * pow2((exponent - 150) as nat)
    } else {
        significand / pow2((150 - exponent) as nat)
    }
}

/// The unsigned integer that a double-precision number is cut down to: its
/// integer part, zero for a negative number and for a value that is not a
/// number, the largest integer for a number too large.
pub open spec fn uint_of_double(bits: nat) -> nat {
    let sign = bits / 0x8000_0000_0000_0000;
    let exponent = bits / 0x10_0000_0000_0000 % 2048;
    let fraction = bits % 0x10_0000_0000_0000;
    let significand = 0x10_0000_0000_0000 + fraction;
    if sign == 1 || exponent < 1023 || (exponent == 2047 && fraction != 0) {
        0
    } else if exponent >= 1055 {
        0xffff_ffff
    } else {
        significand / pow2((1075 - exponent) as nat)
    }
}

/// The unsigned integer with the bits of the signed integer `v`.
pub open spec fn uint_of_int(v: int) -> nat {
    if v < 0 {
        (v + 0x1_0000_0000) as nat
    } else {
        v as nat
    }
}

/// The single-precision number nearest to `x`.
pub fn single_from_double(x: Double) -> (y: Single)
    ensures
        y.bits == single_of_double(x.bits as nat),
{
    let sign: u64 = x.bits / 0x8000_0000_0000_0000;
    let exponent: u64 = x.bits / 0x10_0000_0000_0000 % 2048;
    let fraction: u64 = x.bits % 0x10_0000_0000_0000;
    let significand: u64 = 0x10_0000_0000_0000 + fraction;
    let magnitude: u64 = if exponent == 2047 {
        if fraction == 0 {
            0x7f80_0000
        } else {
            0x7fc0_0000 + fraction / 0x2000_0000 % 0x40_0000
        }
    } else if exponent == 0 {
        0
    } else if exponent >= 1151 {
        0x7f80_0000
    } else if exponent >= 897 {
        let rounded: u64 = divide_round_half_even(significand, 0x2000_0000);
        (exponent - 897) * 0x80_0000 + rounded
    } else if exponent >= 872 {
        let d: u64 = power_of_two((926 - exponent) as u32);
        proof {
            lemma2_to64();
            if 926 - exponent > 30 {
                lemma_pow2_strictly_increases(30, (926 - exponent) as nat);
            }
            assert(significand / d < 0x80_0000) by (nonlinear_arith)
                requires
                    significand < 0x20_0000_0000_0000,
                    d >= 0x4000_0000,
            ;
        }
        divide_round_half_even(significand, d)
    } else {
        proof {
            let k = (926 - exponent) as nat;
            lemma2_to64();
            lemma2_to64_rest();
            lemma_pow2_strictly_increases(54, k);
            let d = pow2(k);
            assert(significand as nat / d == 0 && significand as nat % d == significand)
                by (nonlinear_arith)
                requires
                    significand < d,
            ;
        }
        0
    };
    assert(magnitude < 0x8000_0000);
    Single { bits: (sign * 0x8000_0000 + magnitude) as u32 }
}

/// The integer part of `x` as an unsigned integer, kept inside the range of
/// the type.
pub fn u32_from_single(x: Single) -> (v: u32)
    ensures
        v == uint_of_single(x.bits as nat),
{
    let sign: u32 = x.bits / 0x8000_0000;
    let exponent: u32 = x.bits / 0x80_0000 % 256;
    let fraction: u32 = x.bits % 0x80_0000;
    let significand: u64 = 0x80_0000 + fraction as u64;
    if sign == 1 || exponent < 127 || (exponent == 255 && fraction != 0) {
        0
    } else if exponent >= 159 {
        0xffff_ffff
    } else if exponent >= 150 {
        let scale: u64 = power_of_two(exponent - 150);
        proof {
            lemma2_to64();
            if exponent - 150 < 8 {
                lemma_pow2_strictly_increases((exponent - 150) as nat, 8);
            }
            assert(significand * scale < 0x1_0000_0000) by (nonlinear_arith)
                requires
                    significand < 0x100_0000,
                    0 < scale <= 256,
            ;
        }
        (significand * scale) as u32
    } else {
        let d: u64 = power_of_two(150 - exponent);
        proof {
            lemma_pow2_fits((150 - exponent) as nat);
        }
        (significand / d) as u32
    }
}

/// The integer part of `x` as an unsigned integer, kept inside the range of
/// the type.
pub fn u32_from_double(x: Double) -> (v: u32)
    ensures
        v == uint_of_double(x.bits as nat),
{
    let sign: u64 = x.bits / 0x8000_0000_0000_0000;
    let exponent: u64 = x.bits / 0x10_0000_0000_0000 % 2048;
    let fraction: u64 = x.bits % 0x10_0000_0000_0000;
    let significand: u64 = 0x10_0000_0000_0000 + fraction;
    if sign == 1 || exponent < 1023 || (exponent == 2047 && fraction != 0) {
        0
    } else if exponent >= 1055 {
        0xffff_ffff
    } else {
        let d: u64 = power_of_two((1075 - exponent) as u32);
        proof {
            lemma2_to64();
            lemma_pow2_fits((1075 - exponent) as nat);
            if 1075 - exponent > 21 {
                lemma_pow2_strictly_increases(21, (1075 - exponent) as nat);
            }
            assert(significand / d < 0x1_0000_0000) by (nonlinear_arith)
                requires
                    significand < 0x20_0000_0000_0000,
                    d >= 0x20_0000,
            ;
        }
        (significand / d) as u32
    }
}

/// The unsigned integer with the bits of `v`.
pub fn u32_from_i32(v: i32) -> (u: u32)
    ensures
        u == uint_of_int(v as int),
{
    if v < 0 {
        (v as i64 + 0x1_0000_0000) as u32
    } else {
        v as u32
    }
}

} // verus!
