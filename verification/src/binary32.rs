//! Single-precision numbers as bit patterns.
//!
//! Every real number that reaches the graphics device is an IEEE 754 binary32
//! value. This module holds such a value as the 32 bits of its encoding, names
//! the three fields of the encoding, and rounds a ratio of two 16-bit integers
//! to the nearest encodable value.

use vstd::arithmetic::div_mod::lemma_fundamental_div_mod;
use vstd::arithmetic::power2::lemma2_to64;
use vstd::arithmetic::power2::lemma2_to64_rest;
use vstd::arithmetic::power2::lemma_pow2_adds;
use vstd::arithmetic::power2::lemma_pow2_pos;
use vstd::arithmetic::power2::lemma_pow2_strictly_increases;
use vstd::arithmetic::power2::lemma_pow2_unfold;
use vstd::arithmetic::power2::pow2;
use vstd::prelude::*;

verus! {

/// The encoding of `0.0`.
pub const ZERO: u32 = 0;

/// The encoding of `1.0`.
pub const ONE: u32 = 0x3f80_0000;

/// The encoding of `-1.0`.
pub const MINUS_ONE: u32 = 0xbf80_0000;

/// The weight of the implicit leading bit of a significand, `2^23`.
pub const HIDDEN_BIT: u32 = 0x0080_0000;

/// The weight of the sign bit, `2^31`.
pub const SIGN_BIT: u32 = 0x8000_0000;

/// Whether the sign bit of `bits` is set.
pub open spec fn negative(bits: u32) -> bool {
    bits >= SIGN_BIT
}

/// The biased exponent field of `bits`, in `0..=255`.
pub open spec fn exponent(bits: u32) -> int {
    (bits as int / HIDDEN_BIT as int) % 256
}

/// The fraction field of `bits`, in `0..2^23`.
pub open spec fn fraction(bits: u32) -> int {
    bits as int % HIDDEN_BIT as int
}

/// The significand of a normal number: the fraction with its implicit
/// leading bit. A normal `bits` stands for the magnitude
/// `significand(bits) * 2^(exponent(bits) - 150)`.
pub open spec fn significand(bits: u32) -> int {
    HIDDEN_BIT as int + fraction(bits)
}

/// The magnitude of `num`.
pub open spec fn magnitude(num: int) -> int {
    if num < 0 {
        -num
    } else {
        num
    }
}

/// `bits` encodes the binary32 value nearest to `num / den`, ties going to
/// the even significand.
///
/// For `num == 0` that is `ZERO`. Otherwise `bits` is a normal number with the
/// sign of `num`, significand `m` and one unit in the last place equal to
/// `2^-p`, where `p = 150 - exponent(bits)`. Its distance from the quotient,
/// scaled by `den * 2^p`, is `err = m * den - |num| * 2^p`, and
/// - the distance is at most half a unit in the last place;
/// - at exactly half a unit the significand is even;
/// - where `bits` is a power of two above the quotient, the distance is at
///   most a quarter of a unit, because the encodable values below a power of
///   two lie twice as close together.
pub open spec fn nearest(num: int, den: int, bits: u32) -> bool {
    if num == 0 {
        bits == ZERO
    } else {
        let m = significand(bits);
        let p = 150 - exponent(bits);
        let err = m * den - magnitude(num) * pow2(p as nat);
        &&& negative(bits) == (num < 0)
        &&& 1 <= exponent(bits) <= 150
        &&& -den <= 2 * err <= den
        &&& (2 * err == den || 2 * err == -den) ==> m % 2 == 0
        &&& (fraction(bits) == 0 && exponent(bits) > 1 && err > 0) ==> 4 * err <= den
    }
}

/// The encoding of the binary32 value nearest to `num / den`. For a positive
/// `den` there is exactly one (`lemma_nearest_is_unique`), and `round`
/// computes it.
pub open spec fn rounded(num: int, den: int) -> u32 {
    choose|bits: u32| nearest(num, den, bits)
}

/// Two significands with the same unit in the last place that both round one
/// quotient are equal. `e1` and `e2` are their scaled distances from it.
proof fn lemma_same_binade(m1: int, m2: int, d: int, e1: int, e2: int)
    requires
        d > 0,
        e1 - e2 == (m1 - m2) * d,
        -d <= 2 * e1 <= d,
        -d <= 2 * e2 <= d,
        (2 * e1 == d || 2 * e1 == -d) ==> m1 % 2 == 0,
        (2 * e2 == d || 2 * e2 == -d) ==> m2 % 2 == 0,
    ensures
        m1 == m2,
{
    if m1 > m2 {
        assert((m1 - m2) * d >= d) by (nonlinear_arith)
            requires
                m1 - m2 >= 1,
                d > 0,
        ;
        assert((m1 - m2) * d == d);
        assert(m1 - m2 == 1) by (nonlinear_arith)
            requires
                (m1 - m2) * d == d,
                d > 0,
        ;
    } else if m2 > m1 {
        assert((m2 - m1) * d >= d) by (nonlinear_arith)
            requires
                m2 - m1 >= 1,
                d > 0,
        ;
        assert((m1 - m2) * d == -((m2 - m1) * d)) by (nonlinear_arith);
        assert((m2 - m1) * d == d);
        assert(m2 - m1 == 1) by (nonlinear_arith)
            requires
                (m2 - m1) * d == d,
                d > 0,
        ;
    }
}

/// Two significands that both round one quotient have the same unit in the
/// last place. `m1` is the significand with the larger unit, `t` the ratio of
/// the two units, `x` the quotient's numerator scaled to the larger unit.
proof fn lemma_units_agree(m1: int, m2: int, d: int, x: int, t: int, e1: int, e2: int)
    requires
        d > 0,
        0x0080_0000 <= m1 < 0x0100_0000,
        0x0080_0000 <= m2 < 0x0100_0000,
        t == 1 || t == 2 || t >= 4,
        e1 == m1 * d - x,
        e2 == m2 * d - x * t,
        -d <= 2 * e1 <= d,
        -d <= 2 * e2 <= d,
        2 * e2 == -d ==> m2 % 2 == 0,
        (m1 == 0x0080_0000 && e1 > 0 && t > 1) ==> 4 * e1 <= d,
    ensures
        t == 1,
{
    if t != 1 {
        let gap = m1 * t - m2;
        assert(e1 * t == e2 + d * gap) by (nonlinear_arith)
            requires
                e1 == m1 * d - x,
                e2 == m2 * d - x * t,
                gap == m1 * t - m2,
        ;
        assert(m1 * t >= m1 * 2) by (nonlinear_arith)
            requires
                t >= 2,
                m1 >= 0,
        ;
        assert(gap >= 1);
        assert(d * gap >= d) by (nonlinear_arith)
            requires
                gap >= 1,
                d > 0,
        ;
        assert(e1 > 0) by (nonlinear_arith)
            requires
                e1 * t == e2 + d * gap,
                d * gap >= d,
                2 * e2 >= -d,
                d > 0,
                t >= 2,
        ;
        if m1 > 0x0080_0000 {
            assert(m1 * t >= 0x0080_0001 * t) by (nonlinear_arith)
                requires
                    m1 >= 0x0080_0001,
                    t >= 2,
            ;
            assert(gap >= t + 1);
            assert(d * gap >= d * t + d) by (nonlinear_arith)
                requires
                    gap >= t + 1,
                    d > 0,
            ;
            assert(2 * (e1 * t) > d * t) by (nonlinear_arith)
                requires
                    e1 * t == e2 + d * gap,
                    d * gap >= d * t + d,
                    2 * e2 >= -d,
                    d > 0,
                    t >= 2,
            ;
            assert(false) by (nonlinear_arith)
                requires
                    2 * (e1 * t) > d * t,
                    2 * e1 <= d,
                    t >= 2,
            ;
        } else if t >= 4 {
            assert(gap >= 0x0080_0000 * t - 0x0100_0000);
            assert(d * gap >= d * (0x0080_0000 * t - 0x0100_0000)) by (nonlinear_arith)
                requires
                    gap >= 0x0080_0000 * t - 0x0100_0000,
                    d > 0,
            ;
            assert(false) by (nonlinear_arith)
                requires
                    e1 * t == e2 + d * gap,
                    d * gap >= d * (0x0080_0000 * t - 0x0100_0000),
                    2 * e2 >= -d,
                    4 * e1 <= d,
                    d > 0,
                    t >= 4,
            ;
        } else {
            assert(d * gap <= d) by {
                assert(2 * e1 == e2 + d * gap);
            }
            assert(gap == 1) by (nonlinear_arith)
                requires
                    d * gap <= d,
                    gap >= 1,
                    d > 0,
            ;
            assert(d * gap == d) by (nonlinear_arith)
                requires
                    gap == 1,
            ;
        }
    }
}

/// An encoding is determined by its three fields.
proof fn lemma_fields_determine(b1: u32, b2: u32)
    requires
        negative(b1) == negative(b2),
        exponent(b1) == exponent(b2),
        fraction(b1) == fraction(b2),
    ensures
        b1 == b2,
{
    let h1 = b1 as int / HIDDEN_BIT as int;
    let h2 = b2 as int / HIDDEN_BIT as int;
    assert(h1 == exponent(b1) + (if negative(b1) {
        256int
    } else {
        0int
    }));
    assert(h2 == exponent(b2) + (if negative(b2) {
        256int
    } else {
        0int
    }));
}

/// At most one encoding is nearest to a quotient: `nearest` names a value.
pub proof fn lemma_nearest_is_unique(num: int, den: int, b1: u32, b2: u32)
    requires
        den > 0,
        nearest(num, den, b1),
        nearest(num, den, b2),
    ensures
        b1 == b2,
{
    if num != 0 {
        let n = magnitude(num);
        let m1 = significand(b1);
        let m2 = significand(b2);
        let pa = (150 - exponent(b1)) as nat;
        let pb = (150 - exponent(b2)) as nat;
        let e1 = m1 * den - n * pow2(pa);
        let e2 = m2 * den - n * pow2(pb);
        if pa <= pb {
            lemma_binade_ratio(pa, pb);
            assert(n * pow2(pb) == n * pow2(pa) * pow2((pb - pa) as nat)) by (nonlinear_arith)
                requires
                    pow2(pb) == pow2(pa) * pow2((pb - pa) as nat),
            ;
            lemma_units_agree(m1, m2, den, n * pow2(pa), pow2((pb - pa) as nat) as int, e1, e2);
        } else {
            lemma_binade_ratio(pb, pa);
            assert(n * pow2(pa) == n * pow2(pb) * pow2((pa - pb) as nat)) by (nonlinear_arith)
                requires
                    pow2(pa) == pow2(pb) * pow2((pa - pb) as nat),
            ;
            lemma_units_agree(m2, m1, den, n * pow2(pb), pow2((pa - pb) as nat) as int, e2, e1);
        }
        assert(pa == pb);
        assert(e1 - e2 == (m1 - m2) * den) by (nonlinear_arith)
            requires
                e1 == m1 * den - n * pow2(pa),
                e2 == m2 * den - n * pow2(pa),
        ;
        lemma_same_binade(m1, m2, den, e1, e2);
        lemma_fields_determine(b1, b2);
    }
}

/// The whole numbers `0`, `1` and `-1` are encodable, so they round to
/// themselves.
pub proof fn lemma_rounded_units()
    ensures
        rounded(0, 1) == ZERO,
        rounded(1, 1) == ONE,
        rounded(-1, 1) == MINUS_ONE,
{
    lemma2_to64();
    assert(nearest(0, 1, ZERO));
    assert(0x3f80_0000int / 0x0080_0000 == 127 && 0x3f80_0000int % 0x0080_0000 == 0);
    assert(0xbf80_0000int / 0x0080_0000 == 383 && 0xbf80_0000int % 0x0080_0000 == 0);
    assert(exponent(ONE) == 127 && fraction(ONE) == 0 && !negative(ONE));
    assert(exponent(MINUS_ONE) == 127 && fraction(MINUS_ONE) == 0 && negative(MINUS_ONE));
    assert(pow2(23) == 0x0080_0000);
    assert(significand(ONE) * 1 - magnitude(1) * pow2(23) == 0);
    assert(significand(MINUS_ONE) * 1 - magnitude(-1) * pow2(23) == 0);
    assert(nearest(1, 1, ONE));
    assert(nearest(-1, 1, MINUS_ONE));
    lemma_nearest_is_unique(0, 1, ZERO, rounded(0, 1));
    lemma_nearest_is_unique(1, 1, ONE, rounded(1, 1));
    lemma_nearest_is_unique(-1, 1, MINUS_ONE, rounded(-1, 1));
}

/// The units in the last place of two binades differ by a power of two:
/// by 1 where the binades are the same, else by 2 or by at least 4.
proof fn lemma_binade_ratio(low: nat, high: nat)
    requires
        low <= high,
    ensures
        pow2(high) == pow2(low) * pow2((high - low) as nat),
        pow2((high - low) as nat) == 1 <==> low == high,
        pow2((high - low) as nat) == 1 || pow2((high - low) as nat) == 2 || pow2(
            (high - low) as nat,
        ) >= 4,
{
    let k = (high - low) as nat;
    lemma_pow2_adds(low, k);
    lemma2_to64();
    if k > 2 {
        lemma_pow2_strictly_increases(2, k);
    }
}

/// Puts the three fields of an encoding together.
fn assemble(negative_sign: bool, exp: u32, frac: u32) -> (bits: u32)
    requires
        exp < 256,
        frac < HIDDEN_BIT,
    ensures
        negative(bits) == negative_sign,
        exponent(bits) == exp,
        fraction(bits) == frac,
{
    let magnitude_bits: u32 = exp * HIDDEN_BIT + frac;
    if negative_sign {
        SIGN_BIT + magnitude_bits
    } else {
        magnitude_bits
    }
}

/// The smaller of two powers of two has the smaller exponent.
proof fn lemma_pow2_below(p: nat, bound: nat)
    requires
        pow2(p) < pow2(bound),
    ensures
        p < bound,
{
    if p >= bound {
        if p > bound {
            lemma_pow2_strictly_increases(bound, p);
        }
    }
}

/// Rounds `num / den` to the nearest binary32 value, ties to even.
pub fn round(num: i16, den: u16) -> (bits: u32)
    requires
        den > 0,
    ensures
        nearest(num as int, den as int, bits),
        bits == rounded(num as int, den as int),
{
    let bits = round_nearest(num, den);
    proof {
        lemma_nearest_is_unique(num as int, den as int, bits, rounded(num as int, den as int));
    }
    bits
}

/// The rounding itself: scales the numerator until the quotient has 24
/// significant bits, divides, and rounds on the remainder.
fn round_nearest(num: i16, den: u16) -> (bits: u32)
    requires
        den > 0,
    ensures
        nearest(num as int, den as int, bits),
{
    if num == 0 {
        return ZERO;
    }
    let n: u64 = if num < 0 {
        (-(num as i32)) as u64
    } else {
        num as u64
    };
    let d: u64 = den as u64;
    let floor: u64 = d * 0x0080_0000;
    let mut scaled: u64 = n;
    let mut p: u32 = 0;
    proof {
        lemma2_to64();
    }
    while scaled < floor
        invariant
            1 <= n <= 32768,
            1 <= d <= 65535,
            floor == d * 0x0080_0000,
            scaled == n * pow2(p as nat),
            scaled < 2 * floor,
            p <= 39,
        decreases 39 - p,
    {
        proof {
            lemma2_to64_rest();
            lemma_pow2_pos(p as nat);
            lemma_pow2_unfold((p + 1) as nat);
            assert(n * (2 * pow2(p as nat)) == 2 * (n * pow2(p as nat))) by (nonlinear_arith);
            assert(pow2(p as nat) <= scaled) by (nonlinear_arith)
                requires
                    scaled == n * pow2(p as nat),
                    1 <= n,
            ;
            assert(pow2(p as nat) < pow2(39));
            lemma_pow2_below(p as nat, 39);
        }
        scaled = scaled * 2;
        p = p + 1;
    }
    assert(p >= 1) by {
        if p == 0 {
            assert(scaled == n);
        }
    }
    let quotient: u64 = scaled / d;
    let remainder: u64 = scaled % d;
    proof {
        lemma_fundamental_div_mod(scaled as int, d as int);
        assert(0x0080_0000 <= quotient < 0x0100_0000) by (nonlinear_arith)
            requires
                scaled == d * quotient + remainder,
                remainder < d,
                d * 0x0080_0000 <= scaled,
                scaled < 2 * (d * 0x0080_0000),
                1 <= d,
        ;
    }
    let up: bool = 2 * remainder > d || (2 * remainder == d && quotient % 2 == 1);
    let rounded: u64 = if up {
        quotient + 1
    } else {
        quotient
    };
    let carried: bool = rounded == 0x0100_0000;
    let m: u64 = if carried {
        0x0080_0000
    } else {
        rounded
    };
    let q: u32 = if carried {
        p - 1
    } else {
        p
    };
    let bits = assemble(num < 0, 150 - q, (m - 0x0080_0000) as u32);
    proof {
        let err = m * d - n * pow2(q as nat);
        assert(significand(bits) == m);
        assert(150 - exponent(bits) == q);
        assert(magnitude(num as int) == n);
        if carried {
            lemma_pow2_unfold(p as nat);
            assert(2 * err == d - remainder) by (nonlinear_arith)
                requires
                    err == m * d - n * pow2(q as nat),
                    m == 0x0080_0000,
                    pow2(p as nat) == 2 * pow2(q as nat),
                    scaled == n * pow2(p as nat),
                    scaled == d * quotient + remainder,
                    quotient == 0x00ff_ffff,
            ;
        } else {
            assert(err == m * d - scaled);
            assert(err == (if up {
                d - remainder
            } else {
                -(remainder as int)
            })) by (nonlinear_arith)
                requires
                    err == m * d - scaled,
                    m == quotient + (if up {
                        1int
                    } else {
                        0int
                    }),
                    scaled == d * quotient + remainder,
            ;
        }
    }
    bits
}

} // verus!
