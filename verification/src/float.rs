//! Doubles as bit patterns: their order, their sign, and their conversion from and to
//! 32-bit integers.

use crate::order::Order;
use vstd::prelude::*;

verus! {

/// The sign bit of a double.
pub const SIGN_BIT: u64 = 0x8000_0000_0000_0000;

/// Everything but the sign bit: exponent and mantissa.
pub const MAGNITUDE_MASK: u64 = 0x7FFF_FFFF_FFFF_FFFF;

/// The magnitude of infinity: the exponent all ones, the mantissa zero.
pub const INFINITY_BITS: u64 = 0x7FF0_0000_0000_0000;

/// The 52 bits of the mantissa.
pub const MANTISSA_MASK: u64 = 0x000F_FFFF_FFFF_FFFF;

/// The bit that a normal number carries above its mantissa.
pub const HIDDEN_BIT: u64 = 0x0010_0000_0000_0000;

/// The sign-free part of a double's bit pattern.
pub open spec fn magnitude(bits: u64) -> u64 {
    bits & MAGNITUDE_MASK
}

/// Whether the sign bit is set.
pub open spec fn is_negative(bits: u64) -> bool {
    bits & SIGN_BIT != 0
}

/// Whether the pattern is a NaN: a magnitude above that of infinity.
pub open spec fn is_nan(bits: u64) -> bool {
    magnitude(bits) > INFINITY_BITS
}

/// Decides whether a bit pattern is a NaN.
pub fn nan(bits: u64) -> (r: bool)
    ensures
        r == is_nan(bits),
{
    (bits & MAGNITUDE_MASK) > INFINITY_BITS
}

/// An integer that orders the doubles that are no NaN as their values are ordered: the
/// magnitude, negated under a sign bit. Both zeros get the key 0.
pub open spec fn order_key(bits: u64) -> int {
    if is_negative(bits) {
        -(magnitude(bits) as int)
    } else {
        magnitude(bits) as int
    }
}

/// The order of two doubles given by their bits: none where either is a NaN, else the order of
/// their keys.
pub open spec fn spec_compare(a: u64, b: u64) -> Option<Order> {
    if is_nan(a) || is_nan(b) {
        None
    } else if order_key(a) < order_key(b) {
        Some(Order::Less)
    } else if order_key(a) == order_key(b) {
        Some(Order::Equal)
    } else {
        Some(Order::Greater)
    }
}

/// Orders two doubles given by their bit patterns.
pub fn compare(a: u64, b: u64) -> (r: Option<Order>)
    ensures
        r == spec_compare(a, b),
{
    let a_mag = a & MAGNITUDE_MASK;
    let b_mag = b & MAGNITUDE_MASK;
    let a_neg = a & SIGN_BIT != 0;
    let b_neg = b & SIGN_BIT != 0;
    if a_mag > INFINITY_BITS || b_mag > INFINITY_BITS {
        None
    } else if a_neg == b_neg {
        let (low, high) = if a_neg {
            (b_mag, a_mag)
        } else {
            (a_mag, b_mag)
        };
        if low < high {
            Some(Order::Less)
        } else if low == high {
            Some(Order::Equal)
        } else {
            Some(Order::Greater)
        }
    } else if a_mag == 0 && b_mag == 0 {
        Some(Order::Equal)
    } else if a_neg {
        Some(Order::Less)
    } else {
        Some(Order::Greater)
    }
}

/// The double with the opposite sign.
pub open spec fn spec_negate(bits: u64) -> u64 {
    bits ^ SIGN_BIT
}

/// Flips the sign of a double given by its bits.
pub fn negate(bits: u64) -> (r: u64)
    ensures
        r == spec_negate(bits),
{
    bits ^ SIGN_BIT
}

/// The exponent field of a double: eleven bits, biased by 1023.
pub open spec fn exponent(bits: u64) -> u64 {
    (bits >> 52) & 0x7FF
}

/// The mantissa field of a double: the low 52 bits.
pub open spec fn mantissa(bits: u64) -> u64 {
    bits & MANTISSA_MASK
}

/// Whether the double has no fractional part. Infinities and NaNs have none to speak of and
/// count as not whole; both zeros are whole; below one in magnitude nothing else is; from
/// 2^52 on every double is; in between, the mantissa bits below the binary point decide.
pub open spec fn spec_is_whole(bits: u64) -> bool {
    let e = exponent(bits);
    let m = mantissa(bits);
    if e == 0x7FF {
        false
    } else if e == 0 {
        m == 0
    } else if e < 1023 {
        false
    } else if e >= 1075 {
        true
    } else {
        m & (((1u64 << ((1075 - e) as u64)) - 1) as u64) == 0
    }
}

/// Decides whether a double, given by its bits, has a zero fractional part.
pub fn is_whole(bits: u64) -> (r: bool)
    ensures
        r == spec_is_whole(bits),
{
    let e = (bits >> 52) & 0x7FF;
    let m = bits & MANTISSA_MASK;
    if e == 0x7FF {
        false
    } else if e == 0 {
        m == 0
    } else if e < 1023 {
        false
    } else if e >= 1075 {
        true
    } else {
        let shift = 1075 - e;
        assert((1u64 << shift) >= 1) by (bit_vector)
            requires
                1 <= shift <= 52,
        ;
        m & ((1u64 << shift) - 1) == 0
    }
}

/// The double converted to a 32-bit integer as a saturating cast does it: a NaN gives 0,
/// the fractional part is dropped, and what lies beyond the integer range gives the nearest
/// bound.
pub open spec fn spec_truncate(bits: u64) -> i32 {
    let e = exponent(bits);
    if is_nan(bits) || e < 1023 {
        0
    } else if e >= 1054 {
        if is_negative(bits) {
            i32::MIN
        } else {
            i32::MAX
        }
    } else {
        let whole = (HIDDEN_BIT | mantissa(bits)) >> ((1075 - e) as u64);
        if is_negative(bits) {
            (-(whole as int)) as i32
        } else {
            whole as i32
        }
    }
}

/// Converts a double, given by its bits, to a 32-bit integer with saturation.
pub fn truncate(bits: u64) -> (r: i32)
    ensures
        r == spec_truncate(bits),
{
    let e = (bits >> 52) & 0x7FF;
    let negative = bits & SIGN_BIT != 0;
    if (bits & MAGNITUDE_MASK) > INFINITY_BITS || e < 1023 {
        0
    } else if e >= 1054 {
        if negative {
            i32::MIN
        } else {
            i32::MAX
        }
    } else {
        let shift = 1075 - e;
        let m = bits & MANTISSA_MASK;
        let whole = (HIDDEN_BIT | m) >> shift;
        assert(whole < 0x8000_0000) by (bit_vector)
            requires
                22 <= shift <= 52,
                whole == (0x0010_0000_0000_0000u64 | (bits & 0x000F_FFFF_FFFF_FFFFu64)) >> shift,
        ;
        if negative {
            -(whole as i32)
        } else {
            whole as i32
        }
    }
}

/// The bit pattern of the magnitude `m * 2^(e - 1075)`, found by doubling `m` and lowering `e`
/// until the hidden bit is reached: then the exponent field is `e` and the mantissa is what
/// lies below the hidden bit. Where the exponent runs out first, what is left is a subnormal
/// number, which has no hidden bit.
pub open spec fn normalized(m: nat, e: nat) -> nat
    decreases 2 * HIDDEN_BIT - m,
{
    if m == 0 {
        0
    } else if m >= HIDDEN_BIT {
        (e * HIDDEN_BIT + m - HIDDEN_BIT) as nat
    } else if e == 0 {
        m
    } else {
        normalized(2 * m, (e - 1) as nat)
    }
}

/// The size of an integer.
pub open spec fn abs(i: int) -> nat {
    if i < 0 {
        (-i) as nat
    } else {
        i as nat
    }
}

/// The double that has the value of a 32-bit integer, which every such integer has exactly.
pub open spec fn spec_widen(i: i32) -> u64 {
    if i < 0 {
        (SIGN_BIT + normalized(abs(i as int), 1075)) as u64
    } else {
        normalized(abs(i as int), 1075) as u64
    }
}

/// Widens a 32-bit integer to the bits of the double with the same value.
pub fn widen(i: i32) -> (r: u64)
    ensures
        r == spec_widen(i),
{
    if i == 0 {
        return 0;
    }
    let start: u64 = if i < 0 {
        (-(i as i64)) as u64
    } else {
        i as u64
    };
    let mut m: u64 = start;
    let mut e: u64 = 1075;
    while m < HIDDEN_BIT && e > 0
        invariant
            0 < m < 2 * HIDDEN_BIT,
            e <= 1075,
            normalized(m as nat, e as nat) == normalized(start as nat, 1075),
        decreases e,
    {
        m = m * 2;
        e = e - 1;
    }
    let pattern: u64 = if m >= HIDDEN_BIT {
        e * HIDDEN_BIT + (m - HIDDEN_BIT)
    } else {
        m
    };
    if i < 0 {
        SIGN_BIT + pattern
    } else {
        pattern
    }
}

/// How often a magnitude below the hidden bit is doubled until it reaches it.
pub open spec fn doublings(m: nat) -> nat
    decreases 2 * HIDDEN_BIT - m,
{
    if m == 0 || m >= HIDDEN_BIT {
        0
    } else {
        1 + doublings(2 * m)
    }
}

/// A magnitude doubled until it reaches the hidden bit.
pub open spec fn doubled(m: nat) -> nat
    decreases 2 * HIDDEN_BIT - m,
{
    if m == 0 || m >= HIDDEN_BIT {
        m
    } else {
        doubled(2 * m)
    }
}

/// The pattern of a magnitude is its exponent, lowered once for each doubling, above the
/// doubled magnitude without its hidden bit. The doubled magnitude, shifted back to the
/// right as often as it was doubled, is the magnitude, and has no bits below.
proof fn lemma_normalized(m: nat, e: nat)
    requires
        0 < m < HIDDEN_BIT,
        e >= 53,
    ensures
        doublings(m) <= 52,
        HIDDEN_BIT <= doubled(m) < 2 * HIDDEN_BIT,
        normalized(m, e) == (e - doublings(m)) * HIDDEN_BIT + doubled(m) - HIDDEN_BIT,
        (doubled(m) as u64) >> (doublings(m) as u64) == m,
        (doubled(m) as u64) & (((1u64 << (doublings(m) as u64)) - 1) as u64) == 0,
        m < 0x1_0000_0000 ==> doublings(m) >= 21,
{
    lemma_doublings(m);
    lemma_normalized_steps(m, e);
}

/// The number of doublings is bounded by how far the magnitude is from the hidden bit.
proof fn lemma_doublings(m: nat)
    requires
        0 < m < 2 * HIDDEN_BIT,
    ensures
        doublings(m) <= 52,
        HIDDEN_BIT <= doubled(m) < 2 * HIDDEN_BIT,
        (doubled(m) as u64) >> (doublings(m) as u64) == m,
        (doubled(m) as u64) & (((1u64 << (doublings(m) as u64)) - 1) as u64) == 0,
        m < 0x1_0000_0000 ==> doublings(m) >= 21,
        forall|k: u64| k <= 52 && m >= (1u64 << k) ==> doublings(m) + k <= 52,
    decreases 2 * HIDDEN_BIT - m,
{
    let x = m as u64;
    if m < HIDDEN_BIT {
        lemma_doublings(2 * m);
        let c = doublings(2 * m) as u64;
        let d = doubled(2 * m) as u64;
        assert forall|k: u64| k <= 52 && m >= (1u64 << k) implies doublings(m) + k <= 52 by {
            if k < 52 {
                assert(2 * x >= (1u64 << ((k + 1) as u64))) by (bit_vector)
                    requires
                        k < 52,
                        x >= (1u64 << k),
                        x < 0x0010_0000_0000_0000u64,
                ;
                assert(doublings(2 * m) + (k + 1) <= 52);
            } else {
                assert((1u64 << 52u64) == 0x0010_0000_0000_0000u64) by (bit_vector);
            }
        }
        assert(m >= (1u64 << 0u64)) by {
            assert((1u64 << 0u64) == 1) by (bit_vector);
        }
        assert(d >> ((c + 1) as u64) == x && d & (((1u64 << ((c + 1) as u64)) - 1) as u64) == 0)
            by (bit_vector)
            requires
                c < 52,
                d >> c == 2 * x,
                d & (((1u64 << c) - 1) as u64) == 0,
                x < 0x0010_0000_0000_0000u64,
        ;
        if m < 0x1_0000_0000 {
            if 2 * m < 0x1_0000_0000 {
            } else {
                lemma_doublings_of_33_bits(2 * m);
            }
        }
    } else {
        assert(x >> 0u64 == x && x & (((1u64 << 0u64) - 1) as u64) == 0) by (bit_vector);
        assert forall|k: u64| k <= 52 && m >= (1u64 << k) implies doublings(m) + k <= 52 by {}
    }
}

/// A magnitude of 33 bits is doubled 20 times.
proof fn lemma_doublings_of_33_bits(m: nat)
    requires
        0x1_0000_0000 <= m < 0x2_0000_0000,
    ensures
        doublings(m) == 20,
{
    reveal_with_fuel(doublings, 22);
}

/// The pattern of a magnitude, by the steps of its doubling.
proof fn lemma_normalized_steps(m: nat, e: nat)
    requires
        0 < m < 2 * HIDDEN_BIT,
        e >= doublings(m),
    ensures
        normalized(m, e) == (e - doublings(m)) * HIDDEN_BIT + doubled(m) - HIDDEN_BIT,
    decreases 2 * HIDDEN_BIT - m,
{
    if m < HIDDEN_BIT {
        lemma_normalized_steps(2 * m, (e - 1) as nat);
    }
}

/// Widening an integer and converting the double back gives the integer, and the widened
/// integer has no fractional part.
pub proof fn law_widen_then_truncate(i: i32)
    ensures
        spec_truncate(spec_widen(i)) == i,
        spec_is_whole(spec_widen(i)),
{
    if i == 0 {
        assert(spec_widen(i) == 0);
        assert((0u64 >> 52) & 0x7FF == 0 && 0u64 & 0x000F_FFFF_FFFF_FFFFu64 == 0 && 0u64
            & 0x7FFF_FFFF_FFFF_FFFFu64 == 0) by (bit_vector);
    } else {
        let m = abs(i as int);
        lemma_normalized(m, 1075);
        let c = doublings(m) as u64;
        let e = (1075 - c) as u64;
        let s = doubled(m) as u64;
        let x = m as u64;
        let pattern = (e * HIDDEN_BIT + s - HIDDEN_BIT) as u64;
        let bits = spec_widen(i);
        assert(bits == if i < 0 {
            (SIGN_BIT + pattern) as u64
        } else {
            pattern
        });
        // the fields of the pattern
        assert((bits >> 52) & 0x7FF == e && bits & 0x000F_FFFF_FFFF_FFFFu64 == s
            - 0x0010_0000_0000_0000u64 && bits & 0x7FFF_FFFF_FFFF_FFFFu64 == pattern && ((bits
            & 0x8000_0000_0000_0000u64 != 0) <==> i < 0)) by (bit_vector)
            requires
                bits == (if i < 0 {
                    (0x8000_0000_0000_0000u64 + pattern) as u64
                } else {
                    pattern
                }),
                pattern == e * 0x0010_0000_0000_0000u64 + s - 0x0010_0000_0000_0000u64,
                e < 2047,
                0x0010_0000_0000_0000u64 <= s < 0x0020_0000_0000_0000u64,
        ;
        assert(pattern <= INFINITY_BITS) by (bit_vector)
            requires
                pattern == e * 0x0010_0000_0000_0000u64 + s - 0x0010_0000_0000_0000u64,
                e < 2047,
                0x0010_0000_0000_0000u64 <= s < 0x0020_0000_0000_0000u64,
        ;
        // without its hidden bit the doubled magnitude is the mantissa
        assert((0x0010_0000_0000_0000u64 | (s - 0x0010_0000_0000_0000u64) as u64) == s && (s
            - 0x0010_0000_0000_0000u64) as u64 & (((1u64 << c) - 1) as u64) == 0) by (bit_vector)
            requires
                s & (((1u64 << c) - 1) as u64) == 0,
                c <= 52,
                0x0010_0000_0000_0000u64 <= s < 0x0020_0000_0000_0000u64,
        ;
        if c == 21 {
            // only the least integer has 32 bits
            assert(x >= 0x8000_0000u64) by (bit_vector)
                requires
                    s >> c == x,
                    c == 21,
                    0x0010_0000_0000_0000u64 <= s,
            ;
        }
    }
}

/// A greater magnitude is doubled no more often than a smaller one.
proof fn lemma_doublings_fall(a: nat, b: nat)
    requires
        0 < a <= b < 2 * HIDDEN_BIT,
    ensures
        doublings(a) >= doublings(b),
    decreases 2 * HIDDEN_BIT - a,
{
    if b < HIDDEN_BIT {
        lemma_doublings_fall(2 * a, 2 * b);
    }
}

/// The bits of the magnitude of a widened integer.
pub open spec fn widened_magnitude(i: i32) -> nat {
    normalized(abs(i as int), 1075)
}

/// A greater magnitude has a greater pattern.
proof fn lemma_patterns_rise(a: nat, b: nat)
    requires
        0 < a < b < HIDDEN_BIT,
    ensures
        0 < normalized(a, 1075) < normalized(b, 1075) < INFINITY_BITS,
{
    lemma_normalized(a, 1075);
    lemma_normalized(b, 1075);
    lemma_doublings_fall(a, b);
    let ca = doublings(a) as u64;
    let cb = doublings(b) as u64;
    let sa = doubled(a) as u64;
    let sb = doubled(b) as u64;
    let (x, y) = (a as u64, b as u64);
    if ca == cb {
        assert(sa < sb) by (bit_vector)
            requires
                sa >> ca == x,
                sb >> ca == y,
                x < y,
                ca <= 52,
        ;
    }
}

/// Widening keeps the order of integers: two widened integers stand to each other as the
/// integers do. So an integer beside a float is compared as a number, not as a pattern.
pub proof fn law_widen_keeps_order(a: i32, b: i32)
    ensures
        spec_compare(spec_widen(a), spec_widen(b)) == Some(
            if a < b {
                Order::Less
            } else if a == b {
                Order::Equal
            } else {
                Order::Greater
            },
        ),
{
    lemma_widened_key(a);
    lemma_widened_key(b);
    let (m, n) = (abs(a as int), abs(b as int));
    if 0 < m < n {
        lemma_patterns_rise(m, n);
    } else if 0 < n < m {
        lemma_patterns_rise(n, m);
    }
}

/// The key of a widened integer is the pattern of its magnitude, with the integer's sign;
/// the pattern is zero for zero only, and no NaN.
proof fn lemma_widened_key(i: i32)
    ensures
        !is_nan(spec_widen(i)),
        order_key(spec_widen(i)) == if i < 0 {
            -(widened_magnitude(i) as int)
        } else {
            widened_magnitude(i) as int
        },
        i != 0 ==> 0 < widened_magnitude(i) < INFINITY_BITS,
        i == 0 ==> widened_magnitude(i) == 0,
{
    let bits = spec_widen(i);
    if i == 0 {
        assert(0u64 & 0x7FFF_FFFF_FFFF_FFFFu64 == 0 && 0u64 & 0x8000_0000_0000_0000u64 == 0)
            by (bit_vector);
    } else {
        let m = abs(i as int);
        lemma_normalized(m, 1075);
        let pattern = normalized(m, 1075) as u64;
        assert(bits & 0x7FFF_FFFF_FFFF_FFFFu64 == pattern && ((bits & 0x8000_0000_0000_0000u64
            != 0) <==> i < 0)) by (bit_vector)
            requires
                bits == (if i < 0 {
                    (0x8000_0000_0000_0000u64 + pattern) as u64
                } else {
                    pattern
                }),
                pattern < 0x7FF0_0000_0000_0000u64,
        ;
    }
}

} // verus!
