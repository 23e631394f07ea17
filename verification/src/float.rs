//! Doubles, held by their bit patterns, and the integers among them.
//!
//! A finite double with sign `s`, biased exponent `e > 0` and mantissa `m`
//! denotes `(-1)^s * (2^52 + m) * 2^(e - 1075)`.  With `e = 0` it denotes
//! `(-1)^s * m * 2^(-1074)`, which is an integer only where `m = 0`.

use vstd::prelude::*;
use vstd::arithmetic::power2::{
    lemma2_to64, lemma2_to64_rest, lemma_pow2_adds, lemma_pow2_pos, lemma_pow2_strictly_increases,
    lemma_pow2_unfold, pow2,
};
use vstd::bits::lemma_u64_shl_is_mul;

verus! {

/// The sign bit of a bit pattern.
pub open spec fn sign_bit(bits: u64) -> int {
    bits as int / 0x8000_0000_0000_0000
}

/// The biased exponent of a bit pattern.
pub open spec fn exponent(bits: u64) -> int {
    (bits as int / 0x10_0000_0000_0000) % 0x800
}

/// The mantissa of a bit pattern.
pub open spec fn mantissa(bits: u64) -> int {
    bits as int % 0x10_0000_0000_0000
}

/// A magnitude with the sign that a sign bit gives it.
pub open spec fn with_sign(sign: int, magnitude: int) -> int {
    if sign == 1 {
        -magnitude
    } else {
        magnitude
    }
}

/// The integer that a double denotes, where it denotes one.  Infinities and
/// NaNs denote none; both zeros denote 0.
pub open spec fn int_value(bits: u64) -> Option<int> {
    let e = exponent(bits);
    let significand = 0x10_0000_0000_0000 + mantissa(bits);
    if e == 0 {
        if mantissa(bits) == 0 {
            Some(0)
        } else {
            None
        }
    } else if e == 0x7ff {
        None
    } else if e >= 1075 {
        Some(with_sign(sign_bit(bits), significand * pow2((e - 1075) as nat)))
    } else if significand % (pow2((1075 - e) as nat) as int) == 0 {
        Some(with_sign(sign_bit(bits), significand / (pow2((1075 - e) as nat) as int)))
    } else {
        None
    }
}

/// The 32-bit integer that a double equals, where it equals one.
pub open spec fn spec_to_i32(bits: u64) -> Option<i32> {
    match int_value(bits) {
        Some(n) => if i32::MIN <= n <= i32::MAX {
            Some(n as i32)
        } else {
            None
        },
        None => None,
    }
}

proof fn lemma_pow2_bounds(shift: nat)
    requires
        21 <= shift <= 52,
    ensures
        0x20_0000 <= pow2(shift) <= 0x10_0000_0000_0000,
{
    lemma2_to64();
    lemma2_to64_rest();
    if shift > 21 {
        lemma_pow2_strictly_increases(21, shift);
    }
    if shift < 52 {
        lemma_pow2_strictly_increases(shift, 52);
    }
}

proof fn lemma_out_of_range(bits: u64)
    requires
        0 < exponent(bits) < 1023 || 1054 < exponent(bits),
    ensures
        spec_to_i32(bits) is None,
{
    let e = exponent(bits);
    let sig = 0x10_0000_0000_0000 + mantissa(bits);
    lemma2_to64();
    lemma2_to64_rest();
    if e == 0x7ff {
    } else if e >= 1075 {
        let p = pow2((e - 1075) as nat) as int;
        lemma_pow2_pos((e - 1075) as nat);
        assert(sig * p >= sig) by (nonlinear_arith)
            requires
                p >= 1,
                sig >= 0,
        ;
    } else if e > 1054 {
        let d = pow2((1075 - e) as nat) as int;
        lemma_pow2_pos((1075 - e) as nat);
        if 1075 - e < 20 {
            lemma_pow2_strictly_increases((1075 - e) as nat, 20);
        }
        assert(d <= 0x10_0000);
        assert(sig / d >= 0x1_0000_0000) by (nonlinear_arith)
            requires
                0 < d <= 0x10_0000,
                sig >= 0x10_0000_0000_0000,
        ;
    } else {
        let d = pow2((1075 - e) as nat) as int;
        if 1075 - e > 53 {
            lemma_pow2_strictly_increases(53, (1075 - e) as nat);
        }
        assert(d >= 0x20_0000_0000_0000);
        assert(sig % d == sig) by (nonlinear_arith)
            requires
                0 < sig < d,
        ;
    }
}

/// Narrows a double to a 32-bit integer.  A double with a fraction, beyond
/// the 32-bit range, infinite or NaN gives `None`.
pub fn to_i32(bits: u64) -> (res: Option<i32>)
    ensures
        res == spec_to_i32(bits),
{
    let negative: bool = bits / 0x8000_0000_0000_0000 == 1;
    let e: u64 = (bits / 0x10_0000_0000_0000) % 0x800;
    let m: u64 = bits % 0x10_0000_0000_0000;
    if e == 0 {
        return if m == 0 {
            Some(0)
        } else {
            None
        };
    }
    if e < 1023 || e > 1054 {
        proof {
            lemma_out_of_range(bits);
        }
        return None;
    }
    let shift: u64 = 1075 - e;
    let significand: u64 = 0x10_0000_0000_0000 + m;
    proof {
        lemma_pow2_bounds(shift as nat);
        lemma_u64_shl_is_mul(1, shift);
    }
    let d: u64 = 1u64 << shift;
    assert(d == pow2(shift as nat));
    if significand % d != 0 {
        return None;
    }
    let q: u64 = significand / d;
    assert(1 <= q < 0x1_0000_0000) by (nonlinear_arith)
        requires
            q == significand / d,
            0x20_0000 <= d <= 0x10_0000_0000_0000,
            0x10_0000_0000_0000 <= significand < 0x20_0000_0000_0000,
    ;
    if negative {
        if q > 0x8000_0000 {
            None
        } else {
            Some((0 - (q as i64)) as i32)
        }
    } else {
        if q > 0x7fff_ffff {
            None
        } else {
            Some(q as i32)
        }
    }
}

/// The place of the highest bit of a positive number.
pub open spec fn top_bit(a: nat) -> nat
    decreases a,
{
    if a < 2 {
        0
    } else {
        top_bit(a / 2) + 1
    }
}

/// The magnitude of an integer.
pub open spec fn magnitude(x: int) -> nat {
    if x < 0 {
        (-x) as nat
    } else {
        x as nat
    }
}

/// A positive magnitude brought to 53 significant bits: a shorter one is
/// scaled up; a longer one is divided by the power of two that it is too
/// long by, and rounded to the nearest, a tie to the even side.
pub open spec fn rounded_significand(a: nat) -> nat {
    let k = top_bit(a);
    if k <= 52 {
        a * pow2((52 - k) as nat)
    } else {
        let d = pow2((k - 52) as nat);
        let q = a / d;
        let r = a % d;
        if 2 * r > d || (2 * r == d && q % 2 == 1) {
            q + 1
        } else {
            q
        }
    }
}

/// The bit pattern of the double nearest to an integer, a tie going to the
/// double with the even significand.
pub open spec fn nearest_double(x: int) -> int {
    if x == 0 {
        0
    } else {
        let a = magnitude(x);
        (if x < 0 { 0x8000_0000_0000_0000int } else { 0int })
            + (1023 + top_bit(a)) * 0x10_0000_0000_0000 + (rounded_significand(a)
            - 0x10_0000_0000_0000)
    }
}

/// The integer is a double itself: it has at most 53 significant bits.
pub open spec fn has_exact_double(x: int) -> bool {
    x == 0 || top_bit(magnitude(x)) <= 52 || magnitude(x) % pow2(
        (top_bit(magnitude(x)) - 52) as nat,
    ) == 0
}

/// A number between two neighbouring powers of two has its highest bit at
/// the place of the lower one.
pub proof fn lemma_top_bit(a: nat, k: nat)
    requires
        pow2(k) <= a < pow2(k + 1),
    ensures
        top_bit(a) == k,
    decreases k,
{
    lemma2_to64();
    if k == 0 {
        lemma_pow2_unfold(1);
    } else {
        lemma_pow2_unfold(k);
        lemma_pow2_unfold(k + 1);
        lemma_top_bit(a / 2, (k - 1) as nat);
    }
}

/// The parts of the nearest double of a non-zero integer whose magnitude
/// `a` lies between `2^k` and `2^(k+1)`.
proof fn lemma_nearest_parts(x: int, a: nat, k: nat, sig: nat)
    requires
        x != 0,
        a == magnitude(x),
        k == top_bit(a),
        k <= 63,
        sig == rounded_significand(a),
        0x10_0000_0000_0000 <= sig <= 0x20_0000_0000_0000,
    ensures
        0 <= nearest_double(x) <= u64::MAX,
        sign_bit(nearest_double(x) as u64) == (if x < 0 { 1int } else { 0int }),
        sig < 0x20_0000_0000_0000 ==> exponent(nearest_double(x) as u64) == 1023 + k && mantissa(
            nearest_double(x) as u64,
        ) == sig - 0x10_0000_0000_0000,
        sig == 0x20_0000_0000_0000 ==> exponent(nearest_double(x) as u64) == 1024 + k && mantissa(
            nearest_double(x) as u64,
        ) == 0,
{
    let e = 1023 + k;
    let body = e * 0x10_0000_0000_0000 + (sig - 0x10_0000_0000_0000);
    assert(body < 0x8000_0000_0000_0000);
    if sig == 0x20_0000_0000_0000 {
        assert(body == (e + 1) * 0x10_0000_0000_0000);
    }
}

/// An integer of at most 53 significant bits is denoted by its nearest
/// double, and no other integer of 64 bits is denoted by its own.
pub proof fn lemma_exact_double(x: int)
    requires
        i64::MIN <= x <= i64::MAX,
    ensures
        0 <= nearest_double(x) <= u64::MAX,
        has_exact_double(x) <==> int_value(nearest_double(x) as u64) == Some(x),
        exponent(nearest_double(x) as u64) < 0x7ff,
        !(i32::MIN <= x <= i32::MAX) ==> spec_to_i32(nearest_double(x) as u64) is None,
{
    lemma2_to64();
    lemma2_to64_rest();
    if x != 0 {
        let a = magnitude(x);
        lemma_bracket(a, 0);
        let k = choose|k: nat| brackets(a, k);
        lemma_top_bit(a, k);
        let sig = rounded_significand(a);
        let bits = nearest_double(x) as u64;
        if k <= 52 {
            let m = pow2((52 - k) as nat);
            lemma_pow2_adds(k, (52 - k) as nat);
            lemma_pow2_unfold(k + 1);
            lemma_pow2_pos((52 - k) as nat);
            assert(0x10_0000_0000_0000 <= a * m < 0x20_0000_0000_0000) by (nonlinear_arith)
                requires
                    pow2(k) <= a < 2 * pow2(k),
                    pow2(k) * m == 0x10_0000_0000_0000,
                    m > 0,
            ;
            lemma_nearest_parts(x, a, k, sig);
            assert(((a * m) as int) % (m as int) == 0 && ((a * m) as int) / (m as int) == a)
                by (nonlinear_arith)
                requires
                    m > 0,
            ;
            if k == 52 {
                assert(a * m == a) by (nonlinear_arith)
                    requires
                        m == 1,
                ;
            }
            assert(int_value(bits) == Some(x));
            if !(i32::MIN <= x <= i32::MAX) {
                assert(spec_to_i32(bits) is None);
            }
        } else {
            let d = pow2((k - 52) as nat);
            lemma_pow2_adds(52, (k - 52) as nat);
            lemma_pow2_unfold(k + 1);
            lemma_pow2_pos((k - 52) as nat);
            let q = a / d;
            let r = a % d;
            vstd::arithmetic::div_mod::lemma_fundamental_div_mod(a as int, d as int);
            assert(0x10_0000_0000_0000 <= q < 0x20_0000_0000_0000 && 0 <= r < d)
                by (nonlinear_arith)
                requires
                    a == d * q + r,
                    r == a % d,
                    q == a / d,
                    d > 0,
                    0x10_0000_0000_0000 * d <= a < 2 * (0x10_0000_0000_0000 * d),
            ;
            lemma_nearest_parts(x, a, k, sig);
            let e = exponent(bits);
            assert(e > 1054);
            lemma_out_of_range(bits);
            if sig < 0x20_0000_0000_0000 {
                assert(e - 1075 == k - 52);
                assert(sig * d == a <==> r == 0) by (nonlinear_arith)
                    requires
                        a == d * q + r,
                        0 <= r < d,
                        sig == q || sig == q + 1,
                        sig == q + 1 ==> r > 0,
                ;
            } else {
                lemma_pow2_unfold((k - 52 + 1) as nat);
                let d2 = pow2((k - 52 + 1) as nat);
                assert(r > 0);
                assert(0x10_0000_0000_0000 * d2 != a) by (nonlinear_arith)
                    requires
                        a == d * q + r,
                        0 < r < d,
                        q + 1 == 0x20_0000_0000_0000,
                        d2 == 2 * d,
                ;
            }
        }
    }
}

/// The number lies between `2^k` and `2^(k+1)`.
pub open spec fn brackets(a: nat, k: nat) -> bool {
    k <= 63 && pow2(k) <= a < pow2(k + 1)
}

/// Every 32-bit integer is a double itself.
pub proof fn lemma_i32_is_exact(x: i32)
    ensures
        has_exact_double(x as int),
{
    lemma2_to64();
    if x != 0 {
        let a = magnitude(x as int);
        lemma_bracket(a, 0);
        let k = choose|k: nat| brackets(a, k);
        lemma_top_bit(a, k);
        if k > 31 {
            lemma_pow2_strictly_increases(31, k);
        }
    }
}

/// Every positive number up to `2^63` lies between two neighbouring powers
/// of two, the lower of them at or above `2^k` where the number is.
proof fn lemma_bracket(a: nat, k: nat)
    requires
        k <= 63,
        pow2(k) <= a <= 0x8000_0000_0000_0000,
    ensures
        exists|j: nat| brackets(a, j),
    decreases 64 - k,
{
    lemma2_to64();
    lemma2_to64_rest();
    if a < pow2(k + 1) {
        assert(brackets(a, k));
    } else {
        if k == 63 {
            assert(pow2(64) == 0x1_0000_0000_0000_0000);
            assert(false);
        } else {
            lemma_bracket(a, k + 1);
        }
    }
}

/// Finds the double nearest to a 64-bit integer, and whether it equals the
/// integer.
fn widen(x: i64) -> (res: (u64, bool))
    ensures
        res.0 == nearest_double(x as int),
        res.1 == has_exact_double(x as int),
{
    if x == 0 {
        return (0, true);
    }
    let a: u64 = if x < 0 {
        (0 - (x as i128)) as u64
    } else {
        x as u64
    };
    let mut p: u64 = 1;
    let mut k: u64 = 0;
    proof {
        lemma2_to64();
        lemma2_to64_rest();
    }
    while p <= a / 2
        invariant
            p == pow2(k as nat),
            1 <= p <= a,
            k <= 63,
            a <= 0x8000_0000_0000_0000,
            pow2(63) == 0x8000_0000_0000_0000,
        decreases a - p,
    {
        proof {
            lemma_pow2_unfold((k + 1) as nat);
            if k >= 63 {
                lemma_pow2_strictly_increases(63, (k + 1) as nat);
            }
        }
        p = p * 2;
        k = k + 1;
    }
    proof {
        lemma_pow2_unfold((k + 1) as nat);
        lemma_top_bit(a as nat, k as nat);
    }
    let mut exact: bool = true;
    let sig: u64 = if k <= 52 {
        proof {
            lemma_pow2_adds(k as nat, (52 - k) as nat);
            lemma_pow2_pos((52 - k) as nat);
        }
        let m: u64 = 0x10_0000_0000_0000 / p;
        assert(m == pow2((52 - k) as nat) && 0x10_0000_0000_0000 <= a * m < 0x20_0000_0000_0000)
            by (nonlinear_arith)
            requires
                m == 0x10_0000_0000_0000u64 / p,
                p * pow2((52 - k) as nat) == 0x10_0000_0000_0000,
                pow2((52 - k) as nat) > 0,
                p <= a < 2 * p,
                p > 0,
        ;
        a * m
    } else {
        proof {
            lemma_pow2_adds(52, (k - 52) as nat);
            lemma_pow2_pos((k - 52) as nat);
        }
        let d: u64 = p / 0x10_0000_0000_0000;
        assert(d == pow2((k - 52) as nat) && d > 0) by (nonlinear_arith)
            requires
                d == p / 0x10_0000_0000_0000u64,
                0x10_0000_0000_0000 * pow2((k - 52) as nat) == p,
                pow2((k - 52) as nat) > 0,
        ;
        let q: u64 = a / d;
        let r: u64 = a % d;
        assert(q < 0x20_0000_0000_0000 && r < d) by (nonlinear_arith)
            requires
                q == a / d,
                r == a % d,
                d > 0,
                a < 2 * (0x10_0000_0000_0000 * d),
        ;
        exact = r == 0;
        if r > d - r || (r == d - r && q % 2 == 1) {
            q + 1
        } else {
            q
        }
    };
    let sign: u64 = if x < 0 {
        0x8000_0000_0000_0000
    } else {
        0
    };
    assert(0x10_0000_0000_0000 <= sig <= 0x20_0000_0000_0000) by {
        if k > 52 {
            let d = pow2((k - 52) as nat);
            lemma_pow2_adds(52, (k - 52) as nat);
            lemma_pow2_pos((k - 52) as nat);
            assert(a as nat / d >= 0x10_0000_0000_0000) by (nonlinear_arith)
                requires
                    d > 0,
                    a >= 0x10_0000_0000_0000 * d,
            ;
        }
    }
    (sign + (1023 + k) * 0x10_0000_0000_0000 + (sig - 0x10_0000_0000_0000), exact)
}

/// Widens a 64-bit integer to the double nearest to it.
pub fn from_i64(x: i64) -> (bits: u64)
    ensures
        bits == nearest_double(x as int),
{
    widen(x).0
}

/// Widens a 64-bit integer to the double that equals it, where there is
/// one.
pub fn from_i64_exact(x: i64) -> (res: Option<u64>)
    ensures
        has_exact_double(x as int) ==> res == Some(nearest_double(x as int) as u64),
        !has_exact_double(x as int) ==> res is None,
        res matches Some(bits) ==> int_value(bits) == Some(x as int),
{
    let (bits, exact) = widen(x);
    proof {
        lemma_exact_double(x as int);
    }
    if exact {
        Some(bits)
    } else {
        None
    }
}

} // verus!
