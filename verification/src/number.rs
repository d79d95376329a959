//! The number type of the scripting language: an IEEE-754 double held as its
//! 64 bits. Sign, order, truthiness, rounding to an integer, truncation and
//! the way from an integer to a number are worked out on the bits by verified
//! integer code. Sums, differences, products, quotients and remainders are
//! done by a software implementation of IEEE-754 and enter the proofs as
//! named functions of the operand bits.

use vstd::prelude::*;
use vstd::arithmetic::div_mod::lemma_basic_div;
use vstd::arithmetic::div_mod::lemma_div_multiples_vanish;
use vstd::arithmetic::div_mod::lemma_mod_multiples_basic;
use vstd::arithmetic::div_mod::lemma_small_mod;
use vstd::arithmetic::power2::lemma2_to64;
use vstd::arithmetic::power2::lemma2_to64_rest;
use vstd::arithmetic::power2::lemma_pow2_adds;
use vstd::arithmetic::power2::lemma_pow2_pos;
use vstd::arithmetic::power2::lemma_pow2_strictly_increases;
use vstd::arithmetic::power2::lemma_pow2_unfold;
use vstd::arithmetic::power2::pow2;
use vstd::bits::lemma_low_bits_mask_unfold;
use vstd::bits::lemma_u64_low_bits_mask_is_mod;
use vstd::bits::lemma_u64_pow2_no_overflow;
use vstd::bits::lemma_u64_shl_is_mul;
use vstd::bits::lemma_u64_shr_is_div;
use vstd::bits::low_bits_mask;
use rustc_apfloat::ieee::Double;
use rustc_apfloat::Float;
use rustc_apfloat::Round;

verus! {

/// The bit that holds the sign.
pub const SIGN_MASK: u64 = 0x8000_0000_0000_0000;

/// Every bit but the sign.
pub const MAGNITUDE_MASK: u64 = 0x7FFF_FFFF_FFFF_FFFF;

/// Magnitude of an infinity; every larger magnitude is a NaN.
pub const INFINITY_BITS: u64 = 0x7FF0_0000_0000_0000;

/// The bits of the fraction.
pub const FRACTION_MASK: u64 = 0x000F_FFFF_FFFF_FFFF;

/// The leading bit of the significand of a normal number, which the
/// encoding leaves out.
pub const HIDDEN_BIT: u64 = 0x0010_0000_0000_0000;

/// The bit that makes a NaN a quiet one.
pub const QUIET_BIT: u64 = 0x0008_0000_0000_0000;

/// The double 0.5.
pub const HALF_BITS: u64 = 0x3FE0_0000_0000_0000;

/// The double 1.0.
pub const ONE_BITS: u64 = 0x3FF0_0000_0000_0000;

/// The double nearest to 1e-13, the tolerance of the language's equality.
pub const EPSILON_BITS: u64 = 0x3D3C_25C2_6849_7682;

/// The sum of two doubles, rounded to nearest with ties to even.
pub uninterp spec fn ieee_add(a: u64, b: u64) -> u64;

/// The difference of two doubles, rounded to nearest with ties to even.
pub uninterp spec fn ieee_sub(a: u64, b: u64) -> u64;

/// The product of two doubles, rounded to nearest with ties to even.
pub uninterp spec fn ieee_mul(a: u64, b: u64) -> u64;

/// The quotient of two doubles, rounded to nearest with ties to even.
pub uninterp spec fn ieee_div(a: u64, b: u64) -> u64;

/// The remainder of a truncating division of two doubles (C's `fmod`).
pub uninterp spec fn ieee_fmod(a: u64, b: u64) -> u64;

/// The double nearest to an integer, ties to even.
pub uninterp spec fn ieee_from_int(n: int) -> u64;

/// The decimal text of a double.
pub uninterp spec fn ieee_text(a: u64) -> Seq<char>;

/// `rustc_apfloat`'s `Float::add_r` on doubles, rounding to nearest, ties to
/// even. The contract only names the resulting bits.
#[verifier::external_body]
fn soft_add(a: u64, b: u64) -> (r: u64)
    ensures
        r == ieee_add(a, b),
{
    let x = Double::from_bits(a as u128);
    let y = Double::from_bits(b as u128);
    x.add_r(y, Round::NearestTiesToEven).value.to_bits() as u64
}

/// `rustc_apfloat`'s `Float::sub_r` on doubles, rounding to nearest, ties to
/// even. The contract only names the resulting bits.
#[verifier::external_body]
fn soft_sub(a: u64, b: u64) -> (r: u64)
    ensures
        r == ieee_sub(a, b),
{
    let x = Double::from_bits(a as u128);
    let y = Double::from_bits(b as u128);
    x.sub_r(y, Round::NearestTiesToEven).value.to_bits() as u64
}

/// `rustc_apfloat`'s `Float::mul_r` on doubles, rounding to nearest, ties to
/// even. The contract only names the resulting bits.
#[verifier::external_body]
fn soft_mul(a: u64, b: u64) -> (r: u64)
    ensures
        r == ieee_mul(a, b),
{
    let x = Double::from_bits(a as u128);
    let y = Double::from_bits(b as u128);
    x.mul_r(y, Round::NearestTiesToEven).value.to_bits() as u64
}

/// `rustc_apfloat`'s `Float::div_r` on doubles, rounding to nearest, ties to
/// even. The contract only names the resulting bits.
#[verifier::external_body]
fn soft_div(a: u64, b: u64) -> (r: u64)
    ensures
        r == ieee_div(a, b),
{
    let x = Double::from_bits(a as u128);
    let y = Double::from_bits(b as u128);
    x.div_r(y, Round::NearestTiesToEven).value.to_bits() as u64
}

/// `rustc_apfloat`'s `Float::c_fmod` on doubles. The contract only names the
/// resulting bits.
#[verifier::external_body]
fn soft_fmod(a: u64, b: u64) -> (r: u64)
    ensures
        r == ieee_fmod(a, b),
{
    let x = Double::from_bits(a as u128);
    let y = Double::from_bits(b as u128);
    x.c_fmod(y).value.to_bits() as u64
}

/// `rustc_apfloat`'s `Float::from_i128`. The contract only names the
/// resulting bits.
#[verifier::external_body]
fn soft_from_int(n: i128) -> (r: u64)
    ensures
        r == ieee_from_int(n as int),
{
    Double::from_i128(n).value.to_bits() as u64
}

/// `rustc_apfloat`'s `Display` for doubles. The contract only names the
/// resulting text.
#[verifier::external_body]
fn soft_text(a: u64) -> (r: String)
    ensures
        r@ == ieee_text(a),
{
    let x = Double::from_bits(a as u128);
    format!("{}", x)
}

/// The quotient of a natural number by a power of two, rounded to the
/// nearest integer, a tie to the even one.
pub open spec fn nearest_even(m: nat, k: nat) -> nat {
    let d = pow2(k);
    let q = m / d;
    let r = m % d;
    if 2 * r > d || (2 * r == d && q % 2 == 1) {
        q + 1
    } else {
        q
    }
}

/// The place of the highest bit that is set in a natural number, counted
/// from zero; zero for zero.
pub open spec fn top_bit(a: nat) -> nat
    decreases a,
{
    if a <= 1 {
        0
    } else {
        1 + top_bit(a / 2)
    }
}

/// The largest magnitude below which every integer is a double.
pub const EXACT_LIMIT: u64 = 0x0020_0000_0000_0000;

/// The bits of the double that is an integer of a sign and a magnitude
/// under `EXACT_LIMIT`: the magnitude, moved up until its highest bit is the
/// hidden bit, is the significand, and the exponent says by how much it was
/// moved. Zero is the positive zero.
pub open spec fn integer_bits(negative: bool, a: nat) -> u64 {
    if a == 0 {
        0
    } else {
        let p = top_bit(a);
        let sign: int = if negative {
            SIGN_MASK as int
        } else {
            0
        };
        (sign + (1023 + p) * (HIDDEN_BIT as int) + (a * pow2((52 - p) as nat) - HIDDEN_BIT)) as u64
    }
}

/// A magnitude of at least one lies between the power of two of its highest
/// bit and the next.
pub proof fn lemma_top_bit_bounds(a: nat)
    requires
        a >= 1,
    ensures
        pow2(top_bit(a)) <= a < pow2(top_bit(a) + 1),
    decreases a,
{
    lemma2_to64();
    if a > 1 {
        lemma_top_bit_bounds(a / 2);
        lemma_pow2_unfold(top_bit(a));
        lemma_pow2_unfold(top_bit(a) + 1);
    }
}

/// How the fields of an encoding are read back from their sum.
proof fn lemma_fields(sign: u64, e: u64, f: u64)
    requires
        sign == 0 || sign == SIGN_MASK,
        e < 2048,
        f < HIDDEN_BIT,
    ensures
        sign + e * HIDDEN_BIT + f <= u64::MAX,
        (((sign + e * HIDDEN_BIT + f) as u64) >> 52) & 0x7FF == e,
        ((sign + e * HIDDEN_BIT + f) as u64) & FRACTION_MASK == f,
        ((sign + e * HIDDEN_BIT + f) as u64) & SIGN_MASK == sign,
        ((sign + e * HIDDEN_BIT + f) as u64) & MAGNITUDE_MASK == e * HIDDEN_BIT + f,
        sign | (e << 52) | f == sign + e * HIDDEN_BIT + f,
{
    assert(e * HIDDEN_BIT <= 2047 * HIDDEN_BIT) by (nonlinear_arith)
        requires
            e <= 2047,
    ;
    let b: u64 = (sign + e * HIDDEN_BIT + f) as u64;
    assert(b == sign | (e << 52) | f && (b >> 52) & 0x7FF == e && b & 0x000F_FFFF_FFFF_FFFF == f
        && b & 0x8000_0000_0000_0000 == sign && b & 0x7FFF_FFFF_FFFF_FFFF == e
        * 0x0010_0000_0000_0000u64 + f) by (bit_vector)
        requires
            sign == 0 || sign == 0x8000_0000_0000_0000u64,
            e < 2048,
            f < 0x0010_0000_0000_0000u64,
            b == sign + e * 0x0010_0000_0000_0000u64 + f,
    ;
}

/// An integer of a magnitude under `EXACT_LIMIT` is encoded as a number with
/// its sign, with the exponent of its highest bit, and with a significand
/// that is the magnitude moved up.
pub proof fn lemma_integer_bits_fields(negative: bool, a: nat)
    requires
        1 <= a < EXACT_LIMIT,
    ensures
        top_bit(a) <= 52,
        (Real { bits: integer_bits(negative, a) }).exponent_field() == 1023 + top_bit(a),
        (Real { bits: integer_bits(negative, a) }).significand() == a * pow2(
            (52 - top_bit(a)) as nat,
        ),
        (Real { bits: integer_bits(negative, a) }).is_negative() == negative,
        !(Real { bits: integer_bits(negative, a) }).is_nan(),
{
    let p = top_bit(a);
    lemma_top_bit_bounds(a);
    lemma2_to64();
    lemma2_to64_rest();
    if p > 52 {
        lemma_pow2_strictly_increases(53, p + 1);
        if p > 53 {
            lemma_pow2_strictly_increases(53, p);
        }
    }
    assert(p <= 52);
    let k = (52 - p) as nat;
    lemma_pow2_adds(p, k);
    lemma_pow2_adds(p + 1, k);
    lemma_pow2_pos(k);
    let d = pow2(k);
    assert(pow2(p) * d <= a * d) by (nonlinear_arith)
        requires
            pow2(p) <= a,
            d >= 1,
    ;
    assert(a * d < pow2(p + 1) * d) by (nonlinear_arith)
        requires
            a < pow2(p + 1),
            d >= 1,
    ;
    let sign: u64 = if negative {
        SIGN_MASK
    } else {
        0
    };
    let e: u64 = (1023 + p) as u64;
    let f: u64 = (a * d - HIDDEN_BIT) as u64;
    lemma_fields(sign, e, f);
    assert(e * HIDDEN_BIT + f <= INFINITY_BITS) by (nonlinear_arith)
        requires
            e <= 1075,
            f < HIDDEN_BIT,
            HIDDEN_BIT == 0x0010_0000_0000_0000,
            INFINITY_BITS == 0x7FF0_0000_0000_0000,
    ;
}

/// A number of the scripting language.
#[derive(Clone, Copy, Debug, PartialEq, Eq, Structural)]
pub struct Real {
    /// The IEEE-754 encoding of the number.
    pub bits: u64,
}

impl Real {
    /// The bits without the sign.
    pub open spec fn magnitude(self) -> u64 {
        self.bits & MAGNITUDE_MASK
    }

    /// True when the sign bit is set.
    pub open spec fn is_negative(self) -> bool {
        self.bits & SIGN_MASK != 0
    }

    /// True for the encodings that stand for no number.
    pub open spec fn is_nan(self) -> bool {
        self.magnitude() > INFINITY_BITS
    }

    /// True for both zeros.
    pub open spec fn is_zero(self) -> bool {
        self.magnitude() == 0
    }

    /// An integer that orders the numbers as their values do: doubles of one
    /// sign are ordered as their magnitudes are, and the two zeros share a key.
    pub open spec fn key(self) -> int {
        if self.is_negative() {
            -(self.magnitude() as int)
        } else {
            self.magnitude() as int
        }
    }

    /// Numeric `<` without tolerance; false when either side is a NaN.
    pub open spec fn less(self, other: Real) -> bool {
        !self.is_nan() && !other.is_nan() && self.key() < other.key()
    }

    /// The bits of the difference that the equality test measures. The
    /// operands are put in the order of their encodings first, so the result
    /// does not depend on the order in which they are given.
    pub open spec fn gap_bits(self, other: Real) -> u64 {
        if self.bits <= other.bits {
            ieee_sub(other.bits, self.bits)
        } else {
            ieee_sub(self.bits, other.bits)
        }
    }

    /// Numeric `<=` without tolerance; false when either side is a NaN.
    pub open spec fn at_most(self, other: Real) -> bool {
        !self.is_nan() && !other.is_nan() && self.key() <= other.key()
    }

    /// True for the numbers from zero on, a negative zero among them.
    pub open spec fn non_negative(self) -> bool {
        !self.is_nan() && (!self.is_negative() || self.is_zero())
    }

    /// The number held between zero and one.
    pub open spec fn clamped_to_unit(self) -> Real {
        let zero = Real { bits: 0 };
        let one = Real { bits: ONE_BITS };
        let low = if self.less(zero) { zero } else { self };
        if one.less(low) { one } else { low }
    }

    /// The language's equality: the difference is a number of magnitude under
    /// 1e-13.
    pub open spec fn almost_equals(self, other: Real) -> bool {
        (self.gap_bits(other) & MAGNITUDE_MASK) < EPSILON_BITS
    }

    /// The language's `<`: smaller and not equal.
    pub open spec fn lt(self, other: Real) -> bool {
        self.less(other) && !self.almost_equals(other)
    }

    /// The language's `<=`: smaller or equal.
    pub open spec fn le(self, other: Real) -> bool {
        self.less(other) || self.almost_equals(other)
    }

    /// A number counts as true from 0.5 on.
    pub open spec fn truthy(self) -> bool {
        !self.is_nan() && !self.is_negative() && self.magnitude() >= HALF_BITS
    }

    /// The eleven bits of the exponent.
    pub open spec fn exponent_field(self) -> nat {
        ((self.bits >> 52) & 0x7FF) as nat
    }

    /// The significand as a natural number: the fraction, and above it the
    /// hidden bit unless the number is subnormal.
    pub open spec fn significand(self) -> nat {
        if self.exponent_field() == 0 {
            (self.bits & FRACTION_MASK) as nat
        } else {
            ((self.bits & FRACTION_MASK) + HIDDEN_BIT) as nat
        }
    }

    /// The power of two that scales the significand: a number that is
    /// neither infinite nor a NaN has the magnitude `significand * 2^scale`.
    pub open spec fn scale(self) -> int {
        if self.exponent_field() == 0 {
            -1074
        } else {
            self.exponent_field() - 1075
        }
    }

    /// The number without what follows the point: a number that has no
    /// digits there, or is infinite, is itself; a magnitude under one gives
    /// the zero of the same sign; any other loses the low bits of its
    /// significand that stand for less than one. A NaN stays one, made
    /// quiet.
    pub open spec fn truncated(self) -> Real {
        if self.is_nan() {
            Real { bits: self.bits | QUIET_BIT }
        } else if self.exponent_field() >= 1075 {
            self
        } else if self.exponent_field() < 1023 {
            Real { bits: self.bits & SIGN_MASK }
        } else {
            Real {
                bits: (self.bits - self.significand() % pow2(
                    (1075 - self.exponent_field()) as nat,
                )) as u64,
            }
        }
    }

    /// The magnitude rounded to the nearest integer, a tie to the even one.
    pub open spec fn rounded_magnitude(self) -> nat {
        if self.scale() >= 0 {
            self.significand() * pow2(self.scale() as nat)
        } else {
            nearest_even(self.significand(), (-self.scale()) as nat)
        }
    }

    /// The number rounded to the nearest integer, a tie to the even one, as
    /// a 32-bit integer: a value beyond the range gives the nearest bound,
    /// as does an infinity, and a NaN gives zero.
    pub open spec fn rounded(self) -> i32 {
        if self.is_nan() {
            0
        } else {
            let m = self.rounded_magnitude() as int;
            let v = if self.is_negative() {
                -m
            } else {
                m
            };
            if v > i32::MAX {
                i32::MAX
            } else if v < i32::MIN {
                i32::MIN
            } else {
                v as i32
            }
        }
    }

    /// The number that stands for a truth value.
    pub open spec fn of_bool(b: bool) -> Real {
        Real { bits: if b { ONE_BITS } else { 0 } }
    }

    /// The number that stands for an integer: the integer itself where its
    /// magnitude is under `EXACT_LIMIT`, and beyond that the double nearest
    /// to it.
    pub open spec fn of_int(n: int) -> Real {
        if -(EXACT_LIMIT as int) < n < EXACT_LIMIT as int {
            Real { bits: integer_bits(n < 0, (if n < 0 { -n } else { n }) as nat) }
        } else {
            Real { bits: ieee_from_int(n) }
        }
    }

    pub fn from_bits(bits: u64) -> (r: Real)
        ensures
            r.bits == bits,
    {
        Real { bits }
    }

    pub fn to_bits(self) -> (r: u64)
        ensures
            r == self.bits,
    {
        self.bits
    }

    pub fn zero() -> (r: Real)
        ensures
            r.bits == 0,
    {
        Real { bits: 0 }
    }

    pub fn from_bool(b: bool) -> (r: Real)
        ensures
            r == Real::of_bool(b),
            r.truthy() == b,
    {
        proof {
            assert(ONE_BITS & MAGNITUDE_MASK == ONE_BITS) by (bit_vector);
            assert(ONE_BITS & SIGN_MASK == 0) by (bit_vector);
            assert(0u64 & MAGNITUDE_MASK == 0) by (bit_vector);
            assert(0u64 & SIGN_MASK == 0) by (bit_vector);
        }
        Real { bits: if b { ONE_BITS } else { 0 } }
    }

    /// The number that is an integer of a sign and a magnitude under
    /// `EXACT_LIMIT`.
    pub fn from_magnitude(negative: bool, a: u64) -> (r: Real)
        requires
            a < EXACT_LIMIT,
        ensures
            r.bits == integer_bits(negative, a as nat),
    {
        if a == 0 {
            return Real { bits: 0 };
        }
        let mut p: u64 = 0;
        assert(a >> 0 == a) by (bit_vector);
        while (a >> (p + 1)) != 0
            invariant
                p <= 52,
                a < EXACT_LIMIT,
                (a >> p) >= 1,
                top_bit(a as nat) == p + top_bit((a >> p) as nat),
            decreases 64 - p,
        {
            let x = a >> p;
            assert(a >> ((p + 1) as u64) == (a >> p) / 2 && (p < 52 || a >> ((p + 1) as u64) == 0))
                by (bit_vector)
                requires
                    p <= 52,
                    a < 0x0020_0000_0000_0000u64,
            ;
            p = p + 1;
        }
        proof {
            assert(a >> ((p + 1) as u64) == (a >> p) / 2) by (bit_vector)
                requires
                    p <= 52,
            ;
            assert(a >> p == 1);
            assert(top_bit(a as nat) == p);
            lemma_integer_bits_fields(negative, a as nat);
            lemma_top_bit_bounds(a as nat);
            lemma2_to64();
            lemma2_to64_rest();
            lemma_pow2_adds((p + 1) as nat, (52 - p) as nat);
            lemma_pow2_adds(p as nat, (52 - p) as nat);
            lemma_pow2_pos((52 - p) as nat);
            let d = pow2((52 - p) as nat);
            assert(pow2(p as nat) * d <= a * d) by (nonlinear_arith)
                requires
                    pow2(p as nat) <= a,
                    d >= 1,
            ;
            assert(a * d < pow2((p + 1) as nat) * d) by (nonlinear_arith)
                requires
                    a < pow2((p + 1) as nat),
                    d >= 1,
            ;
            lemma_u64_shl_is_mul(a, (52 - p) as u64);
        }
        let moved: u64 = a << (52 - p);
        let fraction: u64 = moved & FRACTION_MASK;
        assert(fraction == moved - HIDDEN_BIT) by (bit_vector)
            requires
                fraction == moved & 0x000F_FFFF_FFFF_FFFFu64,
                0x0010_0000_0000_0000u64 <= moved < 0x0020_0000_0000_0000u64,
        ;
        let sign: u64 = if negative {
            SIGN_MASK
        } else {
            0
        };
        let exponent: u64 = 1023 + p;
        proof {
            lemma_fields(sign, exponent, fraction);
        }
        Real { bits: sign | (exponent << 52) | fraction }
    }

    pub fn from_i32(n: i32) -> (r: Real)
        ensures
            r == Real::of_int(n as int),
            r.rounded() == n,
    {
        proof {
            lemma_integer_round_trip(n as int);
        }
        if n < 0 {
            Real::from_magnitude(true, (-(n as i64)) as u64)
        } else {
            Real::from_magnitude(false, n as u64)
        }
    }

    pub fn from_u32(n: u32) -> (r: Real)
        ensures
            r == Real::of_int(n as int),
    {
        Real::from_magnitude(false, n as u64)
    }

    pub fn from_usize(n: usize) -> (r: Real)
        ensures
            r == Real::of_int(n as int),
    {
        if (n as u64) < EXACT_LIMIT {
            Real::from_magnitude(false, n as u64)
        } else {
            Real { bits: soft_from_int(n as i128) }
        }
    }

    pub fn check_nan(self) -> (r: bool)
        ensures
            r == self.is_nan(),
    {
        (self.bits & MAGNITUDE_MASK) > INFINITY_BITS
    }

    pub fn check_zero(self) -> (r: bool)
        ensures
            r == self.is_zero(),
    {
        (self.bits & MAGNITUDE_MASK) == 0
    }

    /// The number with its sign flipped.
    pub fn neg(self) -> (r: Real)
        ensures
            r.bits == self.bits ^ SIGN_MASK,
            r.magnitude() == self.magnitude(),
            r.is_negative() == !self.is_negative(),
    {
        let bits = self.bits;
        proof {
            assert((bits ^ SIGN_MASK) & MAGNITUDE_MASK == bits & MAGNITUDE_MASK) by (bit_vector);
            assert(((bits ^ SIGN_MASK) & SIGN_MASK != 0) == !(bits & SIGN_MASK != 0))
                by (bit_vector);
        }
        Real { bits: bits ^ SIGN_MASK }
    }

    /// Numeric `<` without tolerance.
    pub fn is_less(self, other: Real) -> (r: bool)
        ensures
            r == self.less(other),
    {
        let ma = self.bits & MAGNITUDE_MASK;
        let mb = other.bits & MAGNITUDE_MASK;
        if ma > INFINITY_BITS || mb > INFINITY_BITS {
            return false;
        }
        let na = (self.bits & SIGN_MASK) != 0;
        let nb = (other.bits & SIGN_MASK) != 0;
        if na {
            if nb {
                mb < ma
            } else {
                ma != 0 || mb != 0
            }
        } else {
            if nb {
                false
            } else {
                ma < mb
            }
        }
    }

    /// Numeric `<=` without tolerance.
    pub fn is_at_most(self, other: Real) -> (r: bool)
        ensures
            r == self.at_most(other),
    {
        let ma = self.bits & MAGNITUDE_MASK;
        let mb = other.bits & MAGNITUDE_MASK;
        if ma > INFINITY_BITS || mb > INFINITY_BITS {
            return false;
        }
        let na = (self.bits & SIGN_MASK) != 0;
        let nb = (other.bits & SIGN_MASK) != 0;
        if na {
            if nb {
                mb <= ma
            } else {
                true
            }
        } else {
            if nb {
                ma == 0 && mb == 0
            } else {
                ma <= mb
            }
        }
    }

    pub fn is_non_negative(self) -> (r: bool)
        ensures
            r == self.non_negative(),
    {
        let m = self.bits & MAGNITUDE_MASK;
        m <= INFINITY_BITS && ((self.bits & SIGN_MASK) == 0 || m == 0)
    }

    /// The number held between zero and one.
    pub fn clamp_to_unit(self) -> (r: Real)
        ensures
            r == self.clamped_to_unit(),
    {
        let zero = Real { bits: 0 };
        let one = Real { bits: ONE_BITS };
        let low = if self.is_less(zero) { zero } else { self };
        if one.is_less(low) { one } else { low }
    }

    /// True when a difference counts as none: its magnitude is under 1e-13.
    pub fn within_tolerance(gap: Real) -> (r: bool)
        ensures
            r == (gap.magnitude() < EPSILON_BITS),
    {
        (gap.bits & MAGNITUDE_MASK) < EPSILON_BITS
    }

    pub fn is_almost_equal(self, other: Real) -> (r: bool)
        ensures
            r == self.almost_equals(other),
    {
        let gap = if self.bits <= other.bits {
            other.minus(self)
        } else {
            self.minus(other)
        };
        Real::within_tolerance(gap)
    }

    pub fn is_lt(self, other: Real) -> (r: bool)
        ensures
            r == self.lt(other),
    {
        self.is_less(other) && !self.is_almost_equal(other)
    }

    pub fn is_le(self, other: Real) -> (r: bool)
        ensures
            r == self.le(other),
    {
        self.is_less(other) || self.is_almost_equal(other)
    }

    pub fn is_truthy(self) -> (r: bool)
        ensures
            r == self.truthy(),
    {
        let m = self.bits & MAGNITUDE_MASK;
        m <= INFINITY_BITS && (self.bits & SIGN_MASK) == 0 && m >= HALF_BITS
    }

    /// The number rounded to the nearest 32-bit integer, ties to even.
    pub fn round(self) -> (r: i32)
        ensures
            r == self.rounded(),
    {
        let bits = self.bits;
        if (bits & MAGNITUDE_MASK) > INFINITY_BITS {
            return 0;
        }
        let negative = (bits & SIGN_MASK) != 0;
        let e: u64 = (bits >> 52) & 0x7FF;
        let fraction: u64 = bits & FRACTION_MASK;
        assert(e < 2048 && fraction < HIDDEN_BIT && (fraction | HIDDEN_BIT) == fraction
            + HIDDEN_BIT) by (bit_vector)
            requires
                e == (bits >> 52) & 0x7FF,
                fraction == bits & FRACTION_MASK,
        ;
        let m: u64 = if e == 0 {
            fraction
        } else {
            fraction | HIDDEN_BIT
        };
        assert(m == self.significand());
        if e >= 1075 {
            proof {
                let p = (e - 1075) as nat;
                lemma_pow2_pos(p);
                assert(m as nat * pow2(p) >= m as nat) by (nonlinear_arith)
                    requires
                        pow2(p) >= 1,
                ;
            }
            return if negative {
                i32::MIN
            } else {
                i32::MAX
            };
        }
        let k: u64 = if e == 0 {
            1074
        } else {
            1075 - e
        };
        assert(self.scale() == -(k as int));
        if k >= 54 {
            proof {
                lemma2_to64();
                lemma2_to64_rest();
                if k > 54 {
                    lemma_pow2_strictly_increases(54, k as nat);
                }
                let d = pow2(k as nat);
                assert(2 * (m as nat) < d);
                lemma_basic_div(m as int, d as int);
                lemma_small_mod(m as nat, d);
            }
            return 0;
        }
        let one: u64 = 1;
        proof {
            lemma_u64_pow2_no_overflow(k as nat);
            lemma_u64_pow2_no_overflow((k - 1) as nat);
            lemma_u64_shl_is_mul(one, k);
            lemma_u64_shl_is_mul(one, (k - 1) as u64);
        }
        let q: u64 = m >> k;
        let low: u64 = (one << k) - 1;
        let rem: u64 = m & low;
        let half: u64 = one << (k - 1);
        proof {
            lemma_u64_shr_is_div(m, k);
            lemma_pow2_unfold(k as nat);
            lemma_low_bits_mask_unfold(k as nat);
            lemma_u64_low_bits_mask_is_mod(m, k as nat);
            assert(low == low_bits_mask(k as nat));
            assert(q == m as nat / pow2(k as nat));
            assert(rem == m as nat % pow2(k as nat));
            assert(2 * half == pow2(k as nat));
            assert((q & 1) == q % 2) by (bit_vector);
            assert(q <= m) by (bit_vector)
                requires
                    q == m >> k,
                    k < 64,
            ;
        }
        let up = rem > half || (rem == half && (q & 1) == 1);
        let mag: u64 = if up {
            q + 1
        } else {
            q
        };
        assert(mag == nearest_even(m as nat, k as nat));
        if negative {
            if mag > 0x8000_0000 {
                i32::MIN
            } else {
                (-(mag as i64)) as i32
            }
        } else {
            if mag > 0x7FFF_FFFF {
                i32::MAX
            } else {
                mag as i32
            }
        }
    }

    /// The number without what follows the point.
    pub fn trunc(self) -> (r: Real)
        ensures
            r == self.truncated(),
    {
        let bits = self.bits;
        if (bits & MAGNITUDE_MASK) > INFINITY_BITS {
            return Real { bits: bits | QUIET_BIT };
        }
        let e: u64 = (bits >> 52) & 0x7FF;
        if e >= 1075 {
            return self;
        }
        if e < 1023 {
            return Real { bits: bits & SIGN_MASK };
        }
        let k: u64 = 1075 - e;
        let one: u64 = 1;
        let fraction: u64 = bits & FRACTION_MASK;
        let m: u64 = fraction | HIDDEN_BIT;
        proof {
            lemma_u64_pow2_no_overflow(k as nat);
            lemma_u64_shl_is_mul(one, k);
        }
        let low: u64 = (one << k) - 1;
        proof {
            lemma_low_bits_mask_unfold(k as nat);
            lemma_u64_low_bits_mask_is_mod(m, k as nat);
            assert(low == low_bits_mask(k as nat));
            assert(m == fraction + HIDDEN_BIT && m & low == bits & low && bits & !low == bits - (bits
                & low)) by (bit_vector)
                requires
                    fraction == bits & 0x000F_FFFF_FFFF_FFFFu64,
                    m == fraction | 0x0010_0000_0000_0000u64,
                    1 <= k <= 52,
                    low == (1u64 << k) - 1,
            ;
        }
        Real { bits: bits & !low }
    }

    /// Sum. The operands are handed over in the order of their encodings, so
    /// that the sum does not depend on the order in which they are given.
    pub fn plus(self, other: Real) -> (r: Real)
        ensures
            r == self.sum(other),
    {
        if self.bits <= other.bits {
            Real { bits: soft_add(self.bits, other.bits) }
        } else {
            Real { bits: soft_add(other.bits, self.bits) }
        }
    }

    pub open spec fn sum(self, other: Real) -> Real {
        if self.bits <= other.bits {
            Real { bits: ieee_add(self.bits, other.bits) }
        } else {
            Real { bits: ieee_add(other.bits, self.bits) }
        }
    }

    pub fn minus(self, other: Real) -> (r: Real)
        ensures
            r.bits == ieee_sub(self.bits, other.bits),
    {
        Real { bits: soft_sub(self.bits, other.bits) }
    }

    /// Product, with the operands in the order of their encodings as in
    /// `plus`.
    pub fn times(self, other: Real) -> (r: Real)
        ensures
            r == self.product(other),
    {
        if self.bits <= other.bits {
            Real { bits: soft_mul(self.bits, other.bits) }
        } else {
            Real { bits: soft_mul(other.bits, self.bits) }
        }
    }

    pub open spec fn product(self, other: Real) -> Real {
        if self.bits <= other.bits {
            Real { bits: ieee_mul(self.bits, other.bits) }
        } else {
            Real { bits: ieee_mul(other.bits, self.bits) }
        }
    }

    pub fn divided_by(self, other: Real) -> (r: Real)
        ensures
            r.bits == ieee_div(self.bits, other.bits),
    {
        Real { bits: soft_div(self.bits, other.bits) }
    }

    pub fn remainder(self, other: Real) -> (r: Real)
        ensures
            r.bits == ieee_fmod(self.bits, other.bits),
    {
        Real { bits: soft_fmod(self.bits, other.bits) }
    }

    /// The decimal text of the number.
    pub fn text(self) -> (r: String)
        ensures
            r@ == ieee_text(self.bits),
    {
        soft_text(self.bits)
    }
}

/// A 32-bit integer that is made a number rounds back to itself.
pub proof fn lemma_integer_round_trip(n: int)
    requires
        i32::MIN <= n <= i32::MAX,
    ensures
        Real::of_int(n).rounded() == n,
{
    lemma2_to64();
    lemma2_to64_rest();
    if n == 0 {
        let zero = Real { bits: 0 };
        assert((0u64 >> 52) & 0x7FF == 0 && 0u64 & FRACTION_MASK == 0 && 0u64 & MAGNITUDE_MASK == 0
            && 0u64 & SIGN_MASK == 0) by (bit_vector);
        lemma_pow2_pos(1074);
        lemma_basic_div(0, pow2(1074) as int);
        lemma_small_mod(0, pow2(1074));
    } else {
        let a = (if n < 0 {
            -n
        } else {
            n
        }) as nat;
        let p = top_bit(a);
        lemma_integer_bits_fields(n < 0, a);
        lemma_top_bit_bounds(a);
        if p >= 32 {
            if p > 32 {
                lemma_pow2_strictly_increases(32, p);
            }
        }
        assert(p <= 31);
        let k = (52 - p) as nat;
        let d = pow2(k);
        lemma_pow2_pos(k);
        lemma_div_multiples_vanish(a as int, d as int);
        lemma_mod_multiples_basic(a as int, d as int);
        assert(a * d == d * a) by (nonlinear_arith);
        assert(nearest_even(a * d, k) == a);
    }
}

/// The equality test does not depend on the order of its operands.
pub proof fn lemma_almost_equals_symmetric(a: Real, b: Real)
    ensures
        a.almost_equals(b) == b.almost_equals(a),
{
}

/// An almost-equal pair is one whose difference has a magnitude under the
/// tolerance.
pub proof fn lemma_almost_equals_within_tolerance(a: Real, b: Real)
    requires
        a.almost_equals(b),
    ensures
        (a.gap_bits(b) & MAGNITUDE_MASK) < EPSILON_BITS,
        (Real { bits: a.gap_bits(b) & MAGNITUDE_MASK }).less(Real { bits: EPSILON_BITS }),
{
    let g = a.gap_bits(b);
    assert((g & MAGNITUDE_MASK) & MAGNITUDE_MASK == g & MAGNITUDE_MASK) by (bit_vector);
    assert((g & MAGNITUDE_MASK) & SIGN_MASK == 0) by (bit_vector);
    assert(EPSILON_BITS & MAGNITUDE_MASK == EPSILON_BITS) by (bit_vector);
    assert(EPSILON_BITS & SIGN_MASK == 0) by (bit_vector);
}

/// Of two numbers, at most one is smaller than the other.
pub proof fn lemma_less_asymmetric(a: Real, b: Real)
    ensures
        !(a.less(b) && b.less(a)),
{
}

/// Sum and product do not depend on the order of their operands.
pub proof fn lemma_sum_product_commute(a: Real, b: Real)
    ensures
        a.sum(b) == b.sum(a),
        a.product(b) == b.product(a),
{
}

} // verus!
