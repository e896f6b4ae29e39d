//! Double-precision scalars held by their IEEE 754 bit pattern.
//!
//! The rounded arithmetic itself is not modelled: each operation has a name
//! (`sum_of`, `product_of`, ...) that stands for the pattern it yields, and
//! every contract of the crate is stated over those names. The operations are
//! carried out in software, on the patterns.

use vstd::prelude::*;
use vstd::arithmetic::power2::lemma2_to64;
use vstd::arithmetic::power2::lemma2_to64_rest;
use vstd::arithmetic::power2::lemma_pow2_unfold;
use vstd::arithmetic::power2::pow2;
use rustc_apfloat::ieee::Double;
use rustc_apfloat::Float;
use rustc_apfloat::FloatConvert;

verus! {

/// The sign flag of a double.
pub const SIGN_BIT: u64 = 0x8000_0000_0000_0000;

/// Positive infinity, the largest pattern that is ordered above zero.
pub const POSITIVE_INFINITY_BITS: u64 = 0x7FF0_0000_0000_0000;

/// The smallest positive normal double, `2^-1022`. Every positive pattern
/// below it is subnormal. As a number it is `2^52`, the weight of the lowest
/// bit of the exponent field.
pub const MIN_NORMAL_BITS: u64 = 0x0010_0000_0000_0000;

/// The double `2^-54`.
pub const TWO_POW_MINUS_54_BITS: u64 = 0x3C90_0000_0000_0000;

/// Positive zero.
pub const ZERO_BITS: u64 = 0;

/// The number one.
pub const ONE_BITS: u64 = 0x3FF0_0000_0000_0000;

/// The number two.
pub const TWO_BITS: u64 = 0x4000_0000_0000_0000;

/// The number ten.
pub const TEN_BITS: u64 = 0x4024_0000_0000_0000;

/// The pattern of the rounded sum of two doubles.
pub uninterp spec fn sum_of(a: u64, b: u64) -> u64;

/// The pattern of the rounded product of two doubles.
pub uninterp spec fn product_of(a: u64, b: u64) -> u64;

/// The pattern of the rounded quotient of two doubles.
pub uninterp spec fn quotient_of(a: u64, b: u64) -> u64;

/// The pattern of the rounded square root of a double that is no positive
/// subnormal.
pub uninterp spec fn square_root_of(a: u64) -> u64;

/// The pattern with exponent field `exponent` and the significand
/// `significand`, once the significand has been doubled until it reaches
/// `2^52`, with the exponent lowered by one per doubling. The number stays
/// the same throughout.
pub open spec fn normalized(significand: int, exponent: int) -> int
    decreases
        (if significand < MIN_NORMAL_BITS {
            MIN_NORMAL_BITS - significand
        } else {
            0
        }),
{
    if 0 < significand < MIN_NORMAL_BITS {
        normalized(2 * significand, exponent - 1)
    } else {
        exponent * MIN_NORMAL_BITS + significand - MIN_NORMAL_BITS
    }
}

/// The pattern of the natural logarithm of a double.
pub uninterp spec fn natural_log_of(a: u64) -> u64;

/// The single-precision pattern nearest to a double.
pub uninterp spec fn narrowed_of(a: u64) -> u32;

/// The pattern of the double nearest to a count.
pub uninterp spec fn count_of(count: usize) -> u64;

/// A double-precision number, identified with its bit pattern.
#[derive(Clone, Copy, Debug)]
pub struct Scalar {
    pub bits: u64,
}

/// A single-precision number, identified with its bit pattern.
#[derive(Clone, Copy, Debug)]
pub struct Single {
    pub bits: u32,
}

impl Single {
    pub fn from_bits(bits: u32) -> (r: Single)
        ensures
            r.bits == bits,
    {
        Single { bits }
    }

    pub fn to_bits(self) -> (r: u32)
        ensures
            r == self.bits,
    {
        self.bits
    }
}

impl Scalar {
    pub open spec fn spec_add(self, rhs: Scalar) -> Scalar {
        Scalar { bits: sum_of(self.bits, rhs.bits) }
    }

    /// The same magnitude with the opposite sign.
    pub open spec fn spec_neg(self) -> Scalar {
        if self.bits >= SIGN_BIT {
            Scalar { bits: (self.bits - SIGN_BIT) as u64 }
        } else {
            Scalar { bits: (self.bits + SIGN_BIT) as u64 }
        }
    }

    /// Subtraction is the addition of the opposite.
    pub open spec fn spec_sub(self, rhs: Scalar) -> Scalar {
        self.spec_add(rhs.spec_neg())
    }

    pub open spec fn spec_mul(self, rhs: Scalar) -> Scalar {
        Scalar { bits: product_of(self.bits, rhs.bits) }
    }

    pub open spec fn spec_div(self, rhs: Scalar) -> Scalar {
        Scalar { bits: quotient_of(self.bits, rhs.bits) }
    }

    /// Whether the number is positive and subnormal.
    pub open spec fn spec_is_positive_subnormal(self) -> bool {
        0 < self.bits < MIN_NORMAL_BITS
    }

    /// A positive subnormal times `2^108`, which is normal and exact: a
    /// subnormal of pattern `b` is `b * 2^-1074`, the same number as the
    /// significand `b` under the exponent field 1, and `2^108` raises that
    /// field to 109.
    pub open spec fn spec_scaled_up(self) -> Scalar {
        Scalar { bits: normalized(self.bits as int, 109) as u64 }
    }

    /// The square root. That of a positive subnormal is taken of the number
    /// times `2^108` and then multiplied by `2^-54`; both scalings are exact.
    pub open spec fn spec_sqrt(self) -> Scalar {
        if self.spec_is_positive_subnormal() {
            Scalar { bits: square_root_of(self.spec_scaled_up().bits) }.spec_mul(
                Scalar { bits: TWO_POW_MINUS_54_BITS },
            )
        } else {
            Scalar { bits: square_root_of(self.bits) }
        }
    }

    pub open spec fn spec_ln(self) -> Scalar {
        Scalar { bits: natural_log_of(self.bits) }
    }

    pub open spec fn spec_narrow(self) -> Single {
        Single { bits: narrowed_of(self.bits) }
    }

    pub open spec fn spec_from_count(count: usize) -> Scalar {
        Scalar { bits: count_of(count) }
    }

    /// Strictly above zero in the IEEE order: a positive pattern that is no
    /// NaN. Both zeros and every NaN fail it; positive infinity meets it.
    pub open spec fn spec_is_positive(self) -> bool {
        0 < self.bits <= POSITIVE_INFINITY_BITS
    }

    pub fn from_bits(bits: u64) -> (r: Scalar)
        ensures
            r.bits == bits,
    {
        Scalar { bits }
    }

    pub fn to_bits(self) -> (r: u64)
        ensures
            r == self.bits,
    {
        self.bits
    }

    /// Flips the sign flag and leaves the magnitude as it is.
    pub fn neg(self) -> (r: Scalar)
        ensures
            r == self.spec_neg(),
    {
        if self.bits >= SIGN_BIT {
            Scalar { bits: self.bits - SIGN_BIT }
        } else {
            Scalar { bits: self.bits + SIGN_BIT }
        }
    }

    /// Whether the number is strictly greater than zero.
    pub fn is_positive(self) -> (r: bool)
        ensures
            r == self.spec_is_positive(),
    {
        0 < self.bits && self.bits <= POSITIVE_INFINITY_BITS
    }

    /// Calls the `+` of `rustc_apfloat::ieee::Double`, which rounds to
    /// nearest, ties to even, and is a pure function of the two patterns; the
    /// contract only names its result.
    #[verifier::external_body]
    pub(crate) fn add(self, rhs: Scalar) -> (r: Scalar)
        ensures
            r.bits == sum_of(self.bits, rhs.bits),
    {
        let sum = Double::from_bits(self.bits as u128) + Double::from_bits(rhs.bits as u128);
        Scalar { bits: sum.value.to_bits() as u64 }
    }

    /// Subtracts by adding the opposite.
    pub(crate) fn sub(self, rhs: Scalar) -> (r: Scalar)
        ensures
            r == self.spec_sub(rhs),
    {
        self.add(rhs.neg())
    }

    /// Calls the `*` of `rustc_apfloat::ieee::Double`, which rounds to
    /// nearest, ties to even, and is a pure function of the two patterns; the
    /// contract only names its result.
    #[verifier::external_body]
    pub(crate) fn mul(self, rhs: Scalar) -> (r: Scalar)
        ensures
            r.bits == product_of(self.bits, rhs.bits),
    {
        let product = Double::from_bits(self.bits as u128) * Double::from_bits(rhs.bits as u128);
        Scalar { bits: product.value.to_bits() as u64 }
    }

    /// Calls the `/` of `rustc_apfloat::ieee::Double`, which rounds to
    /// nearest, ties to even, is a pure function of the two patterns and
    /// returns for every divisor, zero included; the contract only names its
    /// result.
    #[verifier::external_body]
    pub(crate) fn div(self, rhs: Scalar) -> (r: Scalar)
        ensures
            r.bits == quotient_of(self.bits, rhs.bits),
    {
        let quotient = Double::from_bits(self.bits as u128) / Double::from_bits(rhs.bits as u128);
        Scalar { bits: quotient.value.to_bits() as u64 }
    }

    /// Calls `softfloat::F64::sqrt`, a pure function of the pattern; the
    /// contract only names its result. Positive subnormals are left out: for
    /// them alone the outside function shifts a machine word by a count that
    /// can be the width of a 32-bit word.
    #[verifier::external_body]
    pub(crate) fn sqrt_normal(self) -> (r: Scalar)
        requires
            self.bits == 0 || self.bits >= MIN_NORMAL_BITS,
        ensures
            r.bits == square_root_of(self.bits),
    {
        Scalar { bits: softfloat::F64::from_bits(self.bits).sqrt().to_bits() }
    }

    /// A positive subnormal times `2^108`.
    pub(crate) fn scaled_up(self) -> (r: Scalar)
        requires
            self.spec_is_positive_subnormal(),
        ensures
            r == self.spec_scaled_up(),
            MIN_NORMAL_BITS <= r.bits < 110 * MIN_NORMAL_BITS,
    {
        let mut significand: u64 = self.bits;
        let mut exponent: u64 = 109;
        let ghost mut doublings: nat = 0;
        proof {
            lemma2_to64();
            lemma2_to64_rest();
        }
        while significand < MIN_NORMAL_BITS
            invariant
                0 < significand < 2 * MIN_NORMAL_BITS,
                exponent + doublings == 109,
                doublings <= 52,
                significand >= pow2(doublings),
                normalized(significand as int, exponent as int) == normalized(
                    self.bits as int,
                    109,
                ),
            decreases
                (if significand < MIN_NORMAL_BITS {
                    MIN_NORMAL_BITS - significand
                } else {
                    0
                }),
        {
            proof {
                lemma2_to64_rest();
                assert(doublings < 52);
                lemma_pow2_unfold(doublings + 1);
                doublings = doublings + 1;
            }
            significand = 2 * significand;
            exponent = exponent - 1;
        }
        assert(exponent * MIN_NORMAL_BITS <= 109 * MIN_NORMAL_BITS) by (nonlinear_arith)
            requires
                exponent <= 109,
        ;
        assert(exponent * MIN_NORMAL_BITS >= 57 * MIN_NORMAL_BITS) by (nonlinear_arith)
            requires
                exponent >= 57,
        ;
        Scalar { bits: exponent * MIN_NORMAL_BITS + (significand - MIN_NORMAL_BITS) }
    }

    /// The square root, for every pattern.
    pub(crate) fn sqrt(self) -> (r: Scalar)
        ensures
            r == self.spec_sqrt(),
    {
        if 0 < self.bits && self.bits < MIN_NORMAL_BITS {
            self.scaled_up().sqrt_normal().mul(Scalar { bits: TWO_POW_MINUS_54_BITS })
        } else {
            self.sqrt_normal()
        }
    }

    /// Calls `softfloat::F64::ln`, a pure function of the pattern that returns
    /// for every argument; the contract only names its result.
    #[verifier::external_body]
    pub(crate) fn ln(self) -> (r: Scalar)
        ensures
            r.bits == natural_log_of(self.bits),
    {
        Scalar { bits: softfloat::F64::from_bits(self.bits).ln().to_bits() }
    }

    /// Calls `rustc_apfloat::FloatConvert::convert` from `Double` to
    /// `Single`, which rounds to nearest, ties to even; the contract only
    /// names its result.
    #[verifier::external_body]
    pub(crate) fn narrow(self) -> (r: Single)
        ensures
            r.bits == narrowed_of(self.bits),
    {
        let mut loses_info = false;
        let narrowed: rustc_apfloat::ieee::Single = Double::from_bits(self.bits as u128).convert(
            &mut loses_info,
        ).value;
        Single { bits: narrowed.to_bits() as u32 }
    }

    /// Calls `rustc_apfloat::Float::from_u128` for `Double`, which gives the
    /// double nearest to the count, ties to even; the contract only names its
    /// result.
    #[verifier::external_body]
    pub(crate) fn from_count(count: usize) -> (r: Scalar)
        ensures
            r.bits == count_of(count),
    {
        Scalar { bits: Double::from_u128(count as u128).value.to_bits() as u64 }
    }
}

} // verus!
