//! Binary64 floating-point numbers, held by their bit patterns.
//!
//! Battery percentages and thresholds arrive as IEEE 754 doubles. This module
//! keeps such a number as the 64 bits that encode it and compares two of them
//! with integer arithmetic alone. The meaning of a bit pattern is given by
//! [`Float64::spec_value`]: the number it denotes, as an integer count of the
//! smallest positive double (2 to the power -1074).
use vstd::arithmetic::mul::*;
use vstd::arithmetic::power2::*;
use vstd::prelude::*;

verus! {

/// The sign bit of a binary64 pattern.
pub const SIGN_BIT: u64 = 0x8000_0000_0000_0000;

/// The pattern of positive infinity; every larger magnitude is a NaN.
pub const INFINITY_BITS: u64 = 0x7ff0_0000_0000_0000;

/// Two to the power 52: the weight of the lowest exponent bit.
pub const FRACTION_SPAN: u64 = 0x0010_0000_0000_0000;

/// The pattern of `100.0`.
pub const HUNDRED_BITS: u64 = 0x4059_0000_0000_0000;

/// The magnitude that the low 63 bits `abs` of a pattern denote, in units of
/// 2 to the power -1074. Infinity counts as the power of two that follows the
/// largest finite number.
pub open spec fn magnitude_of(abs: nat) -> nat {
    let exponent = abs / (FRACTION_SPAN as nat);
    let fraction = abs % (FRACTION_SPAN as nat);
    if exponent == 0 {
        fraction
    } else {
        (FRACTION_SPAN as nat + fraction) * pow2((exponent - 1) as nat)
    }
}

/// Among patterns, a larger magnitude field denotes a larger magnitude.
pub proof fn lemma_magnitude_increases(a: nat, b: nat)
    requires
        a < b,
    ensures
        magnitude_of(a) < magnitude_of(b),
{
    let span = FRACTION_SPAN as nat;
    let ea = a / span;
    let fa = a % span;
    let eb = b / span;
    let fb = b % span;
    assert(a == ea * span + fa && b == eb * span + fb) by (nonlinear_arith)
        requires
            span == 0x0010_0000_0000_0000,
            ea == a / span,
            fa == a % span,
            eb == b / span,
            fb == b % span,
    ;
    assert(ea <= eb) by (nonlinear_arith)
        requires
            a < b,
            span == 0x0010_0000_0000_0000,
            ea == a / span,
            eb == b / span,
    ;
    if ea == eb {
        // The same exponent: the larger fraction decides.
        if ea != 0 {
            let p = pow2((ea - 1) as nat);
            lemma_pow2_pos((ea - 1) as nat);
            lemma_mul_strict_inequality((span + fa) as int, (span + fb) as int, p as int);
        }
    } else {
        // A smaller exponent: all of `a` stays below the least magnitude
        // that the exponent of `b` can give, which is `span * q`.
        let q = pow2((eb - 1) as nat);
        lemma_pow2_pos((eb - 1) as nat);
        lemma_mul_inequality(span as int, (span + fb) as int, q as int);
        if ea == 0 {
            lemma_mul_inequality(1, q as int, span as int);
            assert(span * 1 <= span * q) by (nonlinear_arith)
                requires
                    1 * span <= q * span,
            ;
        } else {
            let p = pow2((ea - 1) as nat);
            lemma_pow2_pos((ea - 1) as nat);
            lemma_pow2_unfold(ea);
            lemma_mul_strict_inequality((span + fa) as int, (2 * span) as int, p as int);
            assert((2 * span) * p == span * pow2(ea)) by (nonlinear_arith)
                requires
                    pow2(ea) == 2 * p,
            ;
            if ea < eb - 1 {
                lemma_pow2_strictly_increases(ea, (eb - 1) as nat);
            }
            lemma_mul_inequality(pow2(ea) as int, q as int, span as int);
            assert(span * pow2(ea) <= span * q) by (nonlinear_arith)
                requires
                    pow2(ea) * span <= q * span,
            ;
        }
    }
}

/// How two numbers stand to each other.
#[derive(Clone, Copy, Debug, PartialEq, Eq, Structural)]
pub enum FloatOrder {
    /// The first is smaller.
    Less,
    /// Both denote the same number (`0.0` and `-0.0` do).
    Same,
    /// The first is larger.
    Greater,
    /// At least one of them is a NaN.
    Unordered,
}

/// An IEEE 754 binary64 number, held by its bit pattern.
///
/// Two values are `==` when their bits are the same; [`Float64::same`] tells
/// whether they denote the same number.
#[derive(Clone, Copy, Debug, PartialEq, Eq, Structural)]
pub struct Float64 {
    /// The bit pattern.
    pub bits: u64,
}

impl Float64 {
    /// Whether the sign bit is set.
    pub open spec fn spec_negative(self) -> bool {
        self.bits >= SIGN_BIT
    }

    /// The pattern without its sign bit.
    pub open spec fn spec_abs_bits(self) -> nat {
        if self.spec_negative() {
            (self.bits - SIGN_BIT) as nat
        } else {
            self.bits as nat
        }
    }

    /// Whether the pattern is a NaN: all exponent bits set and a fraction
    /// that is not zero.
    pub open spec fn spec_is_nan(self) -> bool {
        self.spec_abs_bits() > INFINITY_BITS
    }

    /// The number that the pattern denotes, in units of 2 to the power -1074.
    /// Meaningful unless the pattern is a NaN.
    pub open spec fn spec_value(self) -> int {
        if self.spec_negative() {
            -(magnitude_of(self.spec_abs_bits()) as int)
        } else {
            magnitude_of(self.spec_abs_bits()) as int
        }
    }

    /// The IEEE comparison of two numbers.
    pub open spec fn spec_order(self, other: Float64) -> FloatOrder {
        if self.spec_is_nan() || other.spec_is_nan() {
            FloatOrder::Unordered
        } else if self.spec_value() < other.spec_value() {
            FloatOrder::Less
        } else if self.spec_value() > other.spec_value() {
            FloatOrder::Greater
        } else {
            FloatOrder::Same
        }
    }

    /// The comparison of two numbers as it is read off their bits: a NaN
    /// compares with nothing, the two zeros are the same, a negative number
    /// is less than a positive one, and of two numbers of one sign the larger
    /// pattern is further from zero.
    pub open spec fn order_by_bits(self, other: Float64) -> FloatOrder {
        let a = self.spec_abs_bits();
        let b = other.spec_abs_bits();
        if a > INFINITY_BITS || b > INFINITY_BITS {
            FloatOrder::Unordered
        } else if a == 0 && b == 0 {
            FloatOrder::Same
        } else if self.spec_negative() && !other.spec_negative() {
            FloatOrder::Less
        } else if !self.spec_negative() && other.spec_negative() {
            FloatOrder::Greater
        } else if a == b {
            FloatOrder::Same
        } else if (a < b) != self.spec_negative() {
            FloatOrder::Less
        } else {
            FloatOrder::Greater
        }
    }

    /// `self < other` as IEEE 754 defines it: false when either is a NaN.
    pub open spec fn spec_lt(self, other: Float64) -> bool {
        self.spec_order(other) == FloatOrder::Less
    }

    /// `self > other` as IEEE 754 defines it: false when either is a NaN.
    pub open spec fn spec_gt(self, other: Float64) -> bool {
        self.spec_order(other) == FloatOrder::Greater
    }

    /// `self == other` as IEEE 754 defines it: false when either is a NaN,
    /// true of `0.0` and `-0.0`.
    pub open spec fn spec_same(self, other: Float64) -> bool {
        self.spec_order(other) == FloatOrder::Same
    }

    /// What clamping to the range from `0.0` to `100.0` gives: a NaN stays as
    /// it is, and so does `-0.0`.
    pub open spec fn spec_clamp_percent(self) -> Float64 {
        if self.spec_lt(Float64::spec_zero()) {
            Float64::spec_zero()
        } else if self.spec_gt(Float64::spec_hundred()) {
            Float64::spec_hundred()
        } else {
            self
        }
    }

    /// Whether the number is one that clamping to a percentage leaves alone.
    pub open spec fn spec_is_percent(self) -> bool {
        self.spec_is_nan() || (0 <= self.spec_value() <= Float64::spec_hundred().spec_value())
    }

    /// The number `0.0`.
    pub open spec fn spec_zero() -> Float64 {
        Float64 { bits: 0 }
    }

    /// The number `100.0`.
    pub open spec fn spec_hundred() -> Float64 {
        Float64 { bits: HUNDRED_BITS }
    }

    /// The number with the given bit pattern.
    pub fn from_bits(bits: u64) -> (r: Float64)
        ensures
            r.bits == bits,
    {
        Float64 { bits }
    }

    /// The bit pattern of the number.
    pub fn to_bits(&self) -> (bits: u64)
        ensures
            bits == self.bits,
    {
        self.bits
    }

    /// The number `0.0`.
    pub fn zero() -> (r: Float64)
        ensures
            r == Float64::spec_zero(),
    {
        Float64 { bits: 0 }
    }

    /// The number `100.0`.
    pub fn hundred() -> (r: Float64)
        ensures
            r == Float64::spec_hundred(),
    {
        Float64 { bits: HUNDRED_BITS }
    }

    /// Whether the number is a NaN.
    pub fn is_nan(&self) -> (r: bool)
        ensures
            r == self.spec_is_nan(),
    {
        self.abs_bits() > INFINITY_BITS
    }

    fn abs_bits(&self) -> (r: u64)
        ensures
            r == self.spec_abs_bits(),
    {
        if self.bits >= SIGN_BIT {
            self.bits - SIGN_BIT
        } else {
            self.bits
        }
    }

    /// Compares two numbers as IEEE 754 does.
    pub fn order(&self, other: &Float64) -> (r: FloatOrder)
        ensures
            r == self.spec_order(*other),
    {
        let a: u64 = self.abs_bits();
        let b: u64 = other.abs_bits();
        let a_negative = self.bits >= SIGN_BIT;
        let b_negative = other.bits >= SIGN_BIT;
        proof {
            lemma_order_by_bits(*self, *other);
        }
        if a > INFINITY_BITS || b > INFINITY_BITS {
            FloatOrder::Unordered
        } else if a == 0 && b == 0 {
            FloatOrder::Same
        } else if a_negative && !b_negative {
            FloatOrder::Less
        } else if !a_negative && b_negative {
            FloatOrder::Greater
        } else if a == b {
            FloatOrder::Same
        } else if (a < b) != a_negative {
            FloatOrder::Less
        } else {
            FloatOrder::Greater
        }
    }

    /// `self < other`, false when either is a NaN.
    pub fn lt(&self, other: &Float64) -> (r: bool)
        ensures
            r == self.spec_lt(*other),
    {
        matches!(self.order(other), FloatOrder::Less)
    }

    /// `self > other`, false when either is a NaN.
    pub fn gt(&self, other: &Float64) -> (r: bool)
        ensures
            r == self.spec_gt(*other),
    {
        matches!(self.order(other), FloatOrder::Greater)
    }

    /// `self == other` as numbers, false when either is a NaN.
    pub fn same(&self, other: &Float64) -> (r: bool)
        ensures
            r == self.spec_same(*other),
    {
        matches!(self.order(other), FloatOrder::Same)
    }

    /// Clamps the number to the range from `0.0` to `100.0`. A NaN stays a
    /// NaN.
    pub fn clamp_percent(self) -> (r: Float64)
        ensures
            r == self.spec_clamp_percent(),
            r.spec_is_percent(),
    {
        let zero = Float64::zero();
        let hundred = Float64::hundred();
        if self.lt(&zero) {
            zero
        } else if self.gt(&hundred) {
            hundred
        } else {
            self
        }
    }
}

/// Comparing two numbers by their bits is comparing the numbers.
pub proof fn lemma_order_by_bits(a: Float64, b: Float64)
    ensures
        a.spec_order(b) == a.order_by_bits(b),
{
    let x = a.spec_abs_bits();
    let y = b.spec_abs_bits();
    if x < y {
        lemma_magnitude_increases(x, y);
    }
    if y < x {
        lemma_magnitude_increases(y, x);
    }
    if 0 < x {
        lemma_magnitude_increases(0, x);
    }
    if 0 < y {
        lemma_magnitude_increases(0, y);
    }
}

/// Clamping a number that was clamped changes nothing.
pub proof fn lemma_clamp_percent_is_idempotent(x: Float64)
    ensures
        x.spec_clamp_percent().spec_clamp_percent() == x.spec_clamp_percent(),
        x.spec_clamp_percent().spec_is_percent(),
{
    let zero = Float64::spec_zero();
    let hundred = Float64::spec_hundred();
    lemma_order_by_bits(zero, zero);
    lemma_order_by_bits(zero, hundred);
    lemma_order_by_bits(hundred, zero);
    lemma_order_by_bits(hundred, hundred);
}

/// The pattern called `100.0` denotes one hundred: 100 times 2 to the power
/// 1074 of the unit.
pub proof fn lemma_hundred_is_one_hundred()
    ensures
        !Float64::spec_hundred().spec_is_nan(),
        Float64::spec_hundred().spec_value() == 100 * pow2(1074),
        Float64::spec_zero().spec_value() == 0,
{
    let abs = HUNDRED_BITS as nat;
    lemma2_to64();
    lemma2_to64_rest();
    lemma_pow2_adds(48, 1028);
    lemma_pow2_adds(2, 1074);
    assert(25 * pow2(48) * pow2(1028) == 100 * pow2(1074)) by (nonlinear_arith)
        requires
            pow2(48) * pow2(1028) == pow2(1076),
            4 * pow2(1074) == pow2(1076),
    ;
}

} // verus!
