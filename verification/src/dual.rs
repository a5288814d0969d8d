//! The dual-number scalar, the operands its three comparison tiers forward
//! to the underlying double-precision representation, and the default
//! tolerances of those tiers.

use vstd::prelude::*;

verus! {

/// Bit pattern of the double-precision machine epsilon, `2^-52`: the
/// default absolute tolerance of the underlying representation.
pub const DEFAULT_EPSILON_BITS: u64 = 0x3CB0000000000000;

/// Bit pattern of the double-precision machine epsilon, `2^-52`: also the
/// default maximum relative difference of the underlying representation.
pub const DEFAULT_MAX_RELATIVE_BITS: u64 = 0x3CB0000000000000;

/// The default number of representable steps the ULPS tier of the
/// underlying representation tolerates.
pub const DEFAULT_MAX_ULPS: u32 = 4;

/// A forward-mode automatic differentiation scalar: a value together with
/// its first derivative with respect to the differentiation variable. Each
/// component is held as the bit pattern of an IEEE-754 double-precision
/// number.
///
/// Approximate equality of two such scalars is decided by the value
/// components alone: the derivative records a sensitivity, not a result,
/// and never takes part in a comparison.
#[derive(Clone, Copy, Debug, PartialEq, Eq, Structural)]
pub struct Dual {
    /// Bit pattern of the value component.
    pub value: u64,
    /// Bit pattern of the derivative component.
    pub derivative: u64,
}

/// The scalar that holds the number encoded by `value_bits` as a constant:
/// the derivative of a constant is positive zero, whose bit pattern is all
/// zeros.
pub open spec fn spec_cst(value_bits: u64) -> Dual {
    Dual { value: value_bits, derivative: 0u64 }
}

/// The operands an absolute-difference comparison of two scalars forwards
/// to the underlying representation: the value components of both sides
/// and of the tolerance.
pub open spec fn spec_abs_diff_operands(a: Dual, b: Dual, epsilon: Dual) -> (u64, u64, u64) {
    (a.value, b.value, epsilon.value)
}

/// The operands a relative comparison of two scalars forwards to the
/// underlying representation: the value components of both sides, of the
/// absolute tolerance, and of the maximum relative difference.
pub open spec fn spec_relative_operands(
    a: Dual,
    b: Dual,
    epsilon: Dual,
    max_relative: Dual,
) -> (u64, u64, u64, u64) {
    (a.value, b.value, epsilon.value, max_relative.value)
}

/// The operands a ULPS comparison of two scalars forwards to the
/// underlying representation: the value components of both sides and of
/// the absolute tolerance, and the maximum step count, which is already a
/// bare integer and passes through unchanged.
pub open spec fn spec_ulps_operands(
    a: Dual,
    b: Dual,
    epsilon: Dual,
    max_ulps: u32,
) -> (u64, u64, u64, u32) {
    (a.value, b.value, epsilon.value, max_ulps)
}

impl Dual {
    /// Build a scalar from the bit patterns of its two components.
    pub fn new(value_bits: u64, derivative_bits: u64) -> (r: Dual)
        ensures
            r.value == value_bits,
            r.derivative == derivative_bits,
    {
        Dual { value: value_bits, derivative: derivative_bits }
    }

    /// Wrap a bare number, given by its bit pattern, as a constant scalar:
    /// the derivative of a constant is zero.
    pub fn cst(value_bits: u64) -> (r: Dual)
        ensures
            r == spec_cst(value_bits),
    {
        Dual { value: value_bits, derivative: 0u64 }
    }

    /// The default absolute tolerance: the underlying representation's own
    /// default, the double-precision machine epsilon, wrapped as a
    /// zero-derivative constant scalar.
    pub fn default_epsilon() -> (r: Dual)
        ensures
            r == spec_cst(DEFAULT_EPSILON_BITS),
            r.derivative == 0u64,
    {
        Dual::cst(DEFAULT_EPSILON_BITS)
    }

    /// The default maximum relative difference: the underlying
    /// representation's own default, the double-precision machine epsilon,
    /// wrapped as a zero-derivative constant scalar.
    pub fn default_max_relative() -> (r: Dual)
        ensures
            r == spec_cst(DEFAULT_MAX_RELATIVE_BITS),
            r.derivative == 0u64,
    {
        Dual::cst(DEFAULT_MAX_RELATIVE_BITS)
    }

    /// The default maximum ULPS distance: the underlying representation's
    /// own default. A step count is an integer, not a differentiable
    /// quantity, so it is not wrapped as a scalar.
    pub fn default_max_ulps() -> (r: u32)
        ensures
            r == DEFAULT_MAX_ULPS,
    {
        DEFAULT_MAX_ULPS
    }

    /// The operands that comparing `self` against `other` within the
    /// absolute tolerance `epsilon` hands to the underlying
    /// representation's absolute-difference rule. Only value components
    /// are handed over; the derivative components of all three scalars are
    /// discarded.
    pub fn abs_diff_operands(&self, other: &Dual, epsilon: Dual) -> (r: (u64, u64, u64))
        ensures
            r == spec_abs_diff_operands(*self, *other, epsilon),
    {
        (self.value, other.value, epsilon.value)
    }

    /// The operands that comparing `self` against `other` within the
    /// absolute tolerance `epsilon` and the maximum relative difference
    /// `max_relative` hands to the underlying representation's relative
    /// rule. Only value components are handed over; the derivative
    /// components of all four scalars are discarded.
    pub fn relative_operands(
        &self,
        other: &Dual,
        epsilon: Dual,
        max_relative: Dual,
    ) -> (r: (u64, u64, u64, u64))
        ensures
            r == spec_relative_operands(*self, *other, epsilon, max_relative),
    {
        (self.value, other.value, epsilon.value, max_relative.value)
    }

    /// The operands that comparing `self` against `other` within the
    /// absolute tolerance `epsilon` and at most `max_ulps` representable
    /// steps hands to the underlying representation's ULPS rule. Only
    /// value components are handed over, and the step count passes through
    /// unchanged; the derivative components of all three scalars are
    /// discarded.
    pub fn ulps_operands(
        &self,
        other: &Dual,
        epsilon: Dual,
        max_ulps: u32,
    ) -> (r: (u64, u64, u64, u32))
        ensures
            r == spec_ulps_operands(*self, *other, epsilon, max_ulps),
    {
        (self.value, other.value, epsilon.value, max_ulps)
    }
}

/// Comparisons are blind to derivatives: two comparisons whose scalars
/// agree in every value component forward identical operands to the
/// underlying representation, whatever their derivative components hold,
/// and so receive identical verdicts from it.
pub proof fn lemma_derivatives_excluded(
    a1: Dual,
    b1: Dual,
    e1: Dual,
    m1: Dual,
    a2: Dual,
    b2: Dual,
    e2: Dual,
    m2: Dual,
    max_ulps: u32,
)
    requires
        a1.value == a2.value,
        b1.value == b2.value,
        e1.value == e2.value,
        m1.value == m2.value,
    ensures
        spec_abs_diff_operands(a1, b1, e1) == spec_abs_diff_operands(a2, b2, e2),
        spec_relative_operands(a1, b1, e1, m1) == spec_relative_operands(a2, b2, e2, m2),
        spec_ulps_operands(a1, b1, e1, max_ulps) == spec_ulps_operands(a2, b2, e2, max_ulps),
{
}

/// Wrapping bare numbers as zero-derivative constant scalars changes
/// nothing: the operands forwarded for the wrapped scalars are exactly the
/// bare numbers, so each tier's verdict on the wrapped scalars is the
/// underlying representation's verdict on the bare numbers themselves.
pub proof fn lemma_bare_numbers_forwarded(v1: u64, v2: u64, t: u64, m: u64, max_ulps: u32)
    ensures
        spec_abs_diff_operands(spec_cst(v1), spec_cst(v2), spec_cst(t)) == (v1, v2, t),
        spec_relative_operands(spec_cst(v1), spec_cst(v2), spec_cst(t), spec_cst(m)) == (
            v1,
            v2,
            t,
            m,
        ),
        spec_ulps_operands(spec_cst(v1), spec_cst(v2), spec_cst(t), max_ulps) == (
            v1,
            v2,
            t,
            max_ulps,
        ),
{
}

} // verus!
