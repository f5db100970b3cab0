use vstd::prelude::*;

use crate::error::DivisionByZero;
use crate::mode::MazieMode;
use crate::runtime::MazieRuntime;

verus! {

/// Bit pattern of IEEE-754 binary64 negative zero, which is also the mask of
/// the sign bit.
pub const NEGATIVE_ZERO_BITS: u64 = 0x8000_0000_0000_0000;

/// Holds exactly when `bits` is the pattern of positive or negative zero,
/// the only two binary64 values that compare equal to zero.
pub open spec fn float_is_zero(bits: u64) -> bool {
    bits == 0u64 || bits == NEGATIVE_ZERO_BITS
}

/// The bit pattern of the negated value: IEEE-754 negation flips the sign
/// bit and leaves every other bit unchanged.
pub open spec fn negated_bits(bits: u64) -> u64 {
    bits ^ NEGATIVE_ZERO_BITS
}

/// A scalar tagged with the policy that was in effect when it was created or
/// last rebound. Immutable: every operation returns a new scalar.
///
/// `bits` is the IEEE-754 binary64 bit pattern of the numeric value; two
/// scalars with equal bits and equal mode are interchangeable.
#[derive(Clone, Copy, Debug, PartialEq, Eq, Structural)]
pub struct MazieNum {
    /// IEEE-754 binary64 bit pattern of the numeric value.
    pub bits: u64,
    /// The policy governing this scalar's arithmetic.
    pub mode: MazieMode,
}

/// The scalar with the same policy and the negated value.
pub open spec fn negated(x: MazieNum) -> MazieNum {
    MazieNum { bits: negated_bits(x.bits), mode: x.mode }
}

/// Negation is self-inverse: negating a scalar twice restores it exactly,
/// bits and policy alike.
pub proof fn lemma_negate_self_inverse(x: MazieNum)
    ensures
        negated(negated(x)) == x,
{
    let b: u64 = x.bits;
    assert((b ^ 0x8000_0000_0000_0000u64) ^ 0x8000_0000_0000_0000u64 == b) by (bit_vector);
}

impl MazieNum {
    /// A scalar under the default, identity-preserving policy.
    pub fn new(bits: u64) -> (n: MazieNum)
        ensures
            n.bits == bits,
            n.mode.div0_identity,
    {
        MazieNum { bits, mode: MazieMode::default() }
    }

    /// A scalar under an explicit policy.
    pub fn with_mode(bits: u64, mode: MazieMode) -> (n: MazieNum)
        ensures
            n == (MazieNum { bits, mode }),
    {
        MazieNum { bits, mode }
    }

    /// The raw numeric value (as its bit pattern); the policy is dropped.
    pub fn unwrap(self) -> (r: u64)
        ensures
            r == self.bits,
    {
        self.bits
    }

    /// Whether the wrapped value is exactly zero (positive or negative zero).
    pub fn is_zero(self) -> (r: bool)
        ensures
            r == float_is_zero(self.bits),
    {
        self.bits == 0 || self.bits == NEGATIVE_ZERO_BITS
    }

    /// The implicit context of the value-tagged surface: it carries this
    /// scalar's own policy, so reading the policy off the left operand is the
    /// special case of binding to this context.
    fn implicit_runtime(self) -> (rt: MazieRuntime)
        ensures
            rt.mode == self.mode,
            rt.name@ == "MazieMode"@,
    {
        MazieRuntime { mode: self.mode, name: "MazieMode" }
    }

    /// The sum, tagged with the left operand's policy. `sum_bits` is the
    /// IEEE-754 sum of the two values, computed by the caller.
    pub fn add(self, rhs: MazieNum, sum_bits: u64) -> (r: MazieNum)
        ensures
            r == (MazieNum { bits: sum_bits, mode: self.mode }),
    {
        self.implicit_runtime().add(self, rhs, sum_bits)
    }

    /// The difference, tagged with the left operand's policy.
    /// `difference_bits` is the IEEE-754 difference of the two values,
    /// computed by the caller.
    pub fn sub(self, rhs: MazieNum, difference_bits: u64) -> (r: MazieNum)
        ensures
            r == (MazieNum { bits: difference_bits, mode: self.mode }),
    {
        self.implicit_runtime().sub(self, rhs, difference_bits)
    }

    /// The product, tagged with the left operand's policy. `product_bits` is
    /// the IEEE-754 product of the two values, computed by the caller.
    pub fn mul(self, rhs: MazieNum, product_bits: u64) -> (r: MazieNum)
        ensures
            r == (MazieNum { bits: product_bits, mode: self.mode }),
    {
        self.implicit_runtime().mul(self, rhs, product_bits)
    }

    /// The negated scalar: the sign bit flips, the policy is preserved.
    pub fn neg(self) -> (r: MazieNum)
        ensures
            r == negated(self),
    {
        MazieNum { bits: self.bits ^ NEGATIVE_ZERO_BITS, mode: self.mode }
    }

    /// Division under the left operand's policy.
    ///
    /// If the divisor is exactly zero and the policy is identity-preserving,
    /// the dividend is returned unchanged, bit for bit, policy included. If
    /// the divisor is exactly zero and the policy is strict, the division
    /// fails. Otherwise the result is the IEEE-754 quotient of the two
    /// values, which the caller supplies as `quotient_bits` (read only when
    /// the divisor is non-zero), tagged with the left operand's policy.
    pub fn div(self, rhs: MazieNum, quotient_bits: u64) -> (r: Result<
        MazieNum,
        DivisionByZero,
    >)
        ensures
            float_is_zero(rhs.bits) && self.mode.div0_identity ==> r == Ok::<
                MazieNum,
                DivisionByZero,
            >(self),
            float_is_zero(rhs.bits) && !self.mode.div0_identity ==> (r matches Err(e)
                && e.runtime_name@ == "MazieMode"@),
            !float_is_zero(rhs.bits) ==> r == Ok::<MazieNum, DivisionByZero>(
                (MazieNum { bits: quotient_bits, mode: self.mode }),
            ),
    {
        self.implicit_runtime().div(self, rhs, quotient_bits)
    }
}

/// Convenience constructor: a scalar under the default policy.
pub fn m(bits: u64) -> (n: MazieNum)
    ensures
        n.bits == bits,
        n.mode.div0_identity,
{
    MazieNum::new(bits)
}

/// Convenience constructor: a scalar under an explicit policy.
pub fn m_mode(bits: u64, mode: MazieMode) -> (n: MazieNum)
    ensures
        n == (MazieNum { bits, mode }),
{
    MazieNum::with_mode(bits, mode)
}

} // verus!
