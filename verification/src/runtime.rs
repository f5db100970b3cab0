use vstd::prelude::*;

use crate::error::DivisionByZero;
use crate::mode::MazieMode;
use crate::num::MazieNum;
use crate::num::NEGATIVE_ZERO_BITS;
use crate::num::float_is_zero;
use crate::num::negated;

verus! {

/// A named policy context: arithmetic is dispatched through it rather than
/// read off the operands. It holds a policy and a human-readable name used
/// only in diagnostic messages; it has no other state.
#[derive(Clone, Copy, Debug, PartialEq)]
pub struct MazieRuntime {
    /// The policy this runtime applies to every operation.
    pub mode: MazieMode,
    /// A human-readable name, used only in diagnostic messages.
    pub name: &'static str,
}

/// The scalar `x` re-stamped with the runtime's policy: same bits, the
/// runtime's mode. This is the model of [`MazieRuntime::bind`].
pub open spec fn bound_to(rt: MazieRuntime, x: MazieNum) -> MazieNum {
    MazieNum { bits: x.bits, mode: rt.mode }
}

/// Binding is idempotent: rebinding a scalar already bound to a runtime
/// returns a value equal to the input.
pub proof fn lemma_bind_idempotent(rt: MazieRuntime, x: MazieNum)
    ensures
        bound_to(rt, bound_to(rt, x)) == bound_to(rt, x),
{
}

/// Binding overrides foreign policy: whatever policy a scalar carried, the
/// bound scalar carries the runtime's policy, and its value is unchanged.
pub proof fn lemma_bind_overrides_policy(rt: MazieRuntime, x: MazieNum)
    ensures
        bound_to(rt, x).mode == rt.mode,
        bound_to(rt, x).bits == x.bits,
{
}

impl MazieRuntime {
    /// The default runtime: division by zero returns the dividend.
    pub fn mazie() -> (rt: MazieRuntime)
        ensures
            rt.mode.div0_identity,
            rt.name@ == "identity-preserving"@,
    {
        MazieRuntime { mode: MazieMode { div0_identity: true }, name: "identity-preserving" }
    }

    /// The strict runtime: division by zero is an error.
    pub fn strict() -> (rt: MazieRuntime)
        ensures
            !rt.mode.div0_identity,
            rt.name@ == "strict"@,
    {
        MazieRuntime { mode: MazieMode { div0_identity: false }, name: "strict" }
    }

    /// A scalar bound to this runtime's policy.
    pub fn n(&self, bits: u64) -> (r: MazieNum)
        ensures
            r == (MazieNum { bits: bits, mode: self.mode }),
    {
        MazieNum { bits: bits, mode: self.mode }
    }

    /// The scalar re-stamped with this runtime's policy, whatever policy it
    /// carried before: the context is the authority.
    pub fn bind(&self, x: MazieNum) -> (r: MazieNum)
        ensures
            r == bound_to(*self, x),
    {
        MazieNum { bits: x.bits, mode: self.mode }
    }

    /// The sum under this runtime: both operands count as bound to it (a
    /// binding that changes no value, only the policy tag), and the result
    /// carries the runtime's policy. `sum_bits` is the IEEE-754 sum of the
    /// two values, computed by the caller.
    pub fn add(&self, a: MazieNum, b: MazieNum, sum_bits: u64) -> (r: MazieNum)
        ensures
            r == (MazieNum { bits: sum_bits, mode: self.mode }),
    {
        MazieNum { bits: sum_bits, mode: self.mode }
    }

    /// The difference under this runtime; `difference_bits` is the IEEE-754
    /// difference of the two values, computed by the caller.
    pub fn sub(&self, a: MazieNum, b: MazieNum, difference_bits: u64) -> (r: MazieNum)
        ensures
            r == (MazieNum { bits: difference_bits, mode: self.mode }),
    {
        MazieNum { bits: difference_bits, mode: self.mode }
    }

    /// The product under this runtime; `product_bits` is the IEEE-754
    /// product of the two values, computed by the caller.
    pub fn mul(&self, a: MazieNum, b: MazieNum, product_bits: u64) -> (r: MazieNum)
        ensures
            r == (MazieNum { bits: product_bits, mode: self.mode }),
    {
        MazieNum { bits: product_bits, mode: self.mode }
    }

    /// The negation under this runtime: the operand is bound, its sign bit
    /// flips, and the result carries the runtime's policy.
    pub fn neg(&self, a: MazieNum) -> (r: MazieNum)
        ensures
            r == negated(bound_to(*self, a)),
    {
        let bound_a = self.bind(a);
        MazieNum { bits: bound_a.bits ^ NEGATIVE_ZERO_BITS, mode: bound_a.mode }
    }

    /// Division under this runtime's policy.
    ///
    /// Both operands are bound to the runtime first. If the divisor is
    /// exactly zero and the policy is identity-preserving, the result is the
    /// bound dividend: its bits unchanged, its policy the runtime's. If the
    /// divisor is exactly zero and the policy is strict, the division fails,
    /// and the error carries this runtime's name. Otherwise the result is
    /// the IEEE-754 quotient of the two values, which the caller supplies as
    /// `quotient_bits` (read only when the divisor is non-zero), tagged with
    /// the runtime's policy.
    pub fn div(&self, a: MazieNum, b: MazieNum, quotient_bits: u64) -> (r: Result<
        MazieNum,
        DivisionByZero,
    >)
        ensures
            float_is_zero(b.bits) && self.mode.div0_identity ==> r == Ok::<
                MazieNum,
                DivisionByZero,
            >(bound_to(*self, a)),
            float_is_zero(b.bits) && !self.mode.div0_identity ==> r == Err::<
                MazieNum,
                DivisionByZero,
            >((DivisionByZero { runtime_name: self.name })),
            !float_is_zero(b.bits) ==> r == Ok::<MazieNum, DivisionByZero>(
                (MazieNum { bits: quotient_bits, mode: self.mode }),
            ),
    {
        let bound_a = self.bind(a);
        let bound_b = self.bind(b);
        if bound_b.is_zero() {
            if self.mode.div0_identity {
                Ok(bound_a)
            } else {
                Err(DivisionByZero { runtime_name: self.name })
            }
        } else {
            Ok(MazieNum { bits: quotient_bits, mode: self.mode })
        }
    }

    /// [`Self::add`] with a raw right-hand value: `b_bits` is wrapped under
    /// this runtime before delegating.
    pub fn addf(&self, a: MazieNum, b_bits: u64, sum_bits: u64) -> (r: MazieNum)
        ensures
            r == (MazieNum { bits: sum_bits, mode: self.mode }),
    {
        let b = self.n(b_bits);
        self.add(a, b, sum_bits)
    }

    /// [`Self::sub`] with a raw right-hand value.
    pub fn subf(&self, a: MazieNum, b_bits: u64, difference_bits: u64) -> (r: MazieNum)
        ensures
            r == (MazieNum { bits: difference_bits, mode: self.mode }),
    {
        let b = self.n(b_bits);
        self.sub(a, b, difference_bits)
    }

    /// [`Self::mul`] with a raw right-hand value.
    pub fn mulf(&self, a: MazieNum, b_bits: u64, product_bits: u64) -> (r: MazieNum)
        ensures
            r == (MazieNum { bits: product_bits, mode: self.mode }),
    {
        let b = self.n(b_bits);
        self.mul(a, b, product_bits)
    }

    /// [`Self::div`] with a raw right-hand value.
    pub fn divf(&self, a: MazieNum, b_bits: u64, quotient_bits: u64) -> (r: Result<
        MazieNum,
        DivisionByZero,
    >)
        ensures
            float_is_zero(b_bits) && self.mode.div0_identity ==> r == Ok::<
                MazieNum,
                DivisionByZero,
            >(bound_to(*self, a)),
            float_is_zero(b_bits) && !self.mode.div0_identity ==> r == Err::<
                MazieNum,
                DivisionByZero,
            >((DivisionByZero { runtime_name: self.name })),
            !float_is_zero(b_bits) ==> r == Ok::<MazieNum, DivisionByZero>(
                (MazieNum { bits: quotient_bits, mode: self.mode }),
            ),
    {
        let b = self.n(b_bits);
        self.div(a, b, quotient_bits)
    }
}

} // verus!
