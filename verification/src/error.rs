use vstd::prelude::*;
use vstd::string::StringExecFns;

verus! {

/// The one failure this library reports: a division whose divisor is exactly
/// zero while the governing policy is strict (`div0_identity == false`).
///
/// Modeled as a recoverable value rather than a panic, so callers can handle
/// the strict case at a boundary of their choosing.
#[derive(Clone, Copy, Debug, PartialEq)]
pub struct DivisionByZero {
    /// Name of the runtime (or implicit policy holder) whose strict policy
    /// rejected the division.
    pub runtime_name: &'static str,
}

impl DivisionByZero {
    /// The diagnostic text: it names the runtime and states explicitly that
    /// the policy causing the failure is the strict, non-identity one.
    pub fn message(&self) -> (r: String)
        ensures
            r@ == "division by zero ("@ + self.runtime_name@ + "; div0_identity=false)"@,
    {
        let mut s: String = "division by zero (".to_owned();
        s.append(self.runtime_name);
        s.append("; div0_identity=false)");
        s
    }
}

} // verus!
