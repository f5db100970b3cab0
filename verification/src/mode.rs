use vstd::prelude::*;

verus! {

/// The division-by-zero policy attached to scalars and runtimes.
///
/// With `div0_identity == true`, dividing by zero returns the dividend
/// unchanged; with `div0_identity == false`, dividing by zero is an error.
/// A mode is immutable once constructed and is copied by value wherever it
/// is attached.
#[derive(Clone, Copy, Debug, PartialEq, Eq, Structural)]
pub struct MazieMode {
    /// Whether a division by zero returns the dividend (`true`) or fails
    /// (`false`).
    pub div0_identity: bool,
}

impl Default for MazieMode {
    /// The default policy is identity-preserving.
    fn default() -> (m: Self)
        ensures
            m.div0_identity,
    {
        MazieMode { div0_identity: true }
    }
}

} // verus!
