//! A tiny numeric library with a configurable division-by-zero policy.
//!
//! A scalar is an IEEE-754 binary64 value, carried here as its bit pattern
//! (`u64`), paired with a [`mode::MazieMode`] policy flag. Under the default,
//! identity-preserving policy, dividing by zero returns the dividend
//! unchanged, bit for bit; under the strict policy, dividing by zero is an
//! error ([`error::DivisionByZero`]). All other operations follow ordinary
//! floating-point semantics.
//!
//! Two equivalent surfaces are offered:
//! - [`num::MazieNum`]: a value-tagged scalar whose operations read the
//!   policy from the left operand;
//! - [`runtime::MazieRuntime`]: a named context that binds its own policy to
//!   every operand before operating, so the context is the authority.
//!
//! The value-tagged operations are the special case of an implicit context
//! carrying the left operand's policy, and delegate to it.
//!
//! Floating-point arithmetic itself is not performed here: negation and the
//! exact-zero test are bit-level operations carried out and verified in this
//! crate, while the sum, difference, product and quotient of two values are
//! taken as arguments (as bit patterns), computed by the caller with the
//! platform's floating-point unit. The policy logic — when the quotient is
//! used, when the dividend is returned unchanged, when the operation fails,
//! and which policy every result carries — is what this crate states and
//! proves.

pub mod error;
pub mod mode;
pub mod num;
pub mod runtime;
