//! The errors that operations on secrets can report.
use vstd::prelude::*;

verus! {

/// Errors that can arise when manipulating a secret value.
///
/// New variants may be added as new fallible operations appear; callers
/// that want to stay compatible should match with a catch-all arm.
#[derive(Debug)]
pub enum SecretError {
    /// A secret was about to be revealed in a context where exposure is
    /// forbidden (for example, inside a serializer).
    ExposureDenied,
    /// Parsing a secret from its textual form failed. `reason` explains why
    /// and must never hold the secret itself.
    ParseError {
        /// Human-readable explanation of the failure; safe to log.
        reason: String,
    },
}

} // verus!
