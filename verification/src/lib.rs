//! Secret wrappers whose contents never reach logs by accident.
//!
//! [`SecretString`] and [`SecretBytes`] hold sensitive material. Their
//! rendered forms are fixed redaction markers, their buffers are wiped when
//! they are dropped, and equality between two secrets is decided by a
//! comparison whose running time depends on the lengths of the inputs only.
//! The raw value is reachable through [`ExposeSecret::expose_secret`] and
//! nothing else.
pub mod compare;
pub mod equality;
pub mod error;
pub mod render;
pub mod traits;
pub mod types;

pub use compare::constant_time_eq;
pub use error::SecretError;
pub use traits::ExposeSecret;
pub use types::SecretBytes;
pub use types::SecretString;
