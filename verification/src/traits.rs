//! The one deliberate gate from a secret wrapper to its raw value.
use vstd::prelude::*;

verus! {

/// Explicit, deliberate access to the raw value behind a secret wrapper.
///
/// This is the only sanctioned path from a wrapper to its contents. An
/// implementation hands out a borrow of exactly the stored value, with no
/// transformation or copy: `secret_view` names that value, and the contract
/// of `expose_secret` ties the borrow to it.
pub trait ExposeSecret {
    /// The type of the exposed value; unsized views such as `str` and
    /// `[u8]` are the common case.
    type Value: ?Sized + View;

    /// The stored value, as the mathematical object that the borrow returned
    /// by `expose_secret` views as.
    spec fn secret_view(&self) -> <Self::Value as View>::V;

    /// Returns a borrow of the raw secret value.
    fn expose_secret(&self) -> (exposed: &Self::Value)
        ensures
            exposed@ == self.secret_view(),
    ;
}

} // verus!
