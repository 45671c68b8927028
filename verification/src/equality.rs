//! Constant-time equality for the secret wrappers.
//!
//! A naive `==` on the contents would leave the loop at the first differing
//! byte, so its running time would leak the length of the common prefix.
//! Both types instead compare their raw bytes with `constant_time_eq`.
use vstd::prelude::*;

use crate::compare::constant_time_eq;
use crate::traits::ExposeSecret;
use vstd::std_specs::cmp::PartialEqSpec;
use vstd::utf8::encode_utf8;

use crate::types::{lemma_utf8_encoding_injective, SecretBytes, SecretString};

verus! {

impl PartialEq for SecretString {
    /// Equal exactly when the two texts are equal; decided on their UTF-8
    /// bytes in constant time.
    fn eq(&self, other: &Self) -> (equal: bool)
        ensures
            equal == (self@ == other@),
    {
        let equal = constant_time_eq(
            self.expose_secret().as_bytes(),
            other.expose_secret().as_bytes(),
        );
        proof {
            lemma_utf8_encoding_injective(self@, other@);
        }
        equal
    }
}

impl vstd::std_specs::cmp::PartialEqSpecImpl for SecretString {
    open spec fn obeys_eq_spec() -> bool {
        true
    }

    open spec fn eq_spec(&self, other: &Self) -> bool {
        self@ == other@
    }
}

impl Eq for SecretString {
}

impl PartialEq for SecretBytes {
    /// Equal exactly when the two byte sequences are equal; decided in
    /// constant time.
    fn eq(&self, other: &Self) -> (equal: bool)
        ensures
            equal == (self@ == other@),
            equal == (self@.len() == other@.len() && forall|i: int|
                0 <= i < self@.len() ==> #[trigger] self@[i] == other@[i]),
    {
        let equal = constant_time_eq(self.expose_secret(), other.expose_secret());
        proof {
            if self@.len() == other@.len() && forall|i: int|
                0 <= i < self@.len() ==> #[trigger] self@[i] == other@[i] {
                assert(self@ =~= other@);
            }
        }
        equal
    }
}

impl vstd::std_specs::cmp::PartialEqSpecImpl for SecretBytes {
    open spec fn obeys_eq_spec() -> bool {
        true
    }

    open spec fn eq_spec(&self, other: &Self) -> bool {
        self@ == other@
    }
}

impl Eq for SecretBytes {
}

/// Two string secrets whose UTF-8 lengths differ are never equal, and two
/// equal ones have the same length: the up-front length check of the
/// comparison never turns away a pair that matches.
pub proof fn lemma_string_length_mismatch_unequal(a: &SecretString, b: &SecretString)
    ensures
        encode_utf8(a@).len() != encode_utf8(b@).len() ==> !a.eq_spec(b),
        a.eq_spec(b) ==> encode_utf8(a@).len() == encode_utf8(b@).len(),
{
}

/// Two byte secrets of different lengths are never equal, and two equal ones
/// have the same length.
pub proof fn lemma_bytes_length_mismatch_unequal(a: &SecretBytes, b: &SecretBytes)
    ensures
        a@.len() != b@.len() ==> !a.eq_spec(b),
        a.eq_spec(b) ==> a@.len() == b@.len(),
{
}

/// `==` on string secrets is equality of the stored texts: two secrets
/// compare equal exactly when they hold the same sequence of characters.
pub proof fn law_string_equality_is_text_equality(a: &SecretString, b: &SecretString)
    ensures
        a.eq_spec(b) == (a@ == b@),
        a.eq_spec(b) == (a@.len() == b@.len() && forall|i: int|
            0 <= i < a@.len() ==> #[trigger] a@[i] == b@[i]),
{
    if a@.len() == b@.len() && forall|i: int| 0 <= i < a@.len() ==> #[trigger] a@[i] == b@[i] {
        assert(a@ =~= b@);
    }
}

/// `==` on byte secrets is equality of the stored bytes: same length, and
/// the same byte at every index, the first one included.
pub proof fn law_bytes_equality_is_byte_equality(a: &SecretBytes, b: &SecretBytes)
    ensures
        a.eq_spec(b) == (a@ == b@),
        a.eq_spec(b) == (a@.len() == b@.len() && forall|i: int|
            0 <= i < a@.len() ==> #[trigger] a@[i] == b@[i]),
{
    if a@.len() == b@.len() && forall|i: int| 0 <= i < a@.len() ==> #[trigger] a@[i] == b@[i] {
        assert(a@ =~= b@);
    }
}

} // verus!
