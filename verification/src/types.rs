//! The two secret wrappers: `SecretString` and `SecretBytes`.
//!
//! Both are thin newtypes over their storage. They never render their
//! contents, wipe their buffers when dropped, compare in constant time (see
//! `equality`), and offer no serialisation and no `Clone`.
use vstd::prelude::*;
use vstd::utf8::encode_utf8;

use crate::render::{
    bytes_debug_text, decimal_text, decimal_value, lemma_bytes_debug_text_shows_length,
    mask_string, mask_text, push_decimal, string_debug_text,
};
use crate::traits::ExposeSecret;

verus! {

/// `zeroize::Zeroize::zeroize` on a `String`: the crate overwrites the
/// string's whole buffer, spare capacity included, with zero bytes and then
/// clears it. Claimed here: afterwards the string is empty, and the call
/// neither panics nor unwinds. That the old bytes are really overwritten is
/// what the crate is for, and is left unsaid.
#[verifier::external_body]
fn zeroize_string(text: &mut String)
    ensures
        final(text)@ == Seq::<char>::empty(),
    opens_invariants none
    no_unwind
{
    zeroize::Zeroize::zeroize(text);
}

/// `zeroize::Zeroize::zeroize` on a `Vec<u8>`: the crate overwrites the
/// spare capacity and every element with zeros and then clears the vector.
/// Claimed here: afterwards the vector is empty, and the call neither panics
/// nor unwinds. That the old bytes are really overwritten is left unsaid.
#[verifier::external_body]
fn zeroize_bytes(bytes: &mut Vec<u8>)
    ensures
        final(bytes)@ == Seq::<u8>::empty(),
    opens_invariants none
    no_unwind
{
    zeroize::Zeroize::zeroize(bytes);
}

// ── SecretString ────────────────────────────────────────────────────────────

/// A UTF-8 string whose contents are treated as sensitive material.
///
/// Its `Display` text is ten asterisks and its `Debug` text is
/// `SecretString([REDACTED])`; the backing buffer is wiped on drop; equality
/// is decided in constant time. It is deliberately not `Clone`: a copy can be
/// rebuilt through [`ExposeSecret::expose_secret`] where one is truly needed.
pub struct SecretString(String);

impl View for SecretString {
    type V = Seq<char>;

    closed spec fn view(&self) -> Seq<char> {
        self.0@
    }
}

impl SecretString {
    /// Wraps an owned `String`, taking ownership of its buffer.
    pub fn new(value: String) -> (secret: Self)
        ensures
            secret@ == value@,
    {
        SecretString(value)
    }

    /// The length of the secret in bytes of UTF-8, without exposing it.
    pub fn len(&self) -> (n: usize)
        ensures
            n == encode_utf8(self@).len(),
    {
        self.0.as_str().as_bytes().len()
    }

    /// Whether the secret is the empty string.
    pub fn is_empty(&self) -> (empty: bool)
        ensures
            empty == (self@.len() == 0),
            empty == (encode_utf8(self@).len() == 0),
    {
        proof {
            lemma_utf8_empty_iff(self@);
        }
        self.0.as_str().is_empty()
    }

    /// Overwrites the stored text with zeros and leaves the secret empty.
    pub fn zeroize(&mut self)
        ensures
            final(self)@ == Seq::<char>::empty(),
    {
        zeroize_string(&mut self.0);
    }

    /// The text of the `Display` form: a fixed marker, never the value.
    pub fn to_display_string(&self) -> (text: String)
        ensures
            text@ == mask_text(),
            text@.len() == 10,
            forall|i: int| 0 <= i < 10 ==> #[trigger] text@[i] == '*',
    {
        mask_string()
    }

    /// The text of the `Debug` form. Unlike `SecretBytes`, it does not even
    /// reveal the length.
    pub fn to_debug_string(&self) -> (text: String)
        ensures
            text@ == string_debug_text(),
            text@ == "SecretString([REDACTED])"@,
    {
        String::from_str("SecretString([REDACTED])")
    }
}

impl ExposeSecret for SecretString {
    type Value = str;

    open spec fn secret_view(&self) -> Seq<char> {
        self@
    }

    fn expose_secret(&self) -> (exposed: &str)
        ensures
            exposed@ == self@,
    {
        self.0.as_str()
    }
}

impl Drop for SecretString {
    /// Wipes the backing buffer before it is released.
    fn drop(&mut self)
        ensures
            final(self)@ == Seq::<char>::empty(),
        opens_invariants none
        no_unwind
    {
        zeroize_string(&mut self.0);
    }
}

impl From<String> for SecretString {
    fn from(value: String) -> (secret: Self)
        ensures
            secret@ == value@,
    {
        SecretString(value)
    }
}

impl vstd::std_specs::convert::FromSpecImpl<String> for SecretString {
    open spec fn obeys_from_spec() -> bool {
        true
    }

    closed spec fn from_spec(v: String) -> Self {
        SecretString(v)
    }
}

impl<'a> From<&'a str> for SecretString {
    fn from(value: &'a str) -> (secret: Self)
        ensures
            secret@ == value@,
    {
        broadcast use vstd::string::to_string_from_display_ensures_for_str;

        Self::new(value.to_string())
    }
}

/// A secret built from a borrowed `str` owns a fresh copy of the text, so no
/// single value of the type is fixed by the argument; what `from` returns is
/// stated by its own `ensures` (the view of the result is the text).
impl<'a> vstd::std_specs::convert::FromSpecImpl<&'a str> for SecretString {
    open spec fn obeys_from_spec() -> bool {
        false
    }

    closed spec fn from_spec(v: &'a str) -> Self {
        arbitrary()
    }
}

// ── SecretBytes ─────────────────────────────────────────────────────────────

/// An opaque sequence of bytes whose contents are treated as sensitive
/// material: key material, MAC inputs, decoded blobs.
///
/// Its `Display` text is ten asterisks; its `Debug` text is
/// `SecretBytes([REDACTED], len=N)`, with the byte length, which is useful
/// when debugging and rarely sensitive for binary material. The buffer is
/// wiped on drop, equality is decided in constant time, and the type is
/// deliberately not `Clone`.
pub struct SecretBytes(Vec<u8>);

impl View for SecretBytes {
    type V = Seq<u8>;

    closed spec fn view(&self) -> Seq<u8> {
        self.0@
    }
}

impl SecretBytes {
    /// Wraps an owned `Vec<u8>`, taking ownership of its buffer.
    pub fn new(value: Vec<u8>) -> (secret: Self)
        ensures
            secret@ == value@,
    {
        SecretBytes(value)
    }

    /// The length of the secret in bytes, without exposing it.
    pub fn len(&self) -> (n: usize)
        ensures
            n == self@.len(),
    {
        self.0.len()
    }

    /// Whether the secret has zero length.
    pub fn is_empty(&self) -> (empty: bool)
        ensures
            empty == (self@.len() == 0),
    {
        self.0.is_empty()
    }

    /// Overwrites the stored bytes with zeros and leaves the secret empty.
    pub fn zeroize(&mut self)
        ensures
            final(self)@ == Seq::<u8>::empty(),
    {
        zeroize_bytes(&mut self.0);
    }

    /// The text of the `Display` form: a fixed marker, never the value.
    pub fn to_display_string(&self) -> (text: String)
        ensures
            text@ == mask_text(),
            text@.len() == 10,
            forall|i: int| 0 <= i < 10 ==> #[trigger] text@[i] == '*',
    {
        mask_string()
    }

    /// The text of the `Debug` form, which reveals the length and nothing
    /// else.
    pub fn to_debug_string(&self) -> (text: String)
        ensures
            text@ == bytes_debug_text(self@.len()),
            text@ == "SecretBytes([REDACTED], len="@ + decimal_text(self@.len()) + ")"@,
            decimal_value(text@.subrange(28, text@.len() - 1)) == self@.len(),
    {
        proof {
            lemma_bytes_debug_text_shows_length(self@.len());
        }
        let mut text = String::from_str("SecretBytes([REDACTED], len=");
        push_decimal(&mut text, self.0.len());
        text.append(")");
        text
    }
}

impl ExposeSecret for SecretBytes {
    type Value = [u8];

    open spec fn secret_view(&self) -> Seq<u8> {
        self@
    }

    fn expose_secret(&self) -> (exposed: &[u8])
        ensures
            exposed@ == self@,
    {
        self.0.as_slice()
    }
}

impl Drop for SecretBytes {
    /// Wipes the backing buffer before it is released.
    fn drop(&mut self)
        ensures
            final(self)@ == Seq::<u8>::empty(),
        opens_invariants none
        no_unwind
    {
        zeroize_bytes(&mut self.0);
    }
}

impl From<Vec<u8>> for SecretBytes {
    fn from(value: Vec<u8>) -> (secret: Self)
        ensures
            secret@ == value@,
    {
        SecretBytes(value)
    }
}

impl vstd::std_specs::convert::FromSpecImpl<Vec<u8>> for SecretBytes {
    open spec fn obeys_from_spec() -> bool {
        true
    }

    closed spec fn from_spec(v: Vec<u8>) -> Self {
        SecretBytes(v)
    }
}

impl<'a> From<&'a [u8]> for SecretBytes {
    fn from(value: &'a [u8]) -> (secret: Self)
        ensures
            secret@ == value@,
    {
        Self::new(vstd::slice::slice_to_vec(value))
    }
}

/// A secret built from a borrowed slice owns a fresh copy of the bytes, so
/// no single value of the type is fixed by the argument; what `from` returns
/// is stated by its own `ensures` (the view of the result is the bytes).
impl<'a> vstd::std_specs::convert::FromSpecImpl<&'a [u8]> for SecretBytes {
    open spec fn obeys_from_spec() -> bool {
        false
    }

    closed spec fn from_spec(v: &'a [u8]) -> Self {
        arbitrary()
    }
}

// ── What the exposed value is ───────────────────────────────────────────────

/// The text that `expose_secret` hands out is the stored text itself: all
/// of it, unchanged. With `new`, exposing `SecretString::new(v)` gives `v`.
pub proof fn law_string_exposes_stored_text(secret: &SecretString)
    ensures
        secret.secret_view() == secret@,
        secret.secret_view().len() == secret@.len(),
{
}

/// The slice that `expose_secret` hands out is the stored bytes themselves:
/// same length, same bytes, same order. With `new`, exposing
/// `SecretBytes::new(v)` gives `v`.
pub proof fn law_bytes_exposes_stored_bytes(secret: &SecretBytes)
    ensures
        secret.secret_view() == secret@,
        secret.secret_view().len() == secret@.len(),
        forall|i: int| 0 <= i < secret@.len() ==> #[trigger] secret.secret_view()[i] == secret@[i],
{
}

// ── Facts about UTF-8 that the string secret relies on ──────────────────────

/// Two texts have the same UTF-8 bytes exactly when they are the same text.
pub proof fn lemma_utf8_encoding_injective(a: Seq<char>, b: Seq<char>)
    ensures
        (encode_utf8(a) == encode_utf8(b)) == (a == b),
{
    vstd::utf8::encode_utf8_decode_utf8(a);
    vstd::utf8::encode_utf8_decode_utf8(b);
}

/// A text has no UTF-8 bytes exactly when it has no characters.
pub proof fn lemma_utf8_empty_iff(s: Seq<char>)
    ensures
        (encode_utf8(s).len() == 0) == (s.len() == 0),
{
    if s.len() > 0 {
        assert(encode_utf8(s) == vstd::utf8::encode_scalar(s[0] as u32) + encode_utf8(s.drop_first()));
    }
}

} // verus!
