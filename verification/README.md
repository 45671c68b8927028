# hosanna-rs-secret

Safe in-memory secret types: `SecretString` and `SecretBytes`, verified with
Verus.

- `src/types.rs`: the two wrappers, their constructors, lengths, `zeroize`,
  the redacted `Display`/`Debug` texts, the `ExposeSecret` impls and the
  `Drop` impls that wipe the buffer (through the `zeroize` crate).
- `src/compare.rs`: `constant_time_eq`, proved to return exactly whether the
  two slices are equal.
- `src/equality.rs`: `PartialEq`/`Eq` for both wrappers, decided by
  `constant_time_eq` on the raw bytes; for strings, equality of the UTF-8
  bytes is proved to coincide with equality of the text.
- `src/render.rs`: the redaction texts and the decimal rendering of a length,
  with the proof that the `Debug` text of `SecretBytes` reveals the length
  and nothing else.
- `src/traits.rs`, `src/error.rs`: `ExposeSecret` and `SecretError`.
- `app/`: copies of the public types that carry `Display`, `Debug`,
  `serde::Deserialize` and `thiserror::Error`, converting to and from the
  verified types.
