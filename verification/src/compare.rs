//! Byte-slice equality that does not exit early.
use vstd::prelude::*;

verus! {

/// Compares two byte slices for equality without short-circuiting on the
/// first differing byte.
///
/// Lengths are compared first (the length of a secret is not sensitive).
/// For equal lengths every position is visited, and the XOR of each pair of
/// bytes is folded into a single accumulator with `|`; the slices are equal
/// exactly when the accumulator ends at zero.
pub fn constant_time_eq(a: &[u8], b: &[u8]) -> (equal: bool)
    ensures
        equal == (a@ == b@),
{
    if a.len() != b.len() {
        return false;
    }
    let len = a.len();
    let mut acc: u8 = 0;
    let mut i: usize = 0;
    while i < len
        invariant
            len == a@.len(),
            len == b@.len(),
            i <= len,
            (acc == 0) == (forall|k: int| 0 <= k < i ==> a@[k] == b@[k]),
        decreases len - i,
    {
        let x = a[i];
        let y = b[i];
        assert(((acc | (x ^ y)) == 0) == (acc == 0 && x == y)) by (bit_vector);
        acc = acc | (x ^ y);
        i = i + 1;
        assert((acc == 0) == (forall|k: int| 0 <= k < i ==> a@[k] == b@[k])) by {
            if acc == 0 {
                assert forall|k: int| 0 <= k < i implies a@[k] == b@[k] by {
                    if k < i - 1 {
                    }
                }
            }
        }
    }
    if acc == 0 {
        assert(a@ =~= b@);
    }
    acc == 0
}

} // verus!
