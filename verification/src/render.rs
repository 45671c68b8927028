//! The texts that stand in for a secret wherever it would be printed.
use vstd::prelude::*;

verus! {

/// The redaction marker that both secret types display: ten asterisks.
pub open spec fn mask_text() -> Seq<char> {
    Seq::new(10, |i: int| '*')
}

/// The character of a decimal digit `d` (for `d < 10`).
pub open spec fn digit_char(d: nat) -> char
    recommends
        d < 10,
{
    (d + 48) as char
}

/// The decimal notation of `n`, most significant digit first, with no
/// leading zeros.
pub open spec fn decimal_text(n: nat) -> Seq<char>
    decreases n,
{
    if n < 10 {
        seq![digit_char(n)]
    } else {
        decimal_text(n / 10).push(digit_char(n % 10))
    }
}

/// The text that `SecretString`'s `Debug` form shows.
pub open spec fn string_debug_text() -> Seq<char> {
    "SecretString([REDACTED])"@
}

/// The text that `SecretBytes`'s `Debug` form shows for a secret of `len`
/// bytes: the only thing it reveals is that length.
pub open spec fn bytes_debug_text(len: nat) -> Seq<char> {
    "SecretBytes([REDACTED], len="@ + decimal_text(len) + ")"@
}

/// Builds the redaction marker shown by `Display`.
pub(crate) fn mask_string() -> (text: String)
    ensures
        text@ == mask_text(),
{
    let text = String::from_str("**********");
    proof {
        reveal_strlit("**********");
        assert(text@ =~= mask_text());
    }
    text
}

/// The one-character text of the decimal digit `d`.
fn digit_str(d: usize) -> (digit: &'static str)
    requires
        d < 10,
    ensures
        digit@ == seq![digit_char(d as nat)],
{
    match d {
        0 => {
            proof {
                reveal_strlit("0");
            }
            "0"
        },
        1 => {
            proof {
                reveal_strlit("1");
            }
            "1"
        },
        2 => {
            proof {
                reveal_strlit("2");
            }
            "2"
        },
        3 => {
            proof {
                reveal_strlit("3");
            }
            "3"
        },
        4 => {
            proof {
                reveal_strlit("4");
            }
            "4"
        },
        5 => {
            proof {
                reveal_strlit("5");
            }
            "5"
        },
        6 => {
            proof {
                reveal_strlit("6");
            }
            "6"
        },
        7 => {
            proof {
                reveal_strlit("7");
            }
            "7"
        },
        8 => {
            proof {
                reveal_strlit("8");
            }
            "8"
        },
        _ => {
            proof {
                reveal_strlit("9");
            }
            "9"
        },
    }
}

/// Appends the decimal notation of `n` to `out`.
pub(crate) fn push_decimal(out: &mut String, n: usize)
    ensures
        final(out)@ == old(out)@ + decimal_text(n as nat),
    decreases n,
{
    if n >= 10 {
        push_decimal(out, n / 10);
    }
    out.append(digit_str(n % 10));
    assert(out@ =~= old(out)@ + decimal_text(n as nat));
}

/// Distinct numbers have distinct decimal notations.
pub proof fn lemma_decimal_text_injective(m: nat, n: nat)
    ensures
        (decimal_text(m) == decimal_text(n)) == (m == n),
    decreases m + n,
{
    lemma_decimal_text_shape(m);
    lemma_decimal_text_shape(n);
    if decimal_text(m) == decimal_text(n) {
        if m >= 10 && n >= 10 {
            let dm = decimal_text(m);
            let dn = decimal_text(n);
            assert(dm.last() == dn.last());
            assert(dm.drop_last() =~= decimal_text(m / 10));
            assert(dn.drop_last() =~= decimal_text(n / 10));
            assert(digit_char(m % 10) == digit_char(n % 10));
            assert(m % 10 == n % 10);
            lemma_decimal_text_injective(m / 10, n / 10);
            assert(m / 10 == n / 10);
        } else if m < 10 && n < 10 {
            assert(digit_char(m) == decimal_text(n)[0]);
        }
    }
}

/// The notation of a one-digit number has one character; that of a larger
/// number has at least two, the last being its final digit.
proof fn lemma_decimal_text_shape(n: nat)
    ensures
        n < 10 ==> decimal_text(n) == seq![digit_char(n)],
        n >= 10 ==> decimal_text(n).len() >= 2,
        n >= 10 ==> decimal_text(n).last() == digit_char(n % 10),
        n >= 10 ==> decimal_text(n).drop_last() == decimal_text(n / 10),
    decreases n,
{
    if n >= 10 {
        lemma_decimal_text_shape(n / 10);
        assert(decimal_text(n).drop_last() =~= decimal_text(n / 10));
    }
}

/// The `Debug` text of `SecretBytes` determines the length and nothing
/// more: two texts are equal exactly when the lengths are.
pub proof fn lemma_bytes_debug_text_reveals_only_length(m: nat, n: nat)
    ensures
        (bytes_debug_text(m) == bytes_debug_text(n)) == (m == n),
{
    let prefix = "SecretBytes([REDACTED], len="@;
    let suffix = ")"@;
    if bytes_debug_text(m) == bytes_debug_text(n) {
        let tm = bytes_debug_text(m);
        let tn = bytes_debug_text(n);
        assert(tm.len() == tn.len());
        let lm = decimal_text(m).len();
        assert(decimal_text(m) =~= tm.subrange(prefix.len() as int, (prefix.len() + lm) as int));
        assert(decimal_text(n) =~= tn.subrange(prefix.len() as int, (prefix.len() + lm) as int));
        lemma_decimal_text_injective(m, n);
    }
}

/// Whether `c` is an ASCII decimal digit, `'0'` (code 48) to `'9'` (code 57).
pub open spec fn is_ascii_digit(c: char) -> bool {
    48 <= (c as u32) <= 57
}

/// The number that a string of ASCII decimal digits denotes, read in base
/// ten with the most significant digit first: the digit with code `48 + d`
/// stands for `d`.
pub open spec fn decimal_value(digits: Seq<char>) -> int
    decreases digits.len(),
{
    if digits.len() == 0 {
        0
    } else {
        decimal_value(digits.drop_last()) * 10 + ((digits.last() as u32) - 48)
    }
}

/// The decimal notation of `n` is standard: it is made of ASCII digits only,
/// has no leading zero (unless `n` is zero), and read back in base ten it
/// gives `n`.
pub proof fn lemma_decimal_text_reads_back(n: nat)
    ensures
        decimal_text(n).len() >= 1,
        forall|i: int| 0 <= i < decimal_text(n).len() ==> is_ascii_digit(#[trigger] decimal_text(n)[i]),
        decimal_value(decimal_text(n)) == n,
        n > 0 ==> decimal_text(n)[0] != '0',
    decreases n,
{
    lemma_decimal_text_shape(n);
    if n < 10 {
        assert(decimal_text(n).drop_last() =~= Seq::<char>::empty());
        assert((digit_char(n) as u32) == n + 48);
        assert(decimal_value(Seq::<char>::empty()) == 0);
        assert(decimal_value(decimal_text(n)) == decimal_value(Seq::<char>::empty()) * 10 + n);
    } else {
        lemma_decimal_text_reads_back(n / 10);
        let t = decimal_text(n);
        assert((digit_char(n % 10) as u32) == n % 10 + 48);
        assert(decimal_value(t) == decimal_value(decimal_text(n / 10)) * 10 + (n % 10));
        assert((n / 10) * 10 + n % 10 == n);
        assert forall|i: int| 0 <= i < t.len() implies is_ascii_digit(#[trigger] t[i]) by {
            if i < t.len() - 1 {
                assert(t[i] == t.drop_last()[i]);
            }
        }
        assert(t[0] == decimal_text(n / 10)[0]);
    }
}

/// The `Debug` text of `SecretBytes` shows the byte length in standard
/// decimal: after the fixed prefix and before the closing parenthesis stand
/// only ASCII digits, and read in base ten they give the length.
pub proof fn lemma_bytes_debug_text_shows_length(len: nat)
    ensures
        bytes_debug_text(len).len() >= 30,
        bytes_debug_text(len).subrange(0, 28) == "SecretBytes([REDACTED], len="@,
        bytes_debug_text(len).last() == ')',
        forall|i: int| 28 <= i < bytes_debug_text(len).len() - 1
            ==> is_ascii_digit(#[trigger] bytes_debug_text(len)[i]),
        decimal_value(bytes_debug_text(len).subrange(28, bytes_debug_text(len).len() - 1)) == len,
{
    reveal_strlit("SecretBytes([REDACTED], len=");
    reveal_strlit(")");
    lemma_decimal_text_reads_back(len);
    let t = bytes_debug_text(len);
    let d = decimal_text(len);
    assert(t.subrange(0, 28) =~= "SecretBytes([REDACTED], len="@);
    assert(t.subrange(28, t.len() - 1) =~= d);
    assert forall|i: int| 28 <= i < t.len() - 1 implies is_ascii_digit(#[trigger] t[i]) by {
        assert(t[i] == d[i - 28]);
    }
}

} // verus!
