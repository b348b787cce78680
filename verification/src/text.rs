//! Decimal rendering of integers and the few string steps that status and
//! version descriptions are built from.

use vstd::prelude::*;
use vstd::string::StringExecFns;

verus! {

/// The character that stands for a digit below ten.
pub open spec fn digit_char(d: nat) -> char {
    if d == 0 {
        '0'
    } else if d == 1 {
        '1'
    } else if d == 2 {
        '2'
    } else if d == 3 {
        '3'
    } else if d == 4 {
        '4'
    } else if d == 5 {
        '5'
    } else if d == 6 {
        '6'
    } else if d == 7 {
        '7'
    } else if d == 8 {
        '8'
    } else {
        '9'
    }
}

/// The decimal numeral of `n`, most significant digit first, without
/// leading zeros (`0` is written as one digit).
pub open spec fn decimal(n: nat) -> Seq<char>
    decreases n,
{
    if n < 10 {
        seq![digit_char(n)]
    } else {
        decimal(n / 10).push(digit_char(n % 10))
    }
}

/// The one-character text of a digit below ten.
fn digit_text(d: u64) -> (s: &'static str)
    requires
        d < 10,
    ensures
        s@ == seq![digit_char(d as nat)],
{
    proof {
        reveal_strlit("0");
        reveal_strlit("1");
        reveal_strlit("2");
        reveal_strlit("3");
        reveal_strlit("4");
        reveal_strlit("5");
        reveal_strlit("6");
        reveal_strlit("7");
        reveal_strlit("8");
        reveal_strlit("9");
    }
    let s = if d == 0 {
        "0"
    } else if d == 1 {
        "1"
    } else if d == 2 {
        "2"
    } else if d == 3 {
        "3"
    } else if d == 4 {
        "4"
    } else if d == 5 {
        "5"
    } else if d == 6 {
        "6"
    } else if d == 7 {
        "7"
    } else if d == 8 {
        "8"
    } else {
        "9"
    };
    assert(s@ =~= seq![digit_char(d as nat)]);
    s
}

/// Appends the decimal numeral of `n` to `out`.
pub fn push_decimal(out: &mut String, n: u64)
    ensures
        final(out)@ == old(out)@ + decimal(n as nat),
    decreases n,
{
    if n >= 10 {
        push_decimal(out, n / 10);
    }
    let ghost before = out@;
    out.append(digit_text(n % 10));
    assert(out@ =~= before.push(digit_char((n % 10) as nat)));
}

/// The character that stands for a hexadecimal digit, in lower case.
pub open spec fn hex_digit_char(d: nat) -> char {
    if d < 10 {
        digit_char(d)
    } else if d == 10 {
        'a'
    } else if d == 11 {
        'b'
    } else if d == 12 {
        'c'
    } else if d == 13 {
        'd'
    } else if d == 14 {
        'e'
    } else {
        'f'
    }
}

/// The hexadecimal numeral of `n` in lower case, most significant digit
/// first, without leading zeros (`0` is written as one digit).
pub open spec fn hexadecimal(n: nat) -> Seq<char>
    decreases n,
{
    if n < 16 {
        seq![hex_digit_char(n)]
    } else {
        hexadecimal(n / 16).push(hex_digit_char(n % 16))
    }
}

/// The one-character text of a hexadecimal digit, in lower case.
fn hex_digit_text(d: u64) -> (s: &'static str)
    requires
        d < 16,
    ensures
        s@ == seq![hex_digit_char(d as nat)],
{
    proof {
        reveal_strlit("a");
        reveal_strlit("b");
        reveal_strlit("c");
        reveal_strlit("d");
        reveal_strlit("e");
        reveal_strlit("f");
    }
    if d < 10 {
        digit_text(d)
    } else {
        let s = if d == 10 {
            "a"
        } else if d == 11 {
            "b"
        } else if d == 12 {
            "c"
        } else if d == 13 {
            "d"
        } else if d == 14 {
            "e"
        } else {
            "f"
        };
        assert(s@ =~= seq![hex_digit_char(d as nat)]);
        s
    }
}

/// Appends the hexadecimal numeral of `n` to `out`.
pub fn push_hexadecimal(out: &mut String, n: u64)
    ensures
        final(out)@ == old(out)@ + hexadecimal(n as nat),
    decreases n,
{
    if n >= 16 {
        push_hexadecimal(out, n / 16);
    }
    let ghost before = out@;
    out.append(hex_digit_text(n % 16));
    assert(out@ =~= before.push(hex_digit_char((n % 16) as nat)));
}

/// Appends a string slice to `out`.
pub fn push_text(out: &mut String, s: &str)
    ensures
        final(out)@ == old(out)@ + s@,
{
    out.append(s);
}

/// The length of the C string at the start of `buffer`: the number of
/// bytes before the first zero byte, or all of them where none is zero.
pub open spec fn c_string_len(buffer: Seq<i8>) -> nat
    decreases buffer.len(),
{
    if buffer.len() == 0 || buffer[0] == 0 {
        0
    } else {
        1 + c_string_len(buffer.drop_first())
    }
}

/// The bytes of the C string at the start of `buffer`, each taken as an
/// unsigned byte.
pub open spec fn c_string_bytes(buffer: Seq<i8>) -> Seq<u8> {
    Seq::new(c_string_len(buffer), |i: int| buffer[i] as u8)
}

/// The C string ends at `n` when no byte before `n` is zero and `n` is the
/// end of the buffer or holds a zero byte.
pub open spec fn ends_at(buffer: Seq<i8>, n: int) -> bool {
    &&& 0 <= n <= buffer.len()
    &&& forall|i: int| 0 <= i < n ==> buffer[i] != 0
    &&& n < buffer.len() ==> buffer[n] == 0
}

/// The C string has the one length at which it ends.
pub proof fn lemma_c_string_len(buffer: Seq<i8>, n: int)
    requires
        ends_at(buffer, n),
    ensures
        c_string_len(buffer) == n,
    decreases buffer.len(),
{
    if n > 0 {
        let rest = buffer.drop_first();
        assert(buffer[0] != 0);
        assert forall|i: int| 0 <= i < n - 1 implies rest[i] != 0 by {
            assert(rest[i] == buffer[i + 1]);
        }
        if n - 1 < rest.len() {
            assert(rest[n - 1] == buffer[n]);
        }
        lemma_c_string_len(rest, n - 1);
    }
}

/// The length of the C string lies within the buffer, and the string ends
/// there.
pub proof fn lemma_c_string_ends(buffer: Seq<i8>)
    ensures
        ends_at(buffer, c_string_len(buffer) as int),
    decreases buffer.len(),
{
    if buffer.len() == 0 || buffer[0] == 0 {
    } else {
        let rest = buffer.drop_first();
        lemma_c_string_ends(rest);
        let n = c_string_len(buffer) as int;
        assert forall|i: int| 0 <= i < n implies buffer[i] != 0 by {
            if i > 0 {
                assert(rest[i - 1] == buffer[i]);
            }
        }
        if n < buffer.len() {
            assert(rest[n - 1] == buffer[n]);
        }
    }
}

/// The bytes of the C string at the start of `buffer`. The scan stops at
/// the end of the buffer where no zero byte ends the string.
pub fn c_string(buffer: &[i8]) -> (bytes: Vec<u8>)
    ensures
        bytes@ == c_string_bytes(buffer@),
{
    let mut bytes: Vec<u8> = Vec::new();
    let mut i: usize = 0;
    while i < buffer.len() && buffer[i] != 0
        invariant
            i <= buffer.len(),
            forall|j: int| 0 <= j < i ==> buffer@[j] != 0,
            bytes@ == Seq::new(i as nat, |j: int| buffer@[j] as u8),
        decreases buffer.len() - i,
    {
        let b: i8 = buffer[i];
        bytes.push(#[verifier::truncate] (b as u8));
        i += 1;
        assert(bytes@ =~= Seq::new(i as nat, |j: int| buffer@[j] as u8));
    }
    proof {
        lemma_c_string_len(buffer@, i as int);
    }
    bytes
}

/// The text that `String::from_utf8_lossy` reads from bytes.
pub uninterp spec fn utf8_lossy(bytes: Seq<u8>) -> Seq<char>;

/// The characters of bytes that are all ASCII.
pub open spec fn ascii_chars(bytes: Seq<u8>) -> Seq<char> {
    Seq::new(bytes.len(), |i: int| bytes[i] as char)
}

/// Whether every byte is below 128.
pub open spec fn all_ascii(bytes: Seq<u8>) -> bool {
    forall|i: int| 0 <= i < bytes.len() ==> bytes[i] < 128
}

/// Reads bytes as UTF-8 text by `String::from_utf8_lossy`, which keeps
/// valid text as it is and puts U+FFFD in place of each invalid sequence;
/// it takes every input. Bytes that are all ASCII are valid text and come
/// out as their characters.
#[verifier::external_body]
fn from_utf8_lossy(bytes: &Vec<u8>) -> (s: String)
    ensures
        s@ == utf8_lossy(bytes@),
        all_ascii(bytes@) ==> s@ == ascii_chars(bytes@),
{
    String::from_utf8_lossy(bytes).into_owned()
}

/// The text of the C string at the start of `buffer`, read leniently: a
/// buffer without a zero byte is read to its end, and bytes that are not
/// valid UTF-8 are replaced.
pub fn c_string_lossy(buffer: &[i8]) -> (s: String)
    ensures
        s@ == utf8_lossy(c_string_bytes(buffer@)),
        all_ascii(c_string_bytes(buffer@)) ==> s@ == ascii_chars(c_string_bytes(buffer@)),
{
    let bytes = c_string(buffer);
    from_utf8_lossy(&bytes)
}

} // verus!
