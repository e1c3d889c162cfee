//! Text that crosses the foreign-function boundary: C-string arguments and
//! the decimal numbers that appear in error messages.

use vstd::prelude::*;
use vstd::utf8::*;
use vstd::string::*;

verus! {

/// What `std::str::Utf8Error`'s `Display` prints for the invalid UTF-8 input `bytes`.
pub uninterp spec fn utf8_error_text(bytes: Seq<u8>) -> Seq<char>;

/// Calls `std::str::from_utf8`, turning the text into an owned `String` and the
/// error into its `Display` text.
///
/// Claimed of std: the call succeeds exactly on well-formed UTF-8 (no overlong
/// forms, no surrogates, nothing past U+10FFFF) and then yields the decoded
/// characters; the error text is a function of the input alone.
#[verifier::external_body]
fn utf8_to_string(bytes: &[u8]) -> (res: Result<String, String>)
    ensures
        res is Ok <==> valid_utf8(bytes@),
        res matches Ok(s) ==> s@ == decode_utf8(bytes@),
        res matches Err(t) ==> t@ == utf8_error_text(bytes@),
{
    match std::str::from_utf8(bytes) {
        Ok(s) => Ok(s.to_string()),
        Err(e) => Err(e.to_string()),
    }
}

/// What reading a C-string argument yields: `None` stands for a null pointer,
/// `Some(bytes)` for the bytes before the terminating NUL.
pub open spec fn cstr_outcome(arg: Option<Seq<u8>>) -> Result<Seq<char>, Seq<char>> {
    match arg {
        None => Err("null string"@),
        Some(bytes) => if valid_utf8(bytes) {
            Ok(decode_utf8(bytes))
        } else {
            Err("utf8 error: "@ + utf8_error_text(bytes))
        },
    }
}

/// The view of an optional byte slice.
pub open spec fn opt_bytes(arg: Option<&[u8]>) -> Option<Seq<u8>> {
    match arg {
        None => None,
        Some(b) => Some(b@),
    }
}

/// Reads a C-string argument: a null pointer gives `"null string"`, bytes that
/// are not UTF-8 give `"utf8 error: "` and the decoder's message; otherwise the
/// text, whose UTF-8 encoding is exactly the argument's bytes.
pub fn cstr(arg: Option<&[u8]>) -> (res: Result<String, String>)
    ensures
        match res {
            Ok(s) => cstr_outcome(opt_bytes(arg)) == Ok::<Seq<char>, Seq<char>>(s@),
            Err(m) => cstr_outcome(opt_bytes(arg)) == Err::<Seq<char>, Seq<char>>(m@),
        },
        res matches Ok(s) ==> arg matches Some(b) && encode_utf8(s@) == b@,
        arg is None ==> res is Err,
        arg matches Some(b) ==> (res is Ok <==> valid_utf8(b@)),
        res matches Ok(s) ==> arg matches Some(b) && s@ == decode_utf8(b@),
{
    match arg {
        None => Err(String::from_str("null string")),
        Some(bytes) => match utf8_to_string(bytes) {
            Ok(s) => {
                proof {
                    decode_utf8_encode_utf8(bytes@);
                }
                Ok(s)
            },
            Err(t) => {
                let mut msg = String::from_str("utf8 error: ");
                msg.append(t.as_str());
                Err(msg)
            },
        },
    }
}

/// Reading a C-string argument refuses only a null pointer and bytes that are
/// not UTF-8, whatever their length; it accepts every non-null valid UTF-8
/// argument and gives exactly its decoded text.
pub proof fn law_cstr_accepts_exactly_utf8(arg: Option<Seq<u8>>)
    ensures
        arg is None ==> cstr_outcome(arg) is Err,
        arg matches Some(b) ==> (cstr_outcome(arg) is Ok <==> valid_utf8(b)),
        arg matches Some(b) ==> (valid_utf8(b) ==> cstr_outcome(arg) == Ok::<Seq<char>, Seq<char>>(
            decode_utf8(b),
        )),
{
}

/// The decimal digit character for `d < 10`.
pub open spec fn digit_char(d: nat) -> char {
    ((48 + d) as u8) as char
}

/// `n` in decimal, most significant digit first, without leading zeros.
pub open spec fn decimal(n: nat) -> Seq<char>
    decreases n,
{
    if n < 10 {
        seq![digit_char(n)]
    } else {
        decimal(n / 10).push(digit_char(n % 10))
    }
}

fn digit_str(d: usize) -> (s: &'static str)
    requires
        d < 10,
    ensures
        s@ == seq![digit_char(d as nat)],
{
    proof {
        reveal_strlit("0");
        reveal_strlit("1");
        reveal_strlit("2");
        reveal_strlit("3");
        reveal_strlit("4");
        reveal_strlit("5");
        reveal_strlit("6");
        reveal_strlit("7");
        reveal_strlit("8");
        reveal_strlit("9");
    }
    match d {
        0 => "0",
        1 => "1",
        2 => "2",
        3 => "3",
        4 => "4",
        5 => "5",
        6 => "6",
        7 => "7",
        8 => "8",
        _ => "9",
    }
}

/// The number that a string of decimal digits stands for.
pub open spec fn digits_value(s: Seq<char>) -> nat
    decreases s.len(),
{
    if s.len() == 0 {
        0
    } else {
        digits_value(s.drop_last()) * 10 + ((s.last() as int) - 48) as nat
    }
}

/// A decimal rendering uses only the digits `0` to `9`, starts with a nonzero
/// digit unless the number is zero, and reads back as the number it renders.
pub proof fn law_decimal_reads_back(n: nat)
    ensures
        decimal(n).len() >= 1,
        forall|i: int| 0 <= i < decimal(n).len() ==> '0' <= #[trigger] decimal(n)[i] <= '9',
        n > 0 ==> decimal(n)[0] != '0',
        digits_value(decimal(n)) == n,
    decreases n,
{
    let d = n % 10;
    assert((digit_char(d) as int) == 48 + d);
    if n < 10 {
        assert(decimal(n).drop_last() =~= Seq::<char>::empty());
        assert(decimal(n).last() == digit_char(n));
        assert(digits_value(decimal(n).drop_last()) == 0);
        assert(digits_value(decimal(n)) == digits_value(decimal(n).drop_last()) * 10 + ((
        decimal(n).last() as int) - 48) as nat);
    } else {
        law_decimal_reads_back(n / 10);
        assert(decimal(n).drop_last() =~= decimal(n / 10));
        assert(decimal(n).last() == digit_char(d));
        assert(n == (n / 10) * 10 + d);
        assert(digits_value(decimal(n)) == digits_value(decimal(n).drop_last()) * 10 + ((
        decimal(n).last() as int) - 48) as nat);
        assert forall|i: int| 0 <= i < decimal(n).len() implies '0' <= #[trigger] decimal(n)[i]
            <= '9' by {
            if i < decimal(n).len() - 1 {
                assert(decimal(n)[i] == decimal(n / 10)[i]);
            }
        }
    }
}

/// `n` written in decimal, as `format!("{n}")` writes it.
pub fn decimal_string(n: usize) -> (s: String)
    ensures
        s@ == decimal(n as nat),
        digits_value(s@) == n,
        forall|i: int| 0 <= i < s@.len() ==> '0' <= #[trigger] s@[i] <= '9',
        n > 0 ==> s@[0] != '0',
    decreases n,
{
    let s = if n < 10 {
        String::from_str(digit_str(n))
    } else {
        let mut s = decimal_string(n / 10);
        s.append(digit_str(n % 10));
        s
    };
    proof {
        law_decimal_reads_back(n as nat);
        assert(s@ == decimal(n as nat));
    }
    s
}

} // verus!
