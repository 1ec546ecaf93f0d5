//! Text for people: decimal numbers, and the names that the operating system
//! gives to signals and to its error numbers.

use vstd::prelude::*;
use vstd::string::{StringExecFns, StringSliceAdditionalSpecFns};

verus! {

/// The character of the decimal digit `d`.
pub open spec fn digit(d: nat) -> char {
    if d == 0 {
        '0'
    } else if d == 1 {
        '1'
    } else if d == 2 {
        '2'
    } else if d == 3 {
        '3'
    } else if d == 4 {
        '4'
    } else if d == 5 {
        '5'
    } else if d == 6 {
        '6'
    } else if d == 7 {
        '7'
    } else if d == 8 {
        '8'
    } else {
        '9'
    }
}

/// The decimal digits of `n`, most significant first, without leading zeros.
pub open spec fn decimal(n: nat) -> Seq<char>
    decreases n,
{
    if n < 10 {
        seq![digit(n)]
    } else {
        decimal(n / 10).push(digit(n % 10))
    }
}

/// The decimal text of `n`, with a minus sign in front where it is negative.
pub open spec fn signed_decimal(n: int) -> Seq<char> {
    if n < 0 {
        seq!['-'] + decimal((-n) as nat)
    } else {
        decimal(n as nat)
    }
}

/// The one-character text of the decimal digit `d`.
fn digit_text(d: u64) -> (text: &'static str)
    requires
        d < 10,
    ensures
        text@ == seq![digit(d as nat)],
{
    proof {
        reveal_strlit("0");
        reveal_strlit("1");
        reveal_strlit("2");
        reveal_strlit("3");
        reveal_strlit("4");
        reveal_strlit("5");
        reveal_strlit("6");
        reveal_strlit("7");
        reveal_strlit("8");
        reveal_strlit("9");
    }
    let text = if d == 0 {
        "0"
    } else if d == 1 {
        "1"
    } else if d == 2 {
        "2"
    } else if d == 3 {
        "3"
    } else if d == 4 {
        "4"
    } else if d == 5 {
        "5"
    } else if d == 6 {
        "6"
    } else if d == 7 {
        "7"
    } else if d == 8 {
        "8"
    } else {
        "9"
    };
    assert(text@ =~= seq![digit(d as nat)]);
    text
}

/// Writes `n` in decimal.
pub fn decimal_text(n: u64) -> (text: String)
    ensures
        text@ == decimal(n as nat),
    decreases n,
{
    if n < 10 {
        String::from_str(digit_text(n))
    } else {
        let mut text = decimal_text(n / 10);
        text.append(digit_text(n % 10));
        assert(text@ =~= decimal(n as nat));
        text
    }
}

/// Writes `n` in decimal, with a minus sign in front where it is negative.
pub fn signed_decimal_text(n: i32) -> (text: String)
    ensures
        text@ == signed_decimal(n as int),
{
    if n < 0 {
        proof {
            reveal_strlit("-");
        }
        let digits = decimal_text((-(n as i64)) as u64);
        let mut text = String::from_str("-");
        text.append(digits.as_str());
        assert(text@ =~= signed_decimal(n as int));
        text
    } else {
        decimal_text(n as u64)
    }
}

/// The character `0`, the first of the ten digits.
pub const DIGIT_ZERO: u8 = 48;

/// The character `9`, the last of the ten digits.
pub const DIGIT_NINE: u8 = 57;

/// The character `+`.
pub const PLUS: u8 = 43;

/// The character `-`.
pub const MINUS: u8 = 45;

/// Whether `byte` is the character of a decimal digit.
pub open spec fn is_digit(byte: u8) -> bool {
    DIGIT_ZERO <= byte <= DIGIT_NINE
}

/// Whether `bytes` holds nothing but decimal digits.
pub open spec fn all_digits(bytes: Seq<u8>) -> bool {
    forall|i: int| 0 <= i < bytes.len() ==> is_digit(#[trigger] bytes[i])
}

/// The number that the decimal digits `digits` write.
pub open spec fn digits_value(digits: Seq<u8>) -> nat
    decreases digits.len(),
{
    if digits.len() == 0 {
        0
    } else {
        10 * digits_value(digits.drop_last()) + (digits.last() - DIGIT_ZERO) as nat
    }
}

/// The number that `text` writes in decimal: a plus or minus sign or none,
/// then one digit or more and nothing else, and a value that the type holds.
/// Any other text writes no number.
pub open spec fn parsed_i32(text: Seq<u8>) -> Option<i32> {
    let negative = text.len() > 0 && text[0] == MINUS;
    let signed = text.len() > 0 && (text[0] == MINUS || text[0] == PLUS);
    let digits = if signed {
        text.drop_first()
    } else {
        text
    };
    let value = if negative {
        -digits_value(digits)
    } else {
        digits_value(digits) as int
    };
    if digits.len() == 0 || !all_digits(digits) || value < i32::MIN || value > i32::MAX {
        None
    } else {
        Some(value as i32)
    }
}

/// Reads the decimal number that `text` writes.
pub fn parse_i32(text: &str) -> (number: Option<i32>)
    ensures
        number == parsed_i32(text.spec_bytes()),
{
    let bytes = text.as_bytes();
    let n = bytes.len();
    if n == 0 {
        return None;
    }
    let negative = bytes[0] == MINUS;
    let start: usize = if negative || bytes[0] == PLUS {
        1
    } else {
        0
    };
    let ghost digits = bytes@.subrange(start as int, n as int);
    assert(digits =~= if start == 1 {
        bytes@.drop_first()
    } else {
        bytes@
    });
    if start == n {
        return None;
    }
    let limit: u64 = 0x8000_0000;
    let mut value: u64 = 0;
    let mut too_large = false;
    let mut i: usize = start;
    while i < n
        invariant
            start <= i <= n,
            n == bytes.len(),
            bytes@ == text.spec_bytes(),
            start == (if bytes@[0] == MINUS || bytes@[0] == PLUS {
                1int
            } else {
                0int
            }),
            digits == bytes@.subrange(start as int, n as int),
            digits == (if start == 1 {
                bytes@.drop_first()
            } else {
                bytes@
            }),
            limit == 0x8000_0000,
            all_digits(digits.subrange(0, i - start)),
            !too_large ==> value == digits_value(digits.subrange(0, i - start)) && value <= limit,
            too_large ==> digits_value(digits.subrange(0, i - start)) > limit,
        decreases n - i,
    {
        let byte = bytes[i];
        if byte < DIGIT_ZERO || byte > DIGIT_NINE {
            assert(!is_digit(digits[i - start]));
            return None;
        }
        proof {
            let before = digits.subrange(0, i - start);
            let now = digits.subrange(0, i - start + 1);
            assert(now.drop_last() =~= before);
            assert(now.last() == byte);
        }
        if !too_large {
            value = value * 10 + (byte - DIGIT_ZERO) as u64;
            if value > limit {
                too_large = true;
            }
        }
        i = i + 1;
    }
    assert(digits.subrange(0, n - start) =~= digits);
    if too_large {
        None
    } else if negative {
        Some((-(value as i64)) as i32)
    } else if value > 0x7fff_ffff {
        None
    } else {
        Some(value as i32)
    }
}

/// The name of the signal with the number `signal`, as the `nix` crate gives
/// it on this platform, or `None` where the number is no signal that it
/// knows.
pub uninterp spec fn signal_name(signal: int) -> Option<Seq<char>>;

/// The text of the error number `errno`, as the `nix` crate gives it on this
/// platform: the symbolic name, a colon, and a description.
pub uninterp spec fn errno_text(errno: int) -> Seq<char>;

/// Calls `nix::sys::signal::Signal::try_from` and, on a signal that it
/// knows, `Signal::as_str`. The contract only gives the result its name,
/// `signal_name`: the same number always has the same name, and a number
/// that is no signal has none.
#[verifier::external_body]
pub(crate) fn signal_name_of(signal: i32) -> (name: Option<String>)
    ensures
        match name {
            Some(text) => signal_name(signal as int) == Some(text@),
            None => signal_name(signal as int) is None,
        },
{
    match nix::sys::signal::Signal::try_from(signal) {
        Ok(known) => Some(String::from(known.as_str())),
        Err(_) => None,
    }
}

/// Calls `nix::errno::Errno::from_raw` and formats the result with its
/// `Display`. The contract only gives the text its name, `errno_text`: the
/// same error number always reads the same.
#[verifier::external_body]
pub(crate) fn errno_text_of(errno: i32) -> (text: String)
    ensures
        text@ == errno_text(errno as int),
{
    format!("{}", nix::errno::Errno::from_raw(errno))
}

} // verus!
