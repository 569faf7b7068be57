//! The preflight cache lifetime: how it is written, and how it is read from
//! the text of a configuration document.

use crate::error::{Fault, PolicyError};
use vstd::prelude::*;
use vstd::string::StringExecFns;
use vstd::utf8::encode_utf8;

verus! {

/// The answer of `humantime::parse_duration` to a text: the whole seconds
/// and the nanoseconds beyond them of the duration it reads, or the text of
/// its error.
pub uninterp spec fn parsed_duration(text: Seq<char>) -> Result<(u64, u32), Seq<char>>;

/// The most digits that a text handed to the duration parser may hold.
pub const MAX_DIGITS: usize = 11;

/// Whether the byte is a decimal digit.
pub open spec fn is_digit(byte: u8) -> bool {
    48 <= byte <= 57
}

/// How many of the bytes are decimal digits.
pub open spec fn digit_count(bytes: Seq<u8>) -> nat
    decreases bytes.len(),
{
    if bytes.len() == 0 {
        0
    } else {
        digit_count(bytes.drop_last()) + if is_digit(bytes.last()) {
            1nat
        } else {
            0nat
        }
    }
}

/// Calls `humantime::parse_duration`. Trusted: the call answers with a
/// duration or an error, and which of the two, the duration and the text of
/// the error depend on the text alone.
///
/// The parser adds up its items with checked arithmetic and panics on one
/// kind of text only: one whose seconds add up to 2^64 - 1 and whose
/// nanoseconds then carry one second more. The numbers in a text of at most
/// `MAX_DIGITS` digits add up to less than 10^11, so that even in years of
/// 31 557 600 seconds each they stay below 2^62 seconds.
#[verifier::external_body]
fn parse_duration(text: &str) -> (parsed: Result<(u64, u32), String>)
    requires
        digit_count(encode_utf8(text@)) <= MAX_DIGITS,
    ensures
        match parsed {
            Ok(duration) => parsed_duration(text@) == Ok::<(u64, u32), Seq<char>>(duration),
            Err(reason) => parsed_duration(text@) == Err::<(u64, u32), Seq<char>>(reason@),
        },
{
    match humantime::parse_duration(text) {
        Ok(duration) => Ok((duration.as_secs(), duration.subsec_nanos())),
        Err(error) => Err(error.to_string()),
    }
}

/// The character of a decimal digit.
pub open spec fn digit_char(digit: nat) -> char {
    ((48 + digit) as u8) as char
}

/// The decimal numeral of `n`, without leading zeros.
pub open spec fn decimal_text(n: nat) -> Seq<char>
    decreases n,
{
    if n < 10 {
        seq![digit_char(n)]
    } else {
        decimal_text(n / 10).push(digit_char(n % 10))
    }
}

/// The number that a string of decimal digits writes.
pub open spec fn digits_value(digits: Seq<u8>) -> nat
    decreases digits.len(),
{
    if digits.len() == 0 {
        0
    } else {
        digits_value(digits.drop_last()) * 10 + (digits.last() - 48) as nat
    }
}

/// A lifetime as it is written: the numeral of its seconds, then `s`.
pub open spec fn seconds_text(seconds: u64) -> Seq<char> {
    decimal_text(seconds as nat).push('s')
}

/// The seconds of a text in the written form: digits that write a number
/// within `u64`, then `s`. `None` for any other text.
pub open spec fn plain_seconds(bytes: Seq<u8>) -> Option<u64> {
    let digits = bytes.drop_last();
    if bytes.len() >= 2 && bytes.last() == 115 && (forall|i: int|
        0 <= i < digits.len() ==> is_digit(#[trigger] digits[i])) && digits_value(digits)
        <= u64::MAX {
        Some(digits_value(digits) as u64)
    } else {
        None
    }
}

/// What the text of a lifetime stands for: its whole seconds, or the fault
/// in it. The written form is read as it stands. Any other text goes to the
/// duration parser, unless it holds more than `MAX_DIGITS` digits; of what
/// the parser reads, the part below one second is dropped.
pub open spec fn max_age_of(text: Seq<char>) -> Result<u64, Fault> {
    let bytes = encode_utf8(text);
    if plain_seconds(bytes) is Some {
        Ok(plain_seconds(bytes).unwrap())
    } else if digit_count(bytes) > MAX_DIGITS {
        Err(Fault::Duration { text, reason: "more than eleven digits"@ })
    } else {
        match parsed_duration(text) {
            Ok(duration) => Ok(duration.0),
            Err(reason) => Err(Fault::Duration { text, reason }),
        }
    }
}

/// A digit as a string.
fn digit_str(digit: u64) -> (text: &'static str)
    requires
        digit < 10,
    ensures
        text@ == seq![digit_char(digit as nat)],
{
    proof {
        reveal_strlit("0");
        reveal_strlit("1");
        reveal_strlit("2");
        reveal_strlit("3");
        reveal_strlit("4");
        reveal_strlit("5");
        reveal_strlit("6");
        reveal_strlit("7");
        reveal_strlit("8");
        reveal_strlit("9");
    }
    let text = if digit == 0 {
        "0"
    } else if digit == 1 {
        "1"
    } else if digit == 2 {
        "2"
    } else if digit == 3 {
        "3"
    } else if digit == 4 {
        "4"
    } else if digit == 5 {
        "5"
    } else if digit == 6 {
        "6"
    } else if digit == 7 {
        "7"
    } else if digit == 8 {
        "8"
    } else {
        "9"
    };
    assert(text@ =~= seq![digit_char(digit as nat)]);
    text
}

/// The decimal numeral of `n`.
pub fn decimal(n: u64) -> (text: String)
    ensures
        text@ == decimal_text(n as nat),
    decreases n,
{
    if n < 10 {
        String::from_str(digit_str(n))
    } else {
        let text = decimal(n / 10).concat(digit_str(n % 10));
        assert(text@ =~= decimal_text(n as nat / 10).push(digit_char(n as nat % 10)));
        text
    }
}

/// Writes a lifetime of whole seconds.
pub fn format_max_age(seconds: u64) -> (text: String)
    ensures
        text@ == seconds_text(seconds),
{
    proof {
        reveal_strlit("s");
    }
    let text = decimal(seconds).concat("s");
    assert(text@ =~= seconds_text(seconds));
    text
}

/// A prefix of a string of digits writes no larger a number than the whole.
proof fn lemma_prefix_value(digits: Seq<u8>, k: int)
    requires
        0 <= k <= digits.len(),
        forall|i: int| 0 <= i < digits.len() ==> is_digit(#[trigger] digits[i]),
    ensures
        digits_value(digits.take(k)) <= digits_value(digits),
    decreases digits.len() - k,
{
    if k < digits.len() {
        lemma_prefix_value(digits, k + 1);
        let longer = digits.take(k + 1);
        assert(longer.drop_last() =~= digits.take(k));
        assert(is_digit(digits[k]));
    } else {
        assert(digits.take(k) =~= digits);
    }
}

/// The bytes of a text of one-byte characters.
pub open spec fn narrow(text: Seq<char>) -> Seq<u8> {
    text.map_values(|c: char| c as u8)
}

/// A numeral is made of digits, and they write the number it stands for.
pub proof fn lemma_decimal_value(n: nat)
    ensures
        decimal_text(n).len() >= 1,
        forall|i: int|
            0 <= i < decimal_text(n).len() ==> '0' <= #[trigger] decimal_text(n)[i] <= '9',
        digits_value(narrow(decimal_text(n))) == n,
    decreases n,
{
    let bytes = narrow(decimal_text(n));
    if n < 10 {
        assert(bytes.drop_last() =~= Seq::<u8>::empty());
        assert(digits_value(bytes.drop_last()) == 0);
        assert(bytes.last() == 48 + n);
    } else {
        lemma_decimal_value(n / 10);
        assert(bytes.drop_last() =~= narrow(decimal_text(n / 10)));
        assert(bytes.last() == 48 + n % 10);
    }
    assert(digits_value(bytes) == digits_value(bytes.drop_last()) * 10 + (bytes.last() - 48));
}

/// The written form of a lifetime is read back as the same lifetime.
pub proof fn lemma_written_form_reads_back(seconds: u64)
    ensures
        max_age_of(seconds_text(seconds)) == Ok::<u64, Fault>(seconds),
{
    let text = seconds_text(seconds);
    lemma_decimal_value(seconds as nat);
    assert(vstd::utf8::is_ascii_chars(text));
    vstd::utf8::is_ascii_chars_encode_utf8(text);
    let bytes = encode_utf8(text);
    assert(bytes =~= narrow(text));
    assert(bytes.drop_last() =~= narrow(decimal_text(seconds as nat)));
    assert(bytes.last() == 115);
}

/// Reads the written form of a lifetime.
fn read_plain_seconds(bytes: &[u8]) -> (seconds: Option<u64>)
    ensures
        seconds == plain_seconds(bytes@),
{
    let n = bytes.len();
    if n < 2 || bytes[n - 1] != 115 {
        return None;
    }
    let ghost digits = bytes@.drop_last();
    let mut value: u64 = 0;
    let mut i: usize = 0;
    while i < n - 1
        invariant
            n == bytes.len(),
            n >= 2,
            i <= n - 1,
            digits == bytes@.drop_last(),
            forall|j: int| 0 <= j < i ==> is_digit(#[trigger] digits[j]),
            value == digits_value(digits.take(i as int)),
        decreases n - i,
    {
        let byte = bytes[i];
        if byte < 48 || byte > 57 {
            assert(!is_digit(digits[i as int]));
            return None;
        }
        let digit: u64 = (byte - 48) as u64;
        proof {
            assert(digits.take(i + 1).drop_last() =~= digits.take(i as int));
            assert(digits.take(i + 1).last() == byte);
        }
        if value > (u64::MAX - digit) / 10 {
            proof {
                if forall|j: int| 0 <= j < digits.len() ==> is_digit(#[trigger] digits[j]) {
                    lemma_prefix_value(digits, i + 1);
                }
            }
            return None;
        }
        value = value * 10 + digit;
        i += 1;
    }
    assert(digits.take(i as int) =~= digits);
    Some(value)
}

/// How many of the bytes are decimal digits, counted up to one more than
/// `MAX_DIGITS`.
fn count_digits(bytes: &[u8]) -> (count: usize)
    ensures
        count <= MAX_DIGITS + 1,
        count <= MAX_DIGITS ==> count == digit_count(bytes@),
        count > MAX_DIGITS ==> digit_count(bytes@) > MAX_DIGITS,
{
    let mut count: usize = 0;
    let mut i: usize = 0;
    while i < bytes.len()
        invariant
            i <= bytes.len(),
            count <= MAX_DIGITS,
            count == digit_count(bytes@.take(i as int)),
        decreases bytes.len() - i,
    {
        proof {
            assert(bytes@.take(i + 1).drop_last() =~= bytes@.take(i as int));
        }
        if 48 <= bytes[i] && bytes[i] <= 57 {
            count += 1;
            if count > MAX_DIGITS {
                proof {
                    lemma_count_grows(bytes@, i + 1);
                }
                return count;
            }
        }
        i += 1;
    }
    assert(bytes@.take(i as int) =~= bytes@);
    count
}

/// A prefix holds no more digits than the whole.
proof fn lemma_count_grows(bytes: Seq<u8>, k: int)
    requires
        0 <= k <= bytes.len(),
    ensures
        digit_count(bytes.take(k)) <= digit_count(bytes),
    decreases bytes.len() - k,
{
    if k < bytes.len() {
        lemma_count_grows(bytes, k + 1);
        assert(bytes.take(k + 1).drop_last() =~= bytes.take(k));
    } else {
        assert(bytes.take(k) =~= bytes);
    }
}

/// Reads the text of a lifetime.
pub fn parse_max_age(text: &str) -> (parsed: Result<u64, PolicyError>)
    ensures
        match parsed {
            Ok(seconds) => max_age_of(text@) == Ok::<u64, Fault>(seconds),
            Err(error) => max_age_of(text@) == Err::<u64, Fault>(error@),
        },
{
    let bytes = text.as_bytes();
    match read_plain_seconds(bytes) {
        Some(seconds) => {
            return Ok(seconds);
        },
        None => {},
    }
    if count_digits(bytes) > MAX_DIGITS {
        return Err(
            PolicyError::InvalidDuration {
                text: String::from_str(text),
                reason: String::from_str("more than eleven digits"),
            },
        );
    }
    match parse_duration(text) {
        Ok(duration) => Ok(duration.0),
        Err(reason) => Err(PolicyError::InvalidDuration { text: String::from_str(text), reason }),
    }
}

} // verus!
