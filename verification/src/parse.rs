use vstd::prelude::*;
use vstd::string::*;
use vstd::utf8::is_ascii_chars;
use crate::error::FpscrError;

verus! {

/// The value of `c` as a hexadecimal digit, in either letter case.
pub open spec fn hex_digit(c: char) -> Option<u8> {
    if '0' <= c <= '9' {
        Some((c as u8 - '0' as u8) as u8)
    } else if 'a' <= c <= 'f' {
        Some((c as u8 - 'a' as u8 + 10) as u8)
    } else if 'A' <= c <= 'F' {
        Some((c as u8 - 'A' as u8 + 10) as u8)
    } else {
        None
    }
}

/// The number that `digits` denotes in base sixteen, most significant digit
/// first; a character that is no digit counts as zero.
pub open spec fn hex_value(digits: Seq<char>) -> nat
    decreases digits.len(),
{
    if digits.len() == 0 {
        0
    } else {
        let low: nat = match hex_digit(digits.last()) {
            Some(d) => d as nat,
            None => 0,
        };
        16 * hex_value(digits.drop_last()) + low
    }
}

/// `text` without a leading `0x`.
pub open spec fn without_prefix(text: Seq<char>) -> Seq<char> {
    if text.len() >= 2 && text[0] == '0' && text[1] == 'x' {
        text.skip(2)
    } else {
        text
    }
}

/// `text` without a leading `+`.
pub open spec fn without_sign(text: Seq<char>) -> Seq<char> {
    if text.len() >= 1 && text[0] == '+' {
        text.skip(1)
    } else {
        text
    }
}

/// Whether `digits` is a non-empty run of hexadecimal digits.
pub open spec fn is_hex_number(digits: Seq<char>) -> bool {
    &&& digits.len() > 0
    &&& forall|i: int| 0 <= i < digits.len() ==> hex_digit(#[trigger] digits[i]) is Some
}

/// The register value that `text` denotes, if it denotes one: after an
/// optional `0x` and an optional `+`, a hexadecimal number of at most 64 bits.
pub open spec fn register_value(text: Seq<char>) -> Option<u64> {
    let digits = without_sign(without_prefix(text));
    if is_hex_number(digits) && hex_value(digits) <= u64::MAX {
        Some(hex_value(digits) as u64)
    } else {
        None
    }
}

fn digit_of(byte: u8) -> (digit: Option<u8>)
    ensures
        forall|c: char| c as u8 == byte && '\0' <= c <= '\u{7f}' ==> digit == hex_digit(c),
        digit matches Some(d) ==> d < 16,
{
    if ('0' as u8) <= byte && byte <= ('9' as u8) {
        Some(byte - ('0' as u8))
    } else if ('a' as u8) <= byte && byte <= ('f' as u8) {
        Some(byte - ('a' as u8) + 10)
    } else if ('A' as u8) <= byte && byte <= ('F' as u8) {
        Some(byte - ('A' as u8) + 10)
    } else {
        None
    }
}

/// Appending one digit multiplies the value by sixteen and adds the digit.
proof fn lemma_hex_value_step(digits: Seq<char>, count: int)
    requires
        0 <= count < digits.len(),
        hex_digit(digits[count]) is Some,
    ensures
        hex_value(digits.take(count + 1)) == 16 * hex_value(digits.take(count)) + hex_digit(
            digits[count],
        )->Some_0,
{
    assert(digits.take(count + 1).drop_last() =~= digits.take(count));
}

/// A number is at least as large as each of its leading parts.
proof fn lemma_hex_value_grows(digits: Seq<char>, count: int)
    requires
        0 <= count <= digits.len(),
    ensures
        hex_value(digits.take(count)) <= hex_value(digits),
    decreases digits.len(),
{
    if count == digits.len() {
        assert(digits.take(count) =~= digits);
    } else {
        lemma_hex_value_grows(digits.drop_last(), count);
        assert(digits.drop_last().take(count) =~= digits.take(count));
    }
}

/// Text with a character outside ASCII denotes no register value.
proof fn lemma_not_ascii_is_malformed(text: Seq<char>)
    requires
        !is_ascii_chars(text),
    ensures
        register_value(text) is None,
{
    let i = choose|i: int| 0 <= i < text.len() && !('\0' <= #[trigger] text[i] <= '\u{7f}');
    let body = without_prefix(text);
    let digits = without_sign(body);
    let skipped = text.len() - digits.len();
    assert(hex_digit(digits[i - skipped]) is None);
}

/// Reads a register value written in hexadecimal, with or without a leading
/// `0x`. Both letter cases are digits, and a `+` may stand before the first
/// digit. Text that is empty, holds anything else, or denotes more than 64
/// bits is malformed.
pub fn parse_value(text: &str) -> (parsed: Result<u64, FpscrError>)
    ensures
        register_value(text@) matches Some(value) ==> parsed == Ok::<u64, FpscrError>(value),
        register_value(text@) is None ==> parsed == Err::<u64, FpscrError>(
            FpscrError::MalformedValue,
        ),
{
    if !text.is_ascii() {
        proof {
            lemma_not_ascii_is_malformed(text@);
        }
        return Err(FpscrError::MalformedValue);
    }
    let bytes = text.as_bytes();
    proof {
        is_ascii_spec_bytes(text);
    }
    let len = bytes.len();
    let mut at: usize = 0;
    if len >= 2 && bytes[0] == '0' as u8 && bytes[1] == 'x' as u8 {
        at = 2;
    }
    if at < len && bytes[at] == '+' as u8 {
        at += 1;
    }
    let start = at;
    let ghost digits = text@.skip(start as int);
    if at == len {
        return Err(FpscrError::MalformedValue);
    }
    let mut value: u64 = 0;
    while at < len
        invariant
            start <= at <= len,
            len == text@.len(),
            is_ascii_chars(text@),
            bytes@ =~= Seq::new(text@.len(), |i: int| text@[i] as u8),
            digits == text@.skip(start as int),
            digits == without_sign(without_prefix(text@)),
            forall|i: int| 0 <= i < at - start ==> hex_digit(#[trigger] digits[i]) is Some,
            value == hex_value(digits.take(at - start)),
        decreases len - at,
    {
        let digit = match digit_of(bytes[at]) {
            Some(digit) => digit,
            None => {
                return Err(FpscrError::MalformedValue);
            },
        };
        proof {
            lemma_hex_value_step(digits, at - start);
            lemma_hex_value_grows(digits, at - start + 1);
        }
        if value > u64::MAX / 16 {
            return Err(FpscrError::MalformedValue);
        }
        value = value * 16 + digit as u64;
        at += 1;
    }
    assert(digits.take(at - start) =~= digits);
    Ok(value)
}

} // verus!
