//! Decimal parsing of unsigned integers, as `str::parse` does it for the
//! unsigned integer types.

use vstd::prelude::*;
use vstd::string::*;
use vstd::utf8::*;

verus! {

/// Why a text is not an unsigned integer of the requested range.
#[derive(Clone, Copy, Debug, PartialEq, Eq)]
pub enum IntErrorKind {
    /// The text is empty.
    Empty,
    /// The text holds a byte that is not a decimal digit where one is due.
    InvalidDigit,
    /// The number does not fit in the requested range.
    PosOverflow,
}

impl IntErrorKind {
    /// The standard description of the error.
    pub open spec fn spec_description(self) -> Seq<char> {
        match self {
            IntErrorKind::Empty => "cannot parse integer from empty string"@,
            IntErrorKind::InvalidDigit => "invalid digit found in string"@,
            IntErrorKind::PosOverflow => "number too large to fit in target type"@,
        }
    }

    /// Describes the error as the standard library does.
    pub fn description(&self) -> (text: &'static str)
        ensures
            text@ == self.spec_description(),
    {
        match self {
            IntErrorKind::Empty => "cannot parse integer from empty string",
            IntErrorKind::InvalidDigit => "invalid digit found in string",
            IntErrorKind::PosOverflow => "number too large to fit in target type",
        }
    }
}

/// `b` is the ASCII code of a decimal digit.
pub open spec fn is_ascii_digit(b: u8) -> bool {
    48 <= b <= 57
}

/// Reads `digits` from left to right onto `acc`, failing at the first byte
/// that is not a digit, or as soon as the number exceeds `max`.
pub open spec fn spec_parse_digits(digits: Seq<u8>, acc: nat, max: nat) -> Result<nat, IntErrorKind>
    decreases digits.len(),
{
    if digits.len() == 0 {
        Ok(acc)
    } else if !is_ascii_digit(digits[0]) {
        Err(IntErrorKind::InvalidDigit)
    } else if acc * 10 + (digits[0] - 48) > max {
        Err(IntErrorKind::PosOverflow)
    } else {
        spec_parse_digits(digits.drop_first(), (acc * 10 + (digits[0] - 48)) as nat, max)
    }
}

/// The unsigned decimal number that `bytes` spell, up to `max`: an optional
/// leading `+`, then at least one digit.
pub open spec fn spec_parse_unsigned(bytes: Seq<u8>, max: nat) -> Result<nat, IntErrorKind> {
    if bytes.len() == 0 {
        Err(IntErrorKind::Empty)
    } else if (bytes[0] == 43 || bytes[0] == 45) && bytes.len() == 1 {
        Err(IntErrorKind::InvalidDigit)
    } else if bytes[0] == 43 {
        spec_parse_digits(bytes.drop_first(), 0, max)
    } else {
        spec_parse_digits(bytes, 0, max)
    }
}

/// A successful parse never exceeds `max`.
pub proof fn lemma_parse_digits_bounded(digits: Seq<u8>, acc: nat, max: nat)
    requires
        acc <= max,
    ensures
        spec_parse_digits(digits, acc, max) matches Ok(n) ==> n <= max,
    decreases digits.len(),
{
    if digits.len() > 0 && is_ascii_digit(digits[0]) && acc * 10 + (digits[0] - 48) <= max {
        lemma_parse_digits_bounded(digits.drop_first(), (acc * 10 + (digits[0] - 48)) as nat, max);
    }
}

/// A successful parse of a whole text never exceeds `max`.
pub proof fn lemma_parse_unsigned_bounded(bytes: Seq<u8>, max: nat)
    ensures
        spec_parse_unsigned(bytes, max) matches Ok(n) ==> n <= max,
{
    if bytes.len() > 0 {
        lemma_parse_digits_bounded(bytes.drop_first(), 0, max);
        lemma_parse_digits_bounded(bytes, 0, max);
    }
}

/// Parses `value` as an unsigned decimal number no greater than `max`.
pub fn parse_unsigned(value: &str, max: u64) -> (result: Result<u64, IntErrorKind>)
    ensures
        match spec_parse_unsigned(value.spec_bytes(), max as nat) {
            Ok(n) => n <= max && result == Ok::<u64, IntErrorKind>(n as u64),
            Err(e) => result == Err::<u64, IntErrorKind>(e),
        },
{
    let bytes = value.as_bytes();
    let len = bytes.len();
    if len == 0 {
        return Err(IntErrorKind::Empty);
    }
    let first = bytes[0];
    if (first == 43 || first == 45) && len == 1 {
        return Err(IntErrorKind::InvalidDigit);
    }
    let start: usize = if first == 43 {
        1
    } else {
        0
    };
    proof {
        if first == 43 {
            assert(bytes@.subrange(1, len as int) =~= bytes@.drop_first());
        } else {
            assert(bytes@.subrange(0, len as int) =~= bytes@);
        }
    }
    let mut acc: u64 = 0;
    let mut i: usize = start;
    while i < len
        invariant
            bytes@ == value.spec_bytes(),
            len == bytes@.len(),
            start <= i <= len,
            acc <= max,
            spec_parse_unsigned(bytes@, max as nat) == spec_parse_digits(
                bytes@.subrange(i as int, len as int),
                acc as nat,
                max as nat,
            ),
        decreases len - i,
    {
        let b = bytes[i];
        assert(bytes@.subrange(i as int, len as int)[0] == b);
        if b < 48 || b > 57 {
            return Err(IntErrorKind::InvalidDigit);
        }
        let next: u128 = (acc as u128) * 10 + ((b - 48) as u128);
        if next > max as u128 {
            return Err(IntErrorKind::PosOverflow);
        }
        proof {
            assert(bytes@.subrange(i as int, len as int).drop_first() =~= bytes@.subrange(
                i + 1,
                len as int,
            ));
        }
        acc = next as u64;
        i = i + 1;
    }
    proof {
        assert(bytes@.subrange(len as int, len as int).len() == 0);
    }
    Ok(acc)
}

/// Parses `value` as a `u64`.
pub fn parse_u64(value: &str) -> (result: Result<u64, IntErrorKind>)
    ensures
        match spec_parse_unsigned(value.spec_bytes(), u64::MAX as nat) {
            Ok(n) => n <= u64::MAX && result == Ok::<u64, IntErrorKind>(n as u64),
            Err(e) => result == Err::<u64, IntErrorKind>(e),
        },
{
    parse_unsigned(value, u64::MAX)
}

/// Parses `value` as a `u32`.
pub fn parse_u32(value: &str) -> (result: Result<u32, IntErrorKind>)
    ensures
        match spec_parse_unsigned(value.spec_bytes(), u32::MAX as nat) {
            Ok(n) => n <= u32::MAX && result == Ok::<u32, IntErrorKind>(n as u32),
            Err(e) => result == Err::<u32, IntErrorKind>(e),
        },
{
    match parse_unsigned(value, u32::MAX as u64) {
        Ok(n) => Ok(n as u32),
        Err(e) => Err(e),
    }
}

/// Parses `value` as a `usize`.
pub fn parse_usize(value: &str) -> (result: Result<usize, IntErrorKind>)
    ensures
        match spec_parse_unsigned(value.spec_bytes(), usize::MAX as nat) {
            Ok(n) => n <= usize::MAX && result == Ok::<usize, IntErrorKind>(n as usize),
            Err(e) => result == Err::<usize, IntErrorKind>(e),
        },
{
    match parse_unsigned(value, usize::MAX as u64) {
        Ok(n) => Ok(n as usize),
        Err(e) => Err(e),
    }
}

/// The character of decimal digit `d`.
pub open spec fn spec_digit_char(d: nat) -> char {
    ((d + 48) as u32) as char
}

/// The decimal spelling of `n`, without leading zeros.
pub open spec fn spec_decimal(n: nat) -> Seq<char>
    decreases n,
{
    if n < 10 {
        seq![spec_digit_char(n)]
    } else {
        spec_decimal(n / 10) + seq![spec_digit_char(n % 10)]
    }
}

/// The decimal spelling of a signed number: a `-` before a negative one.
pub open spec fn spec_signed_decimal(v: int) -> Seq<char> {
    if v < 0 {
        seq!['-'] + spec_decimal((-v) as nat)
    } else {
        spec_decimal(v as nat)
    }
}

/// The text of decimal digit `d`.
fn digit_text(d: u64) -> (text: &'static str)
    requires
        d < 10,
    ensures
        text@ == seq![spec_digit_char(d as nat)],
{
    proof {
        reveal_strlit("0");
        reveal_strlit("1");
        reveal_strlit("2");
        reveal_strlit("3");
        reveal_strlit("4");
        reveal_strlit("5");
        reveal_strlit("6");
        reveal_strlit("7");
        reveal_strlit("8");
        reveal_strlit("9");
    }
    let text = match d {
        0 => "0",
        1 => "1",
        2 => "2",
        3 => "3",
        4 => "4",
        5 => "5",
        6 => "6",
        7 => "7",
        8 => "8",
        _ => "9",
    };
    assert(text@ =~= seq![spec_digit_char(d as nat)]);
    text
}

/// Spells `n` in decimal.
pub fn format_u64(n: u64) -> (text: String)
    ensures
        text@ == spec_decimal(n as nat),
    decreases n,
{
    if n < 10 {
        String::from_str(digit_text(n))
    } else {
        let mut text = format_u64(n / 10);
        text.append(digit_text(n % 10));
        text
    }
}

/// Spells a signed number in decimal.
pub fn format_i64(v: i64) -> (text: String)
    ensures
        text@ == spec_signed_decimal(v as int),
{
    if v < 0 {
        let magnitude: u64 = if v == i64::MIN {
            9223372036854775808
        } else {
            (-v) as u64
        };
        let mut text = String::from_str("-");
        proof {
            reveal_strlit("-");
        }
        text.append(format_u64(magnitude).as_str());
        text
    } else {
        format_u64(v as u64)
    }
}

/// The decimal spelling of `n` as bytes.
pub open spec fn spec_decimal_bytes(n: nat) -> Seq<u8>
    decreases n,
{
    if n < 10 {
        seq![(n + 48) as u8]
    } else {
        spec_decimal_bytes(n / 10).push((n % 10 + 48) as u8)
    }
}

/// The decimal spelling is ASCII, and its UTF-8 encoding is its bytes.
pub proof fn lemma_decimal_encoding(n: nat)
    ensures
        is_ascii_chars(spec_decimal(n)),
        encode_utf8(spec_decimal(n)) == spec_decimal_bytes(n),
    decreases n,
{
    if n >= 10 {
        lemma_decimal_encoding(n / 10);
        assert(is_ascii_chars(spec_decimal(n)));
    } else {
        assert(is_ascii_chars(spec_decimal(n)));
    }
    is_ascii_chars_encode_utf8(spec_decimal(n));
    lemma_decimal_bytes_len(n);
    lemma_decimal_len(n);
    assert forall|i: int| 0 <= i < spec_decimal(n).len() implies spec_decimal(n)[i] as u8 == spec_decimal_bytes(n)[i] by {
        lemma_decimal_chars_bytes(n, i);
    }
    assert(encode_utf8(spec_decimal(n)) =~= spec_decimal_bytes(n));
}

proof fn lemma_decimal_len(n: nat)
    ensures
        spec_decimal(n).len() >= 1,
    decreases n,
{
    if n >= 10 {
        lemma_decimal_len(n / 10);
    }
}

proof fn lemma_decimal_bytes_len(n: nat)
    ensures
        spec_decimal_bytes(n).len() == spec_decimal(n).len(),
    decreases n,
{
    if n >= 10 {
        lemma_decimal_bytes_len(n / 10);
    }
}

proof fn lemma_decimal_chars_bytes(n: nat, i: int)
    requires
        0 <= i < spec_decimal(n).len(),
    ensures
        spec_decimal(n)[i] as u8 == spec_decimal_bytes(n)[i],
        is_ascii_digit(spec_decimal_bytes(n)[i]),
    decreases n,
{
    lemma_decimal_bytes_len(n);
    if n >= 10 {
        lemma_decimal_bytes_len(n / 10);
        if i < spec_decimal(n / 10).len() {
            lemma_decimal_chars_bytes(n / 10, i);
        }
    }
}

/// Reading digits after a prefix continues from what the prefix gave.
proof fn lemma_parse_digits_push(digits: Seq<u8>, b: u8, acc: nat, max: nat)
    ensures
        spec_parse_digits(digits.push(b), acc, max) == match spec_parse_digits(digits, acc, max) {
            Ok(v) => spec_parse_digits(seq![b], v, max),
            Err(e) => Err(e),
        },
    decreases digits.len(),
{
    if digits.len() == 0 {
        assert(digits.push(b) =~= seq![b]);
    } else {
        assert(digits.push(b).drop_first() =~= digits.drop_first().push(b));
        if is_ascii_digit(digits[0]) && acc * 10 + (digits[0] - 48) <= max {
            lemma_parse_digits_push(digits.drop_first(), b, (acc * 10 + (digits[0] - 48)) as nat, max);
        }
    }
}

proof fn lemma_parse_decimal_bytes(n: nat, max: nat)
    requires
        n <= max,
    ensures
        spec_parse_digits(spec_decimal_bytes(n), 0, max) == Ok::<nat, IntErrorKind>(n),
    decreases n,
{
    if n < 10 {
        assert(seq![(n + 48) as u8].drop_first() =~= Seq::<u8>::empty());
    } else {
        lemma_parse_decimal_bytes(n / 10, max);
        lemma_parse_digits_push(spec_decimal_bytes(n / 10), (n % 10 + 48) as u8, 0, max);
        let d = (n % 10 + 48) as u8;
        assert(seq![d].drop_first() =~= Seq::<u8>::empty());
        assert(d == n % 10 + 48);
        assert((n / 10) * 10 + n % 10 == n);
        assert(seq![d][0] == d);
        assert(spec_parse_digits(seq![d], n / 10, max) == spec_parse_digits(Seq::<u8>::empty(), n, max));
    }
}

/// Parsing the decimal spelling of a number gives the number back.
pub proof fn lemma_parse_decimal(n: nat, max: nat)
    requires
        n <= max,
    ensures
        spec_parse_unsigned(encode_utf8(spec_decimal(n)), max) == Ok::<nat, IntErrorKind>(n),
{
    lemma_decimal_encoding(n);
    lemma_decimal_len(n);
    lemma_decimal_bytes_len(n);
    lemma_decimal_chars_bytes(n, 0);
    lemma_parse_decimal_bytes(n, max);
}

} // verus!
