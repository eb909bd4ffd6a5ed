//! Decimal numbers in text.

use vstd::prelude::*;

use crate::text::string_of;

verus! {

/// Whether `c` is one of the ten ASCII digits.
pub open spec fn is_digit(c: char) -> bool {
    0x30 <= c as u32 <= 0x39
}

/// The number that the digit `c` stands for; zero for any other character.
pub open spec fn digit_of(c: char) -> nat {
    if is_digit(c) {
        (c as u32 - 0x30) as nat
    } else {
        0
    }
}

/// Whether `text` holds digits only.
pub open spec fn all_digits(text: Seq<char>) -> bool {
    forall|i: int| 0 <= i < text.len() ==> is_digit(#[trigger] text[i])
}

/// The number that a run of digits stands for, read in base ten.
pub open spec fn digits_value(digits: Seq<char>) -> nat
    decreases digits.len(),
{
    if digits.len() == 0 {
        0
    } else {
        10 * digits_value(digits.drop_last()) + digit_of(digits.last())
    }
}

/// The number written by `digits`: one digit at least, and nothing else.
pub open spec fn magnitude(digits: Seq<char>) -> Option<nat> {
    if digits.len() > 0 && all_digits(digits) {
        Some(digits_value(digits))
    } else {
        None
    }
}

/// The number written by `text`: digits, with `+` allowed before them.
pub open spec fn unsigned_decimal(text: Seq<char>) -> Option<nat> {
    if text.len() > 0 && text[0] == '+' {
        magnitude(text.drop_first())
    } else {
        magnitude(text)
    }
}

/// The number written by `text`: digits, with `+` or `-` allowed before them.
pub open spec fn signed_decimal(text: Seq<char>) -> Option<int> {
    if text.len() > 0 && text[0] == '-' {
        match magnitude(text.drop_first()) {
            Some(n) => Some(-(n as int)),
            None => None,
        }
    } else {
        match unsigned_decimal(text) {
            Some(n) => Some(n as int),
            None => None,
        }
    }
}

/// The `u32` written by `text`, if it writes a number that fits.
pub open spec fn decimal_u32(text: Seq<char>) -> Option<u32> {
    match unsigned_decimal(text) {
        Some(n) => if n <= u32::MAX {
            Some(n as u32)
        } else {
            None
        },
        None => None,
    }
}

/// The `usize` written by `text`, if it writes a number that fits.
pub open spec fn decimal_usize(text: Seq<char>) -> Option<usize> {
    match unsigned_decimal(text) {
        Some(n) => if n <= usize::MAX {
            Some(n as usize)
        } else {
            None
        },
        None => None,
    }
}

/// The `isize` written by `text`, if it writes a number that fits.
pub open spec fn decimal_isize(text: Seq<char>) -> Option<isize> {
    match signed_decimal(text) {
        Some(n) => if isize::MIN <= n <= isize::MAX {
            Some(n as isize)
        } else {
            None
        },
        None => None,
    }
}

/// The number written by `digits` where it is at most `limit`.
pub open spec fn magnitude_within(digits: Seq<char>, limit: nat) -> Option<nat> {
    match magnitude(digits) {
        Some(n) => if n <= limit {
            Some(n)
        } else {
            None
        },
        None => None,
    }
}

/// Reading one digit more multiplies by ten and adds the digit.
pub proof fn digits_value_step(digits: Seq<char>, k: int)
    requires
        0 <= k < digits.len(),
    ensures
        digits_value(digits.take(k + 1)) == 10 * digits_value(digits.take(k)) + digit_of(
            digits[k],
        ),
{
    assert(digits.take(k + 1).drop_last() =~= digits.take(k));
}

/// A number never gets smaller by reading more digits.
pub proof fn digits_value_grows(digits: Seq<char>, k: int)
    requires
        0 <= k <= digits.len(),
    ensures
        digits_value(digits.take(k)) <= digits_value(digits),
    decreases digits.len() - k,
{
    if k < digits.len() {
        digits_value_step(digits, k);
        digits_value_grows(digits, k + 1);
    } else {
        assert(digits.take(k) =~= digits);
    }
}

/// Reads the digits of `text` from `from` on as a number of at most `limit`.
fn parse_magnitude(text: &[char], from: usize, limit: u64) -> (number: Option<u64>)
    requires
        from <= text@.len(),
    ensures
        match number {
            Some(n) => magnitude_within(
                text@.subrange(from as int, text@.len() as int),
                limit as nat,
            ) == Some(n as nat),
            None => magnitude_within(
                text@.subrange(from as int, text@.len() as int),
                limit as nat,
            ) is None,
        },
{
    let len = text.len();
    if from == len {
        return None;
    }
    let ghost digits = text@.subrange(from as int, len as int);
    let mut value: u64 = 0;
    let mut at: usize = from;
    assert(digits.take(0) =~= Seq::<char>::empty());
    while at < len
        invariant
            from <= at <= len == text@.len(),
            digits == text@.subrange(from as int, len as int),
            all_digits(digits.take(at - from)),
            value == digits_value(digits.take(at - from)),
            value <= limit,
        decreases len - at,
    {
        let c = text[at];
        let code: u32 = c as u32;
        assert(digits[at - from] == c);
        if code < 0x30 || code > 0x39 {
            return None;
        }
        let digit: u64 = (code - 0x30) as u64;
        proof {
            digits_value_step(digits, at - from);
            digits_value_grows(digits, at - from + 1);
        }
        if value > limit / 10 || (value == limit / 10 && digit > limit % 10) {
            return None;
        }
        value = 10 * value + digit;
        assert(all_digits(digits.take(at - from + 1))) by {
            assert forall|i: int| 0 <= i < at - from + 1 implies is_digit(
                #[trigger] digits.take(at - from + 1)[i],
            ) by {
                if i < at - from {
                    assert(digits.take(at - from)[i] == digits[i]);
                }
            }
        }
        at += 1;
    }
    assert(digits.take(len - from) =~= digits);
    Some(value)
}

/// Where the digits of an unsigned number start: after a `+`, if there is one.
fn digits_start(text: &[char]) -> (from: usize)
    ensures
        from <= text@.len(),
        from == (if text@.len() > 0 && text@[0] == '+' { 1int } else { 0int }),
{
    if text.len() > 0 && text[0] == '+' {
        1
    } else {
        0
    }
}

/// Reads `text` as a `u32`.
pub fn parse_u32(text: &[char]) -> (number: Option<u32>)
    ensures
        number == decimal_u32(text@),
{
    let from = digits_start(text);
    proof {
        assert(text@.subrange(0, text@.len() as int) =~= text@);
    }
    match parse_magnitude(text, from, 0xffff_ffff) {
        Some(n) => Some(n as u32),
        None => None,
    }
}

/// Reads `text` as a `usize`.
pub fn parse_usize(text: &[char]) -> (number: Option<usize>)
    ensures
        number == decimal_usize(text@),
{
    let from = digits_start(text);
    proof {
        assert(text@.subrange(0, text@.len() as int) =~= text@);
    }
    match parse_magnitude(text, from, usize::MAX as u64) {
        Some(n) => Some(n as usize),
        None => None,
    }
}

/// Reads `text` as an `isize`.
pub fn parse_isize(text: &[char]) -> (number: Option<isize>)
    ensures
        number == decimal_isize(text@),
{
    proof {
        assert(text@.subrange(0, text@.len() as int) =~= text@);
    }
    if text.len() > 0 && text[0] == '-' {
        let most: u64 = isize::MAX as u64 + 1;
        match parse_magnitude(text, 1, most) {
            Some(n) => if n == most {
                Some(isize::MIN)
            } else {
                Some(-(n as isize))
            },
            None => None,
        }
    } else {
        let from = digits_start(text);
        match parse_magnitude(text, from, isize::MAX as u64) {
            Some(n) => Some(n as isize),
            None => None,
        }
    }
}

/// The character that writes the digit `d`.
pub open spec fn digit_char(d: nat) -> char {
    ((0x30 + d) as u8) as char
}

/// `n` written in base ten, without a sign and without leading zeros.
pub open spec fn decimal_of(n: nat) -> Seq<char>
    decreases n,
{
    if n < 10 {
        seq![digit_char(n)]
    } else {
        decimal_of(n / 10).push(digit_char(n % 10))
    }
}

/// What is written in base ten is digits only, and reads back as the number
/// that was written.
pub proof fn decimal_reads_back(n: nat)
    ensures
        decimal_of(n).len() > 0,
        all_digits(decimal_of(n)),
        digits_value(decimal_of(n)) == n,
        unsigned_decimal(decimal_of(n)) == Some(n),
        signed_decimal(decimal_of(n)) == Some(n as int),
    decreases n,
{
    let text = decimal_of(n);
    if n < 10 {
        assert(text.drop_last() =~= Seq::<char>::empty());
        assert(digits_value(text.drop_last()) == 0);
        assert(digit_of(text.last()) == n);
    } else {
        decimal_reads_back(n / 10);
        let front = decimal_of(n / 10);
        assert(text.drop_last() =~= front);
        assert(digit_of(text.last()) == n % 10);
        assert forall|i: int| 0 <= i < text.len() implies is_digit(#[trigger] text[i]) by {
            if i < front.len() {
                assert(text[i] == front[i]);
            }
        }
    }
    assert(is_digit(text[0]));
    assert(text[0] != '+' && text[0] != '-');
}

/// An id written in base ten reads back as that id.
pub proof fn decimal_u32_reads_back(n: u32)
    ensures
        decimal_u32(decimal_of(n as nat)) == Some(n),
{
    decimal_reads_back(n as nat);
}

/// Appends the decimal digits of `n` to `digits`.
fn push_decimal(n: u32, digits: &mut Vec<char>)
    ensures
        final(digits)@ == old(digits)@ + decimal_of(n as nat),
    decreases n,
{
    if n >= 10 {
        push_decimal(n / 10, digits);
    }
    let d: u8 = (n % 10) as u8;
    digits.push((0x30 + d) as char);
    assert(digits@ =~= old(digits)@ + decimal_of(n as nat));
}

/// `n` written in base ten.
pub fn decimal(n: u32) -> (text: String)
    ensures
        text@ == decimal_of(n as nat),
{
    let mut digits: Vec<char> = Vec::new();
    push_decimal(n, &mut digits);
    assert(digits@ =~= decimal_of(n as nat));
    string_of(digits.as_slice())
}

} // verus!
