//! Reading a disk-usage measurement out of the size tool's output.
//!
//! The tool prints one line, `<size>\t<path>`. Only the bytes before the first
//! tab are read; whatever follows is ignored.

use crate::error::MeasurementError;
use vstd::prelude::*;
use vstd::slice::slice_subrange;

verus! {

/// The byte that ends the size field (a horizontal tab).
pub const FIELD_SEPARATOR: u8 = 0x09;

/// ASCII `+`.
pub const PLUS: u8 = 0x2b;

/// ASCII `-`.
pub const MINUS: u8 = 0x2d;

/// ASCII `0`.
pub const ZERO: u8 = 0x30;

/// ASCII `9`.
pub const NINE: u8 = 0x39;

/// `i` is the position of the first `needle` in `haystack`.
pub open spec fn is_first_occurrence(haystack: Seq<u8>, needle: u8, i: int) -> bool {
    &&& 0 <= i < haystack.len()
    &&& haystack[i] == needle
    &&& forall|j: int| 0 <= j < i ==> haystack[j] != needle
}

/// `needle` occurs nowhere in `haystack`.
pub open spec fn is_absent(haystack: Seq<u8>, needle: u8) -> bool {
    forall|j: int| 0 <= j < haystack.len() ==> haystack[j] != needle
}

/// `memchr::memchr` returns the index of the first occurrence of `needle` in
/// `haystack`, or `None` when the byte does not occur.
pub assume_specification[ memchr::memchr ](needle: u8, haystack: &[u8]) -> (found: Option<usize>)
    ensures
        match found {
            Some(i) => is_first_occurrence(haystack@, needle, i as int),
            None => is_absent(haystack@, needle),
        },
;

/// The size field of the tool's output: the bytes before the first separator,
/// or `None` when the output holds no separator.
pub open spec fn size_field(output: Seq<u8>) -> Option<Seq<u8>> {
    if exists|i: int| is_first_occurrence(output, FIELD_SEPARATOR, i) {
        Some(output.take(choose|i: int| is_first_occurrence(output, FIELD_SEPARATOR, i)))
    } else {
        None
    }
}

/// `b` is an ASCII decimal digit.
pub open spec fn is_digit(b: u8) -> bool {
    ZERO <= b <= NINE
}

/// `s` is a non-empty run of ASCII decimal digits.
pub open spec fn is_digits(s: Seq<u8>) -> bool {
    &&& s.len() > 0
    &&& forall|i: int| 0 <= i < s.len() ==> is_digit(#[trigger] s[i])
}

/// The number that a run of decimal digits denotes, most significant digit first.
pub open spec fn digits_value(digits: Seq<u8>) -> nat
    decreases digits.len(),
{
    if digits.len() == 0 {
        0
    } else {
        10 * digits_value(digits.drop_last()) + (digits.last() - ZERO) as nat
    }
}

/// The integer that `field` denotes: an optional `+` or `-` followed by one or
/// more decimal digits. `None` for anything else.
pub open spec fn decimal_value(field: Seq<u8>) -> Option<int> {
    if field.len() > 0 && field[0] == MINUS {
        if is_digits(field.drop_first()) {
            Some(-(digits_value(field.drop_first()) as int))
        } else {
            None
        }
    } else if field.len() > 0 && field[0] == PLUS {
        if is_digits(field.drop_first()) {
            Some(digits_value(field.drop_first()) as int)
        } else {
            None
        }
    } else if is_digits(field) {
        Some(digits_value(field) as int)
    } else {
        None
    }
}

/// What the size field yields: its value when it is a decimal integer that
/// fits `isize`, and the reason otherwise.
pub open spec fn field_reading(field: Seq<u8>) -> Result<isize, MeasurementError> {
    match decimal_value(field) {
        None => Err(MeasurementError::InvalidSize),
        Some(v) => if isize::MIN <= v <= isize::MAX {
            Ok(v as isize)
        } else {
            Err(MeasurementError::OutOfRange)
        },
    }
}

/// What the tool's output yields: the reading of its size field, or
/// `MissingSeparator` when there is no such field.
pub open spec fn reading(output: Seq<u8>) -> Result<isize, MeasurementError> {
    match size_field(output) {
        None => Err(MeasurementError::MissingSeparator),
        Some(field) => field_reading(field),
    }
}

/// Output that holds no separator yields no measurement.
pub proof fn output_without_separator_is_rejected(output: Seq<u8>)
    requires
        is_absent(output, FIELD_SEPARATOR),
    ensures
        reading(output) == Err::<isize, MeasurementError>(MeasurementError::MissingSeparator),
{
}

/// Only the bytes before the first separator are read: whatever follows it
/// has no part in the measurement.
pub proof fn bytes_after_separator_are_ignored(field: Seq<u8>, rest: Seq<u8>)
    requires
        is_absent(field, FIELD_SEPARATOR),
    ensures
        size_field(field.push(FIELD_SEPARATOR) + rest) == Some(field),
        reading(field.push(FIELD_SEPARATOR) + rest) == field_reading(field),
{
    let output = field.push(FIELD_SEPARATOR) + rest;
    let end = field.len() as int;
    assert(is_first_occurrence(output, FIELD_SEPARATOR, end));
    assert(output.take(end) =~= field);
}

/// Appending digits never makes the denoted number smaller.
pub proof fn prefix_denotes_no_more(digits: Seq<u8>, k: int)
    requires
        0 <= k <= digits.len(),
    ensures
        digits_value(digits.take(k)) <= digits_value(digits),
    decreases digits.len(),
{
    if k == digits.len() {
        assert(digits.take(k) =~= digits);
    } else {
        prefix_denotes_no_more(digits.drop_last(), k);
        assert(digits.drop_last().take(k) =~= digits.take(k));
    }
}

/// Tells whether the bytes of `field` from `start` on are all decimal digits.
fn digits_from(field: &[u8], start: usize) -> (ok: bool)
    requires
        start <= field@.len(),
    ensures
        ok == (forall|j: int| start <= j < field@.len() ==> is_digit(#[trigger] field@[j])),
{
    let n = field.len();
    let mut i: usize = start;
    while i < n
        invariant
            start <= i <= n,
            n == field@.len(),
            forall|j: int| start <= j < i ==> is_digit(#[trigger] field@[j]),
        decreases n - i,
    {
        if field[i] < ZERO || field[i] > NINE {
            return false;
        }
        i += 1;
    }
    true
}

/// The number that the digits of `field` from `start` on denote, negated when
/// `negative`; `None` when it does not fit `isize`.
fn signed_value(field: &[u8], start: usize, negative: bool) -> (value: Option<isize>)
    requires
        start <= field@.len(),
        forall|j: int| start <= j < field@.len() ==> is_digit(#[trigger] field@[j]),
    ensures
        ({
            let magnitude = digits_value(field@.skip(start as int)) as int;
            let v = if negative { -magnitude } else { magnitude };
            value == if isize::MIN <= v <= isize::MAX { Some(v as isize) } else { None }
        }),
{
    let n = field.len();
    let ghost digits = field@.skip(start as int);
    let mut value: isize = 0;
    let mut i: usize = start;
    while i < n
        invariant
            start <= i <= n,
            n == field@.len(),
            digits == field@.skip(start as int),
            forall|j: int| start <= j < n ==> is_digit(#[trigger] field@[j]),
            negative ==> value == -(digits_value(digits.take(i - start)) as int),
            !negative ==> value == digits_value(digits.take(i - start)) as int,
        decreases n - i,
    {
        proof {
            let next = digits.take(i - start + 1);
            assert(next.drop_last() =~= digits.take(i - start));
            prefix_denotes_no_more(digits, i - start + 1);
        }
        let digit: isize = (field[i] - ZERO) as isize;
        let stepped = match value.checked_mul(10) {
            None => None,
            Some(scaled) => if negative {
                scaled.checked_sub(digit)
            } else {
                scaled.checked_add(digit)
            },
        };
        match stepped {
            None => {
                return None;
            },
            Some(v) => {
                value = v;
            },
        }
        i += 1;
    }
    assert(digits.take(n - start) =~= digits);
    Some(value)
}

/// Reads the size field `field` as a decimal integer.
pub fn parse_size_field(field: &[u8]) -> (result: Result<isize, MeasurementError>)
    ensures
        result == field_reading(field@),
{
    if field.len() == 0 {
        return Err(MeasurementError::InvalidSize);
    }
    let negative = field[0] == MINUS;
    let start: usize = if field[0] == MINUS || field[0] == PLUS { 1 } else { 0 };
    let ghost digits = field@.skip(start as int);
    assert(start == 0 ==> digits =~= field@);
    if start == field.len() || !digits_from(field, start) {
        assert(!is_digits(digits)) by {
            if is_digits(digits) {
                assert forall|j: int| start <= j < field@.len() implies is_digit(
                    #[trigger] field@[j],
                ) by {
                    assert(is_digit(digits[j - start]));
                }
            }
        }
        return Err(MeasurementError::InvalidSize);
    }
    match signed_value(field, start, negative) {
        Some(value) => Ok(value),
        None => Err(MeasurementError::OutOfRange),
    }
}

/// Reads the measurement out of the size tool's output: the decimal integer
/// before the first tab.
pub fn parse_disk_usage(output: &[u8]) -> (result: Result<isize, MeasurementError>)
    ensures
        result == reading(output@),
{
    match memchr::memchr(FIELD_SEPARATOR, output) {
        None => Err(MeasurementError::MissingSeparator),
        Some(end) => {
            parse_size_field(slice_subrange(output, 0, end))
        },
    }
}

} // verus!
