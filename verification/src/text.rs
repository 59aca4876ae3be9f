//! Shared validation and formatting helpers: character classes, decimal
//! rendering of integers and amounts, and calendar-date validation.

use vstd::prelude::*;
use vstd::string::StrSliceExecFns;
use vstd::string::StringExecFns;

verus! {

/// An ASCII decimal digit.
pub open spec fn is_digit_char(c: char) -> bool {
    48 <= c as u32 <= 57
}

/// An ASCII uppercase letter.
pub open spec fn is_upper_char(c: char) -> bool {
    65 <= c as u32 <= 90
}

/// Every character is an ASCII decimal digit.
pub open spec fn all_digits(s: Seq<char>) -> bool {
    forall|i: int| 0 <= i < s.len() ==> is_digit_char(#[trigger] s[i])
}

/// Digits only, at most `max` of them (the `[0-9]{0,max}` contract).
pub open spec fn digits_max(s: Seq<char>, max: int) -> bool {
    all_digits(s) && s.len() <= max
}

/// Free-form text of at most `max` characters, none of them a line break
/// (the `.{0,max}` contract: `.` never matches a line break).
pub open spec fn text_max(s: Seq<char>, max: int) -> bool {
    s.len() <= max && forall|i: int| 0 <= i < s.len() ==> #[trigger] s[i] != '\n'
}

/// The IBAN contract `[A-Z]{2}[0-9]{2}[A-Z0-9]{0,30}`, whole string.
pub open spec fn iban_ok(s: Seq<char>) -> bool {
    &&& 4 <= s.len() <= 34
    &&& is_upper_char(s[0])
    &&& is_upper_char(s[1])
    &&& is_digit_char(s[2])
    &&& is_digit_char(s[3])
    &&& forall|i: int| 4 <= i < s.len() ==> is_upper_char(#[trigger] s[i]) || is_digit_char(s[i])
}

/// The BIC contract `[A-Z]{4}[A-Z]{2}[A-Z0-9]{2}([A-Z0-9]{3})?`, whole string.
pub open spec fn bic_ok(s: Seq<char>) -> bool {
    &&& (s.len() == 8 || s.len() == 11)
    &&& forall|i: int| 0 <= i < 6 ==> is_upper_char(#[trigger] s[i])
    &&& forall|i: int| 6 <= i < s.len() ==> is_upper_char(#[trigger] s[i]) || is_digit_char(s[i])
}

/// Three consecutive uppercase letters occur somewhere in the string: the
/// currency-code contract `[A-Z]{3}` is deliberately left unanchored.
pub open spec fn has_three_upper(s: Seq<char>) -> bool {
    exists|i: int|
        0 <= i && i + 3 <= s.len() && is_upper_char(#[trigger] s[i]) && is_upper_char(s[i + 1])
            && is_upper_char(s[i + 2])
}

/// Whether two string slices hold the same character sequence.
pub fn str_equal(a: &str, b: &str) -> (r: bool)
    ensures
        r == (a@ == b@),
{
    let a_len = a.unicode_len();
    let b_len = b.unicode_len();
    if a_len != b_len {
        return false;
    }
    for i in 0..a_len
        invariant
            a_len == a@.len(),
            a_len == b@.len(),
            forall|j: int| 0 <= j < i ==> a@[j] == b@[j],
    {
        if a.get_char(i) != b.get_char(i) {
            return false;
        }
    }
    proof {
        assert(a@ =~= b@);
    }
    true
}

/// The decimal digit character for a value in 0..10.
pub open spec fn digit_char(n: int) -> char {
    if n == 0 {
        '0'
    } else if n == 1 {
        '1'
    } else if n == 2 {
        '2'
    } else if n == 3 {
        '3'
    } else if n == 4 {
        '4'
    } else if n == 5 {
        '5'
    } else if n == 6 {
        '6'
    } else if n == 7 {
        '7'
    } else if n == 8 {
        '8'
    } else {
        '9'
    }
}

/// The shortest decimal rendering of a natural number, most significant
/// digit first.
pub open spec fn dec_digits(n: nat) -> Seq<char>
    decreases n,
{
    if n < 10 {
        seq![digit_char(n as int)]
    } else {
        dec_digits(n / 10).push(digit_char((n % 10) as int))
    }
}

/// The one-character string slice for a digit value.
fn digit_str(d: u64) -> (s: &'static str)
    requires
        d < 10,
    ensures
        s@ == seq![digit_char(d as int)],
{
    let s = match d {
        0 => "0",
        1 => "1",
        2 => "2",
        3 => "3",
        4 => "4",
        5 => "5",
        6 => "6",
        7 => "7",
        8 => "8",
        _ => "9",
    };
    proof {
        reveal_strlit("0");
        reveal_strlit("1");
        reveal_strlit("2");
        reveal_strlit("3");
        reveal_strlit("4");
        reveal_strlit("5");
        reveal_strlit("6");
        reveal_strlit("7");
        reveal_strlit("8");
        reveal_strlit("9");
        assert(s@ =~= seq![digit_char(d as int)]);
    }
    s
}

/// Renders a natural number in shortest decimal form.
pub fn u64_to_dec(n: u64) -> (s: String)
    ensures
        s@ == dec_digits(n as nat),
    decreases n,
{
    if n < 10 {
        String::from_str(digit_str(n))
    } else {
        let mut s = u64_to_dec(n / 10);
        s.append(digit_str(n % 10));
        proof {
            assert(s@ =~= dec_digits(n as nat));
        }
        s
    }
}

/// A leap year of the proleptic Gregorian calendar.
pub open spec fn is_leap_year(y: int) -> bool {
    (y % 4 == 0 && y % 100 != 0) || y % 400 == 0
}

/// How many days the given month of the given year has.
pub open spec fn days_in_month(y: int, m: int) -> int {
    if m == 2 {
        if is_leap_year(y) {
            29
        } else {
            28
        }
    } else if m == 4 || m == 6 || m == 9 || m == 11 {
        30
    } else {
        31
    }
}

/// The numeric value of an ASCII decimal digit character.
pub open spec fn digit_val(c: char) -> int {
    c as u32 - 48
}

/// The compact date shape `YYYYMMDD`: exactly eight digits.
pub open spec fn compact_date_shape(s: Seq<char>) -> bool {
    s.len() == 8 && all_digits(s)
}

/// The dashed date shape `YYYY-MM-DD`.
pub open spec fn dashed_date_shape(s: Seq<char>) -> bool {
    &&& s.len() == 10
    &&& s[4] == '-'
    &&& s[7] == '-'
    &&& is_digit_char(s[0])
    &&& is_digit_char(s[1])
    &&& is_digit_char(s[2])
    &&& is_digit_char(s[3])
    &&& is_digit_char(s[5])
    &&& is_digit_char(s[6])
    &&& is_digit_char(s[8])
    &&& is_digit_char(s[9])
}

/// The year of a compact `YYYYMMDD` character sequence.
pub open spec fn compact_year(s: Seq<char>) -> int {
    1000 * digit_val(s[0]) + 100 * digit_val(s[1]) + 10 * digit_val(s[2]) + digit_val(s[3])
}

/// The month of a compact `YYYYMMDD` character sequence.
pub open spec fn compact_month(s: Seq<char>) -> int {
    10 * digit_val(s[4]) + digit_val(s[5])
}

/// The day of a compact `YYYYMMDD` character sequence.
pub open spec fn compact_day(s: Seq<char>) -> int {
    10 * digit_val(s[6]) + digit_val(s[7])
}

/// A compact `YYYYMMDD` sequence names a valid calendar date.
pub open spec fn calendar_ok(s: Seq<char>) -> bool {
    &&& 1 <= compact_month(s) <= 12
    &&& 1 <= compact_day(s) <= days_in_month(compact_year(s), compact_month(s))
}

/// The compact form of an accepted date: a dashed date with its dashes
/// removed, a compact date unchanged.
pub open spec fn normalized_date(s: Seq<char>) -> Seq<char> {
    if dashed_date_shape(s) {
        s.subrange(0, 4) + s.subrange(5, 7) + s.subrange(8, 10)
    } else {
        s
    }
}

/// An accepted due date: either textual shape, naming a valid calendar
/// date.
pub open spec fn due_date_ok(s: Seq<char>) -> bool {
    (dashed_date_shape(s) || compact_date_shape(s)) && calendar_ok(normalized_date(s))
}

/// Whether a character is an ASCII decimal digit.
fn is_digit(c: char) -> (r: bool)
    ensures
        r == is_digit_char(c),
{
    let u = c as u32;
    48 <= u && u <= 57
}

/// The numeric value of an ASCII decimal digit character.
fn digit_value(c: char) -> (r: u32)
    requires
        is_digit_char(c),
    ensures
        r == digit_val(c),
{
    c as u32 - 48
}

/// Whether the year/month/day triple names a valid calendar date.
fn date_fields_ok(y: u32, m: u32, d: u32) -> (r: bool)
    ensures
        r == (1 <= m <= 12 && 1 <= d <= days_in_month(y as int, m as int)),
{
    if m < 1 || m > 12 {
        return false;
    }
    let leap = (y % 4 == 0 && y % 100 != 0) || y % 400 == 0;
    let max_day: u32 = if m == 2 {
        if leap {
            29
        } else {
            28
        }
    } else if m == 4 || m == 6 || m == 9 || m == 11 {
        30
    } else {
        31
    };
    1 <= d && d <= max_day
}

/// Validates a due date in either accepted shape (`YYYY-MM-DD` or
/// `YYYYMMDD`) against the calendar and returns it normalized to the
/// compact form; any other string is rejected as a date-format error.
pub fn as_valid_date(value: &String) -> (r: Result<String, crate::errors::EncodeError>)
    ensures
        r matches Ok(t) ==> due_date_ok(value@) && t@ == normalized_date(value@),
        r matches Err(e) ==> !due_date_ok(value@) && e == crate::errors::EncodeError::DateFormat,
{
    let s = value.as_str();
    let n = s.unicode_len();
    if n == 10 {
        if !(s.get_char(4) == '-' && s.get_char(7) == '-' && is_digit(s.get_char(0)) && is_digit(
            s.get_char(1),
        ) && is_digit(s.get_char(2)) && is_digit(s.get_char(3)) && is_digit(s.get_char(5))
            && is_digit(s.get_char(6)) && is_digit(s.get_char(8)) && is_digit(s.get_char(9))) {
            return Err(crate::errors::EncodeError::DateFormat);
        }
        let y = 1000 * digit_value(s.get_char(0)) + 100 * digit_value(s.get_char(1)) + 10
            * digit_value(s.get_char(2)) + digit_value(s.get_char(3));
        let m = 10 * digit_value(s.get_char(5)) + digit_value(s.get_char(6));
        let d = 10 * digit_value(s.get_char(8)) + digit_value(s.get_char(9));
        proof {
            assert(normalized_date(value@) == value@.subrange(0, 4) + value@.subrange(5, 7)
                + value@.subrange(8, 10));
            assert(compact_year(normalized_date(value@)) == y);
            assert(compact_month(normalized_date(value@)) == m);
            assert(compact_day(normalized_date(value@)) == d);
        }
        if !date_fields_ok(y, m, d) {
            return Err(crate::errors::EncodeError::DateFormat);
        }
        let mut out = String::new();
        out.append(s.substring_char(0, 4));
        out.append(s.substring_char(5, 7));
        out.append(s.substring_char(8, 10));
        proof {
            assert(out@ =~= normalized_date(value@));
        }
        Ok(out)
    } else if n == 8 {
        for i in 0..8usize
            invariant
                value@.len() == 8,
                s@ == value@,
                forall|j: int| 0 <= j < i ==> is_digit_char(#[trigger] value@[j]),
        {
            if !is_digit(s.get_char(i)) {
                return Err(crate::errors::EncodeError::DateFormat);
            }
        }
        let y = 1000 * digit_value(s.get_char(0)) + 100 * digit_value(s.get_char(1)) + 10
            * digit_value(s.get_char(2)) + digit_value(s.get_char(3));
        let m = 10 * digit_value(s.get_char(4)) + digit_value(s.get_char(5));
        let d = 10 * digit_value(s.get_char(6)) + digit_value(s.get_char(7));
        if !date_fields_ok(y, m, d) {
            return Err(crate::errors::EncodeError::DateFormat);
        }
        Ok(value.clone())
    } else {
        Err(crate::errors::EncodeError::DateFormat)
    }
}

/// The canonical minimal decimal text of an amount counted in hundredths:
/// at most two fraction digits, trailing zeros and a trailing separator
/// stripped.
pub open spec fn amount_chars(cents: nat) -> Seq<char> {
    let units = cents / 100;
    let frac = cents % 100;
    if frac == 0 {
        dec_digits(units)
    } else if frac % 10 == 0 {
        dec_digits(units) + seq!['.', digit_char((frac / 10) as int)]
    } else if frac < 10 {
        dec_digits(units) + seq!['.', '0', digit_char(frac as int)]
    } else {
        dec_digits(units) + seq!['.', digit_char((frac / 10) as int), digit_char((frac % 10) as int)]
    }
}

/// Renders an amount counted in hundredths as canonical minimal decimal
/// text: `10000` gives `100`, `190` gives `1.9`, `8` gives `0.08`.
pub fn as_decimal_str(cents: u64) -> (s: String)
    ensures
        s@ == amount_chars(cents as nat),
{
    let units = cents / 100;
    let frac = cents % 100;
    let mut s = u64_to_dec(units);
    if frac == 0 {
        return s;
    }
    s.append(".");
    proof {
        reveal_strlit(".");
    }
    if frac % 10 == 0 {
        s.append(digit_str(frac / 10));
    } else if frac < 10 {
        s.append(digit_str(0));
        s.append(digit_str(frac));
    } else {
        s.append(digit_str(frac / 10));
        s.append(digit_str(frac % 10));
    }
    proof {
        assert(s@ =~= amount_chars(cents as nat));
    }
    s
}

} // verus!
