//! Verified text formatting: zero-padded decimal numbers, weekday
//! abbreviations, row labels, and the paths and file names the HTTP shell
//! puts in responses.

use crate::date::{CalendarDate, Weekday};
use vstd::prelude::*;

verus! {

/// The decimal digit character for `d` in 0..=9.
pub open spec fn spec_digit_char(d: int) -> char {
    if d == 0 {
        '0'
    } else if d == 1 {
        '1'
    } else if d == 2 {
        '2'
    } else if d == 3 {
        '3'
    } else if d == 4 {
        '4'
    } else if d == 5 {
        '5'
    } else if d == 6 {
        '6'
    } else if d == 7 {
        '7'
    } else if d == 8 {
        '8'
    } else {
        '9'
    }
}

/// `n` written with exactly two decimal digits, zero padded.
pub open spec fn spec_two_digits(n: int) -> Seq<char> {
    seq![spec_digit_char(n / 10), spec_digit_char(n % 10)]
}

/// `n` written with exactly four decimal digits, zero padded.
pub open spec fn spec_four_digits(n: int) -> Seq<char> {
    seq![
        spec_digit_char(n / 1000),
        spec_digit_char((n / 100) % 10),
        spec_digit_char((n / 10) % 10),
        spec_digit_char(n % 10),
    ]
}

/// The decimal digit as a one-character string slice.
pub fn digit_str(d: u8) -> (s: &'static str)
    requires
        d < 10,
    ensures
        s@ == seq![spec_digit_char(d as int)],
{
    proof {
        reveal_strlit("0");
        reveal_strlit("1");
        reveal_strlit("2");
        reveal_strlit("3");
        reveal_strlit("4");
        reveal_strlit("5");
        reveal_strlit("6");
        reveal_strlit("7");
        reveal_strlit("8");
        reveal_strlit("9");
    }
    let s = if d == 0 {
        "0"
    } else if d == 1 {
        "1"
    } else if d == 2 {
        "2"
    } else if d == 3 {
        "3"
    } else if d == 4 {
        "4"
    } else if d == 5 {
        "5"
    } else if d == 6 {
        "6"
    } else if d == 7 {
        "7"
    } else if d == 8 {
        "8"
    } else {
        "9"
    };
    proof {
        assert(s@ =~= seq![spec_digit_char(d as int)]);
    }
    s
}

/// Three-letter abbreviation of a weekday.
pub open spec fn spec_weekday_abbrev(w: Weekday) -> Seq<char> {
    match w {
        Weekday::Monday => seq!['M', 'o', 'n'],
        Weekday::Tuesday => seq!['T', 'u', 'e'],
        Weekday::Wednesday => seq!['W', 'e', 'd'],
        Weekday::Thursday => seq!['T', 'h', 'u'],
        Weekday::Friday => seq!['F', 'r', 'i'],
        Weekday::Saturday => seq!['S', 'a', 't'],
        Weekday::Sunday => seq!['S', 'u', 'n'],
    }
}

/// A date written as `YYYY-MM-DD`, each part zero padded.
pub open spec fn spec_date_label(d: CalendarDate) -> Seq<char> {
    spec_four_digits(d.year as int) + seq!['-'] + spec_two_digits(d.month as int) + seq!['-']
        + spec_two_digits(d.day as int)
}

/// The label of a day's row: the date as `YYYY-MM-DD`, a space, and the
/// three-letter weekday abbreviation.
pub open spec fn spec_row_label(d: CalendarDate) -> Seq<char> {
    spec_date_label(d) + seq![' '] + spec_weekday_abbrev(d.spec_weekday())
}

/// The path `/YYYY/MM` that the root route redirects to.
pub open spec fn spec_month_path(year: int, month: int) -> Seq<char> {
    seq!['/'] + spec_four_digits(year) + seq!['/'] + spec_two_digits(month)
}

/// The file name `datesheet-YYYY-MM.pdf` offered for a rendered month.
pub open spec fn spec_pdf_file_name(year: int, month: int) -> Seq<char> {
    "datesheet-"@ + spec_four_digits(year) + seq!['-'] + spec_two_digits(month) + ".pdf"@
}

/// Distinct digits have distinct digit characters.
proof fn lemma_digit_char_injective(a: int, b: int)
    requires
        0 <= a <= 9,
        0 <= b <= 9,
        spec_digit_char(a) == spec_digit_char(b),
    ensures
        a == b,
{
}

/// Two-digit rendering is injective on 0..=99.
pub proof fn lemma_two_digits_injective(a: int, b: int)
    requires
        0 <= a <= 99,
        0 <= b <= 99,
        spec_two_digits(a) == spec_two_digits(b),
    ensures
        a == b,
{
    assert(spec_two_digits(a)[0] == spec_two_digits(b)[0]);
    assert(spec_two_digits(a)[1] == spec_two_digits(b)[1]);
    lemma_digit_char_injective(a / 10, b / 10);
    lemma_digit_char_injective(a % 10, b % 10);
}

/// Four-digit rendering is injective on 0..=9999.
pub proof fn lemma_four_digits_injective(a: int, b: int)
    requires
        0 <= a <= 9999,
        0 <= b <= 9999,
        spec_four_digits(a) == spec_four_digits(b),
    ensures
        a == b,
{
    assert(spec_four_digits(a)[0] == spec_four_digits(b)[0]);
    assert(spec_four_digits(a)[1] == spec_four_digits(b)[1]);
    assert(spec_four_digits(a)[2] == spec_four_digits(b)[2]);
    assert(spec_four_digits(a)[3] == spec_four_digits(b)[3]);
    lemma_digit_char_injective(a / 1000, b / 1000);
    lemma_digit_char_injective((a / 100) % 10, (b / 100) % 10);
    lemma_digit_char_injective((a / 10) % 10, (b / 10) % 10);
    lemma_digit_char_injective(a % 10, b % 10);
    assert(a == (a / 1000) * 1000 + ((a / 100) % 10) * 100 + ((a / 10) % 10) * 10 + a % 10);
    assert(b == (b / 1000) * 1000 + ((b / 100) % 10) * 100 + ((b / 10) % 10) * 10 + b % 10);
}

/// The month path always has the form `/YYYY/MM`: eight characters, a
/// slash, the four-digit year, a slash, and the month zero padded to two
/// digits.
pub proof fn lemma_month_path_shape(year: int, month: int)
    ensures
        spec_month_path(year, month).len() == 8,
        spec_month_path(year, month)[0] == '/',
        spec_month_path(year, month).subrange(1, 5) == spec_four_digits(year),
        spec_month_path(year, month)[5] == '/',
        spec_month_path(year, month).subrange(6, 8) == spec_two_digits(month),
{
    assert(spec_month_path(year, month).subrange(1, 5) =~= spec_four_digits(year));
    assert(spec_month_path(year, month).subrange(6, 8) =~= spec_two_digits(month));
}

/// The three-letter abbreviation of `w` as a string slice.
pub fn weekday_abbrev(w: Weekday) -> (s: &'static str)
    ensures
        s@ == spec_weekday_abbrev(w),
{
    proof {
        reveal_strlit("Mon");
        reveal_strlit("Tue");
        reveal_strlit("Wed");
        reveal_strlit("Thu");
        reveal_strlit("Fri");
        reveal_strlit("Sat");
        reveal_strlit("Sun");
    }
    let s = match w {
        Weekday::Monday => "Mon",
        Weekday::Tuesday => "Tue",
        Weekday::Wednesday => "Wed",
        Weekday::Thursday => "Thu",
        Weekday::Friday => "Fri",
        Weekday::Saturday => "Sat",
        Weekday::Sunday => "Sun",
    };
    proof {
        assert(s@ =~= spec_weekday_abbrev(w));
    }
    s
}

/// Appends `n` to `out` as exactly two decimal digits, zero padded.
pub fn push_two_digits(out: &mut String, n: u8)
    requires
        n < 100,
    ensures
        final(out)@ == old(out)@ + spec_two_digits(n as int),
{
    out.append(digit_str(n / 10));
    out.append(digit_str(n % 10));
    proof {
        assert(final(out)@ =~= old(out)@ + spec_two_digits(n as int));
    }
}

/// Appends `n` to `out` as exactly four decimal digits, zero padded.
pub fn push_four_digits(out: &mut String, n: u16)
    requires
        n < 10000,
    ensures
        final(out)@ == old(out)@ + spec_four_digits(n as int),
{
    out.append(digit_str((n / 1000) as u8));
    out.append(digit_str(((n / 100) % 10) as u8));
    out.append(digit_str(((n / 10) % 10) as u8));
    out.append(digit_str((n % 10) as u8));
    proof {
        assert(final(out)@ =~= old(out)@ + spec_four_digits(n as int));
    }
}

/// Builds `n` as a string of exactly two decimal digits, zero padded.
pub fn two_digit_string(n: u8) -> (s: String)
    requires
        n < 100,
    ensures
        s@ == spec_two_digits(n as int),
{
    let mut s = String::new();
    push_two_digits(&mut s, n);
    proof {
        assert(s@ =~= spec_two_digits(n as int));
    }
    s
}

/// Builds the row label `YYYY-MM-DD Ddd` for a day.
pub fn row_label(d: &CalendarDate) -> (s: String)
    requires
        d.is_valid(),
    ensures
        s@ == spec_row_label(*d),
{
    proof {
        reveal_strlit("-");
        reveal_strlit(" ");
    }
    let mut s = String::new();
    push_four_digits(&mut s, d.year as u16);
    s.append("-");
    push_two_digits(&mut s, d.month);
    s.append("-");
    push_two_digits(&mut s, d.day);
    s.append(" ");
    s.append(weekday_abbrev(d.weekday()));
    proof {
        assert(s@ =~= spec_row_label(*d));
    }
    s
}

/// Builds the path `/YYYY/MM` for a month, both parts zero padded.
pub fn month_path(year: i32, month: u8) -> (s: String)
    requires
        crate::date::MIN_YEAR <= year <= crate::date::MAX_YEAR,
        1 <= month <= 12,
    ensures
        s@ == spec_month_path(year as int, month as int),
{
    proof {
        reveal_strlit("/");
    }
    let mut s = String::new();
    s.append("/");
    push_four_digits(&mut s, year as u16);
    s.append("/");
    push_two_digits(&mut s, month);
    proof {
        assert(s@ =~= spec_month_path(year as int, month as int));
    }
    s
}

/// Builds the file name `datesheet-YYYY-MM.pdf` for a rendered month.
pub fn pdf_file_name(year: i32, month: u8) -> (s: String)
    requires
        crate::date::MIN_YEAR <= year <= crate::date::MAX_YEAR,
        1 <= month <= 12,
    ensures
        s@ == spec_pdf_file_name(year as int, month as int),
{
    proof {
        reveal_strlit("datesheet-");
        reveal_strlit("-");
        reveal_strlit(".pdf");
    }
    let mut s = String::new();
    s.append("datesheet-");
    push_four_digits(&mut s, year as u16);
    s.append("-");
    push_two_digits(&mut s, month);
    s.append(".pdf");
    proof {
        assert(s@ =~= spec_pdf_file_name(year as int, month as int));
    }
    s
}

} // verus!
