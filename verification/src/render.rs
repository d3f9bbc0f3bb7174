//! The single shared entry point of a render: from a year, a month and a
//! page size to the full primitive list, or to the error that names the
//! invalid input.

use crate::date::{month_days, spec_month_dates, MAX_YEAR, MIN_YEAR};
use crate::layout::{layout_datesheet, spec_datesheet, spec_day_label, PageSize, Primitive};
use crate::text::{
    lemma_four_digits_injective, lemma_two_digits_injective, spec_four_digits, spec_row_label,
    spec_two_digits,
};
use vstd::prelude::*;

verus! {

/// Why a render request was rejected.
#[derive(Clone, Copy, PartialEq, Eq, Structural, Debug)]
pub enum RenderError {
    /// The month was not in 1..=12.
    MonthOutOfRange,
    /// The year was not in `MIN_YEAR..=MAX_YEAR`.
    YearOutOfRange,
}

impl RenderError {
    /// The error's message text.
    pub open spec fn spec_message(self) -> Seq<char> {
        match self {
            RenderError::MonthOutOfRange => "month must be between 1 and 12"@,
            RenderError::YearOutOfRange => "year must be between 1 and 9999"@,
        }
    }

    /// Returns the error's message text.
    pub fn message(&self) -> (s: &'static str)
        ensures
            s@ == self.spec_message(),
    {
        match self {
            RenderError::MonthOutOfRange => "month must be between 1 and 12",
            RenderError::YearOutOfRange => "year must be between 1 and 9999",
        }
    }
}

/// The plain-text body of a failure response: `error: ` and the message.
pub open spec fn spec_error_body(e: RenderError) -> Seq<char> {
    "error: "@ + e.spec_message()
}

/// Builds the plain-text body of a failure response.
pub fn error_body(e: &RenderError) -> (s: String)
    ensures
        s@ == spec_error_body(*e),
{
    let mut s = String::new();
    s.append("error: ");
    s.append(e.message());
    s
}

/// Whether a render request is accepted at all.
pub open spec fn spec_request_valid(year: i32, month: u8) -> bool {
    &&& 1 <= month <= 12
    &&& MIN_YEAR <= year <= MAX_YEAR
}

/// Renders the month of `year` and `month` on a page of the given size:
/// exactly the primitives of `spec_datesheet` over that month's days.  The
/// month is checked first, then the year; an out-of-range input yields the
/// matching error and no output.
pub fn render_month(year: i32, month: u8, page: &PageSize) -> (r: Result<
    Vec<Primitive>,
    RenderError,
>)
    requires
        page.is_valid(),
    ensures
        r is Ok <==> spec_request_valid(year, month),
        (month < 1 || month > 12) ==> r == Result::<Vec<Primitive>, RenderError>::Err(
            RenderError::MonthOutOfRange,
        ),
        (1 <= month <= 12 && !(MIN_YEAR <= year <= MAX_YEAR)) ==> r == Result::<
            Vec<Primitive>,
            RenderError,
        >::Err(RenderError::YearOutOfRange),
        r matches Ok(prims) ==> prims.deep_view() == spec_datesheet(
            spec_month_dates(year, month),
            *page,
        ),
{
    if month < 1 || month > 12 {
        return Err(RenderError::MonthOutOfRange);
    }
    if year < MIN_YEAR || year > MAX_YEAR {
        return Err(RenderError::YearOutOfRange);
    }
    let days = month_days(year, month);
    Ok(layout_datesheet(&days, page))
}

/// Renders of different months never bleed into one another: a render is a
/// pure function of its own inputs, and two valid requests that differ in
/// year or month produce different primitive lists, because the year and
/// the month are visible in the label of day 1 and the row count in the
/// list's length.
pub proof fn lemma_distinct_requests_distinct_output(
    y1: i32,
    m1: u8,
    y2: i32,
    m2: u8,
    page: PageSize,
)
    requires
        spec_request_valid(y1, m1),
        spec_request_valid(y2, m2),
        !(y1 == y2 && m1 == m2),
    ensures
        spec_datesheet(spec_month_dates(y1, m1), page) != spec_datesheet(
            spec_month_dates(y2, m2),
            page,
        ),
{
    let d1 = spec_month_dates(y1, m1);
    let d2 = spec_month_dates(y2, m2);
    let r1 = d1.len() as int;
    let r2 = d2.len() as int;
    let s1 = spec_datesheet(d1, page);
    let s2 = spec_datesheet(d2, page);
    assert(s1.len() == 53 + 2 * r1 + (r1 + 1) / 2);
    assert(s2.len() == 53 + 2 * r2 + (r2 + 1) / 2);
    if r1 == r2 {
        let pos = 3 + (r1 + 1) / 2 + 25 + (r1 + 1) + 24;
        assert(s1[pos] == spec_day_label(d1, page, 0));
        assert(s2[pos] == spec_day_label(d2, page, 0));
        if s1 == s2 {
            let t1 = spec_row_label(d1[0]);
            let t2 = spec_row_label(d2[0]);
            assert(t1 == t2);
            assert(t1.subrange(0, 4) =~= spec_four_digits(y1 as int));
            assert(t2.subrange(0, 4) =~= spec_four_digits(y2 as int));
            lemma_four_digits_injective(y1 as int, y2 as int);
            assert(t1.subrange(5, 7) =~= spec_two_digits(m1 as int));
            assert(t2.subrange(5, 7) =~= spec_two_digits(m2 as int));
            lemma_two_digits_injective(m1 as int, m2 as int);
            assert(false);
        }
    }
}

} // verus!
