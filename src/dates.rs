use vstd::prelude::*;

verus! {

/// A calendar month: a year and a month number, the day being the first.
#[derive(Clone, Copy, Debug, PartialEq, Eq, Structural)]
pub struct MonthDate {
    pub year: i32,
    pub month: u32,
}

impl MonthDate {
    /// The month number lies in 1..=12.
    pub open spec fn wf(&self) -> bool {
        1 <= self.month <= 12
    }

    /// Months elapsed since January of year zero.
    pub open spec fn index(&self) -> int {
        12 * self.year + self.month
    }

    /// Builds a month date; `None` when the month number is not in 1..=12.
    pub fn new(year: i32, month: u32) -> (r: Option<MonthDate>)
        ensures
            r == (if 1 <= month <= 12 {
                Some(MonthDate { year, month })
            } else {
                None::<MonthDate>
            }),
    {
        if 1 <= month && month <= 12 {
            Some(MonthDate { year, month })
        } else {
            None
        }
    }
}

/// `a` lies no later than `b` in the calendar.
pub open spec fn not_after(a: MonthDate, b: MonthDate) -> bool {
    a.year < b.year || (a.year == b.year && a.month <= b.month)
}

/// How many months `date` lies before `today`.
pub open spec fn offset_spec(today: MonthDate, date: MonthDate) -> int {
    12 * (today.year - date.year) + (today.month - date.month)
}

/// The month offset of `date` as seen from `today`:
/// `12 * (today.year - date.year) + (today.month - date.month)`.
pub fn month_offset(today: &MonthDate, date: &MonthDate) -> (r: i64)
    ensures
        r == offset_spec(*today, *date),
{
    let years = today.year as i64 - date.year as i64;
    let months = today.month as i64 - date.month as i64;
    12 * years + months
}

/// The offset of the reference month itself is zero.
pub proof fn lemma_offset_of_today(today: MonthDate)
    ensures
        offset_spec(today, today) == 0,
{
}

/// The offset never decreases as the date moves further into the past.
pub proof fn lemma_offset_monotone(today: MonthDate, earlier: MonthDate, later: MonthDate)
    requires
        earlier.wf(),
        later.wf(),
        not_after(earlier, later),
    ensures
        offset_spec(today, earlier) >= offset_spec(today, later),
{
}

/// Relies on chrono's `Local::now` with `Datelike::year` and `Datelike::month`:
/// the current local month, whose month number chrono keeps in 1..=12.
#[verifier::external_body]
pub(crate) fn current_month() -> (r: MonthDate)
    ensures
        r.wf(),
{
    let today = chrono::Local::now().date_naive();
    MonthDate { year: chrono::Datelike::year(&today), month: chrono::Datelike::month(&today) }
}

} // verus!
