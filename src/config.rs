use vstd::prelude::*;
use vstd::string::*;
use crate::dates::MonthDate;

verus! {

/// An account as the site knows it, with an optional human-readable name.
#[derive(Clone, Debug, PartialEq, Eq, Hash)]
pub struct Account {
    pub id: String,
    pub name: Option<String>,
}

/// A window of months, with the accounts whose statements it covers.
#[derive(Clone, Debug, PartialEq, Eq)]
pub struct Extraction {
    pub from: MonthDate,
    pub to: MonthDate,
    pub accounts: Vec<Account>,
}

/// The run's configuration: an optional stored national-identity number and
/// the extraction windows, in the order given.
#[derive(Clone, Debug, PartialEq, Eq)]
pub struct Config {
    pub ssn: Option<String>,
    pub extractions: Vec<Extraction>,
}

/// Why a configuration cannot be used.
#[derive(Clone, Copy, Debug, PartialEq, Eq, Structural)]
pub enum ConfigError {
    /// The configuration file is not there.
    Missing,
    /// The configuration file cannot be read as a configuration.
    Unreadable,
    /// A window bound is not a month written `MM/YYYY`.
    InvalidDate,
}

/// The date, as (year, month, day), that chrono reads from `text` under `format`.
pub uninterp spec fn parsed_date(text: Seq<char>, format: Seq<char>) -> Option<(i32, u32, u32)>;

/// Relies on chrono's `NaiveDate::parse_from_str`: the date read from `text` under
/// `format`, which depends on the two strings alone, and which is a valid
/// calendar date when there is one.
#[verifier::external_body]
fn parse_date(text: &str, format: &str) -> (r: Option<(i32, u32, u32)>)
    ensures
        r == parsed_date(text@, format@),
        r matches Some(d) ==> 1 <= d.1 <= 12 && 1 <= d.2 <= 31,
{
    match chrono::NaiveDate::parse_from_str(text, format) {
        Ok(d) => Some((chrono::Datelike::year(&d), chrono::Datelike::month(&d), chrono::Datelike::day(&d))),
        Err(_) => None,
    }
}

/// The month of a parsed calendar date, or `InvalidDate` when nothing was parsed.
pub open spec fn month_of_parsed(parsed: Option<(i32, u32, u32)>) -> Result<MonthDate, ConfigError> {
    match parsed {
        Some(d) => Ok(MonthDate { year: d.0, month: d.1 }),
        None => Err(ConfigError::InvalidDate),
    }
}

/// Keeps the year and month of a parsed calendar date.
pub fn month_from_parsed(parsed: Option<(i32, u32, u32)>) -> (r: Result<MonthDate, ConfigError>)
    ensures
        r == month_of_parsed(parsed),
{
    match parsed {
        Some(d) => Ok(MonthDate { year: d.0, month: d.1 }),
        None => Err(ConfigError::InvalidDate),
    }
}

/// The text handed to the date parser for a month written `MM/YYYY`: the
/// first day of that month, `01/MM/YYYY`.
pub open spec fn first_of_month_text(text: Seq<char>) -> Seq<char> {
    "01/"@ + text
}

/// Reads a month written `MM/YYYY`, as the first day of that month.
pub fn deserialize(text: &str) -> (r: Result<MonthDate, ConfigError>)
    ensures
        r == month_of_parsed(parsed_date(first_of_month_text(text@), "%d/%m/%Y"@)),
        r matches Ok(m) ==> m.wf(),
{
    let mut full = String::from_str("01/");
    full.append(text);
    let parsed = parse_date(full.as_str(), "%d/%m/%Y");
    month_from_parsed(parsed)
}

impl Extraction {
    /// Builds a window from its two bounds, each written `MM/YYYY`.
    pub fn new(from: &str, to: &str, accounts: Vec<Account>) -> (r: Result<Extraction, ConfigError>)
        ensures
            r matches Ok(e) ==> {
                &&& Ok::<MonthDate, ConfigError>(e.from) == month_of_parsed(
                    parsed_date(first_of_month_text(from@), "%d/%m/%Y"@),
                )
                &&& Ok::<MonthDate, ConfigError>(e.to) == month_of_parsed(
                    parsed_date(first_of_month_text(to@), "%d/%m/%Y"@),
                )
                &&& e.accounts == accounts
            },
            r is Err <==> (month_of_parsed(parsed_date(first_of_month_text(from@), "%d/%m/%Y"@)) is Err
                || month_of_parsed(parsed_date(first_of_month_text(to@), "%d/%m/%Y"@)) is Err),
            r matches Err(e) ==> e == ConfigError::InvalidDate,
    {
        let start = deserialize(from);
        let end = deserialize(to);
        match (start, end) {
            (Ok(from), Ok(to)) => Ok(Extraction { from, to, accounts }),
            _ => Err(ConfigError::InvalidDate),
        }
    }
}

/// `s` with every `.` removed.
pub open spec fn without_dots(s: Seq<char>) -> Seq<char>
    decreases s.len(),
{
    if s.len() == 0 {
        Seq::<char>::empty()
    } else if s.last() == '.' {
        without_dots(s.drop_last())
    } else {
        without_dots(s.drop_last()).push(s.last())
    }
}

impl Account {
    /// The value that selects this account in the site's account selector:
    /// the identifier without its dots.
    pub fn selector_value(&self) -> (r: String)
        ensures
            r@ == without_dots(self.id@),
    {
        let id = self.id.as_str();
        let n = id.unicode_len();
        let mut out = String::new();
        let mut i: usize = 0;
        while i < n
            invariant
                n == id@.len(),
                i <= n,
                out@ == without_dots(id@.subrange(0, i as int)),
            decreases n - i,
        {
            let c = id.get_char(i);
            if c != '.' {
                out.append(id.substring_char(i, i + 1));
            }
            assert(id@.subrange(0, i + 1).drop_last() == id@.subrange(0, i as int));
            i = i + 1;
        }
        assert(id@.subrange(0, n as int) == id@);
        out
    }
}

} // verus!
