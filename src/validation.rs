use vstd::prelude::*;
use vstd::string::*;

verus! {

/// Whether std's `char::is_numeric` holds of `c`.
pub uninterp spec fn numeric_char(c: char) -> bool;

/// Relies on std's `char::is_numeric`: whether `c` is in one of Unicode's
/// number categories, which holds of the ASCII digits.
#[verifier::external_body]
fn is_numeric(c: char) -> (r: bool)
    ensures
        r == numeric_char(c),
        '0' <= c <= '9' ==> r,
{
    c.is_numeric()
}

/// The verdict on a typed one-time code or PIN.
#[derive(Clone, Copy, Debug, PartialEq, Eq, Structural)]
pub enum CodeCheck {
    Valid,
    /// The code does not have the required number of characters.
    WrongLength,
    /// The code has the required length but holds a non-numeric character.
    NotNumeric,
}

/// Every character of `s` is numeric.
pub open spec fn all_numeric(s: Seq<char>) -> bool {
    forall|i: int| 0 <= i < s.len() ==> numeric_char(#[trigger] s[i])
}

/// The verdict on a code of `len` characters, given for each character of
/// the typed code whether it is numeric; the length is checked first.
pub open spec fn verdict(numeric: Seq<bool>, len: nat) -> CodeCheck {
    if numeric.len() != len {
        CodeCheck::WrongLength
    } else if exists|i: int| 0 <= i < numeric.len() && !#[trigger] numeric[i] {
        CodeCheck::NotNumeric
    } else {
        CodeCheck::Valid
    }
}

/// The verdict on `s` for a code of `len` numeric characters.
pub open spec fn code_check(s: Seq<char>, len: nat) -> CodeCheck {
    verdict(s.map_values(|c: char| numeric_char(c)), len)
}

/// Judges a typed code from its characters' numeric flags.
pub fn classify(numeric: &Vec<bool>, len: usize) -> (r: CodeCheck)
    ensures
        r == verdict(numeric@, len as nat),
{
    if numeric.len() != len {
        return CodeCheck::WrongLength;
    }
    let mut i: usize = 0;
    while i < numeric.len()
        invariant
            i <= numeric@.len(),
            numeric@.len() == len,
            forall|j: int| 0 <= j < i ==> #[trigger] numeric@[j],
        decreases numeric@.len() - i,
    {
        if !numeric[i] {
            return CodeCheck::NotNumeric;
        }
        i = i + 1;
    }
    CodeCheck::Valid
}

/// Checks that `s` is exactly `len` numeric characters.
pub fn check_code(s: &str, len: usize) -> (r: CodeCheck)
    ensures
        r == code_check(s@, len as nat),
        r == CodeCheck::Valid ==> s@.len() == len && all_numeric(s@),
{
    let n = s.unicode_len();
    let mut numeric: Vec<bool> = Vec::new();
    let mut i: usize = 0;
    while i < n
        invariant
            n == s@.len(),
            i <= n,
            numeric@ == s@.subrange(0, i as int).map_values(|c: char| numeric_char(c)),
        decreases n - i,
    {
        let c = s.get_char(i);
        numeric.push(is_numeric(c));
        assert(s@.subrange(0, i + 1) == s@.subrange(0, i as int).push(c));
        i = i + 1;
    }
    assert(s@.subrange(0, n as int) == s@);
    let r = classify(&numeric, len);
    assert(r == CodeCheck::Valid ==> all_numeric(s@)) by {
        if r == CodeCheck::Valid {
            assert forall|j: int| 0 <= j < s@.len() implies numeric_char(#[trigger] s@[j]) by {
                assert(numeric@[j]);
            }
        }
    }
    r
}

/// Number of characters in a PIN.
pub const PIN_LEN: usize = 4;

/// Number of characters in a one-time password.
pub const OTP_LEN: usize = 6;

/// Checks a PIN: exactly four numeric characters.
pub fn check_pin(pin: &str) -> (r: CodeCheck)
    ensures
        r == code_check(pin@, 4),
{
    check_code(pin, PIN_LEN)
}

/// Checks a one-time password: exactly six numeric characters.
pub fn check_otp(otp: &str) -> (r: CodeCheck)
    ensures
        r == code_check(otp@, 6),
{
    check_code(otp, OTP_LEN)
}

} // verus!
