use vstd::prelude::*;
use vstd::string::*;

verus! {

/// Whether two strings hold the same characters.
pub fn same_text(a: &str, b: &str) -> (r: bool)
    ensures
        r == (a@ == b@),
{
    let n = a.unicode_len();
    if n != b.unicode_len() {
        return false;
    }
    let mut i: usize = 0;
    while i < n
        invariant
            n == a@.len(),
            n == b@.len(),
            i <= n,
            a@.subrange(0, i as int) == b@.subrange(0, i as int),
        decreases n - i,
    {
        if a.get_char(i) != b.get_char(i) {
            assert(a@[i as int] != b@[i as int]);
            return false;
        }
        assert(a@.subrange(0, i + 1) == a@.subrange(0, i as int).push(a@[i as int]));
        assert(b@.subrange(0, i + 1) == b@.subrange(0, i as int).push(b@[i as int]));
        i = i + 1;
    }
    assert(a@.subrange(0, n as int) == a@);
    assert(b@.subrange(0, n as int) == b@);
    true
}

/// Whether a section's `aria-expanded` attribute says it is open: only the
/// exact value `true` does; a missing or other value reads as closed.
pub fn is_expanded(aria_expanded: Option<&str>) -> (r: bool)
    ensures
        r == (aria_expanded matches Some(v) && v@ == "true"@),
{
    match aria_expanded {
        Some(v) => same_text(v, "true"),
        None => false,
    }
}

/// Whether a download-list entry's `state` attribute marks the transfer as
/// finished, which the value `1` does.
pub fn is_download_done(state: &str) -> (r: bool)
    ensures
        r == (state@ == "1"@),
{
    same_text(state, "1")
}

} // verus!
