//! Classification of user input — direct media addresses versus search
//! queries — and exact string comparison for the stores.

use vstd::prelude::*;

verus! {

/// Exact, case-sensitive string comparison.
pub fn str_eq(a: &str, b: &str) -> (r: bool)
    ensures
        r == (a@ == b@),
{
    a.to_owned() == b.to_owned()
}

/// A character sequence begins with the literal `http://`.
pub open spec fn spec_has_http_prefix(s: Seq<char>) -> bool {
    &&& s.len() >= 7
    &&& s[0] == 'h'
    &&& s[1] == 't'
    &&& s[2] == 't'
    &&& s[3] == 'p'
    &&& s[4] == ':'
    &&& s[5] == '/'
    &&& s[6] == '/'
}

/// A character sequence begins with the literal `https://`.
pub open spec fn spec_has_https_prefix(s: Seq<char>) -> bool {
    &&& s.len() >= 8
    &&& s[0] == 'h'
    &&& s[1] == 't'
    &&& s[2] == 't'
    &&& s[3] == 'p'
    &&& s[4] == 's'
    &&& s[5] == ':'
    &&& s[6] == '/'
    &&& s[7] == '/'
}

/// Input counts as a direct address exactly when it starts with `http://`
/// or `https://`; anything else is treated as a search query.
pub open spec fn spec_is_url(s: Seq<char>) -> bool {
    spec_has_http_prefix(s) || spec_has_https_prefix(s)
}

/// Checks whether the given text is a direct media address, i.e. starts
/// with `http://` or `https://` (case-sensitive; no full URI parsing).
pub fn is_url(text: &str) -> (r: bool)
    ensures
        r == spec_is_url(text@),
{
    let n = text.unicode_len();
    if n < 7 {
        return false;
    }
    if !(text.get_char(0) == 'h' && text.get_char(1) == 't' && text.get_char(2) == 't'
        && text.get_char(3) == 'p') {
        return false;
    }
    if text.get_char(4) == ':' && text.get_char(5) == '/' && text.get_char(6) == '/' {
        return true;
    }
    if n < 8 {
        return false;
    }
    text.get_char(4) == 's' && text.get_char(5) == ':' && text.get_char(6) == '/'
        && text.get_char(7) == '/'
}

} // verus!
