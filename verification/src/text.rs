//! Small functions on strings.

use vstd::prelude::*;
use vstd::string::*;

verus! {

/// What follows the anchor marker `#` at the head of `s`, if `s` starts
/// with one.
pub open spec fn after_marker(s: Seq<char>) -> Option<Seq<char>> {
    if s.len() > 0 && s[0] == '#' {
        Some(s.subrange(1, s.len() as int))
    } else {
        None
    }
}

/// The text of an optional string, empty where there is none.
pub open spec fn text_or_empty(s: Option<String>) -> Seq<char> {
    match s {
        Some(t) => t@,
        None => Seq::empty(),
    }
}

/// The text of an optional string, if there is one and it is not empty.
pub open spec fn filled(s: Option<String>) -> Option<Seq<char>> {
    match s {
        Some(t) => if t@.len() == 0 { None } else { Some(t@) },
        None => None,
    }
}

/// `Some(value)` unless `value` is empty.
pub fn non_empty(value: String) -> (r: Option<String>)
    ensures
        r == if value@.len() == 0 { None } else { Some(value) },
{
    if value.as_str().is_empty() {
        None
    } else {
        Some(value)
    }
}

/// The rest of `s` after a leading `#`.
pub fn strip_marker(s: &str) -> (r: Option<String>)
    ensures
        r.deep_view() == after_marker(s@),
{
    if s.is_empty() {
        return None;
    }
    if s.get_char(0) != '#' {
        return None;
    }
    let n: usize = s.unicode_len();
    Some(s.substring_char(1, n).to_owned())
}

/// A copy of an optional string, empty where there is none.
pub fn copy_or_empty(s: &Option<String>) -> (r: String)
    ensures
        r@ == text_or_empty(*s),
{
    match s {
        Some(t) => t.clone(),
        None => String::new(),
    }
}

} // verus!
