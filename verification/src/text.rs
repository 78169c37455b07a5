//! Small verified helpers on strings, stated over their character sequences.

use vstd::prelude::*;
use vstd::string::StringExecFns;
use vstd::string::StrSliceExecFns;

verus! {

/// The text of an optional string.
pub open spec fn text(field: Option<String>) -> Option<Seq<char>> {
    match field {
        Some(s) => Some(s@),
        None => None,
    }
}

/// The text of a field, or the empty text where the field is absent.
pub open spec fn text_or_empty(field: Option<Seq<char>>) -> Seq<char> {
    match field {
        Some(s) => s,
        None => Seq::empty(),
    }
}

/// Whether two strings hold the same characters.
pub fn same_text(a: &str, b: &str) -> (res: bool)
    ensures
        res == (a@ == b@),
{
    a.to_owned() == b.to_owned()
}

/// Whether `s` begins with `prefix`.
pub fn has_prefix(s: &str, prefix: &str) -> (res: bool)
    ensures
        res == prefix@.is_prefix_of(s@),
{
    let wanted: usize = prefix.unicode_len();
    let given: usize = s.unicode_len();
    if given < wanted {
        return false;
    }
    let mut i: usize = 0;
    while i < wanted
        invariant
            i <= wanted,
            wanted == prefix@.len(),
            given == s@.len(),
            wanted <= given,
            forall|k: int| 0 <= k < i ==> prefix@[k] == s@[k],
        decreases wanted - i,
    {
        if prefix.get_char(i) != s.get_char(i) {
            return false;
        }
        i += 1;
    }
    true
}

/// A copy of an optional string.
pub fn copy_field(field: &Option<String>) -> (res: Option<String>)
    ensures
        text(res) == text(*field),
{
    match field {
        Some(s) => Some(s.clone()),
        None => None,
    }
}

/// The string of a field, or the empty string where the field is absent.
pub fn field_or_empty(field: &Option<String>) -> (res: String)
    ensures
        res@ == text_or_empty(text(*field)),
{
    match field {
        Some(s) => s.clone(),
        None => String::new(),
    }
}

/// The concatenation of two strings.
pub fn joined(head: &str, tail: &str) -> (res: String)
    ensures
        res@ == head@ + tail@,
{
    String::from_str(head).concat(tail)
}

} // verus!
