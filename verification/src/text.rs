//! Optional text.

use vstd::prelude::*;

verus! {

/// The text behind an optional string.
pub open spec fn text_of(s: Option<String>) -> Option<Seq<char>> {
    match s {
        Some(s) => Some(s@),
        None => None,
    }
}

/// The text behind an optional string slice.
pub open spec fn str_of(s: Option<&str>) -> Option<Seq<char>> {
    match s {
        Some(s) => Some(s@),
        None => None,
    }
}

pub(crate) fn clone_text(s: &Option<String>) -> (c: Option<String>)
    ensures
        c == *s,
{
    match s {
        Some(s) => Some(s.clone()),
        None => None,
    }
}

/// What came of something that fails with a text.
pub open spec fn result_of<T>(r: Result<T, String>) -> Result<T, Seq<char>> {
    match r {
        Ok(t) => Ok(t),
        Err(e) => Err(e@),
    }
}

/// An optional text is there where the string is, and is its characters, all of them.
pub proof fn law_text_is_what_the_string_holds<T>(
    s: String,
    slice: &str,
    r: Result<T, String>,
)
    ensures
        text_of(Some(s)) == Some(s@),
        text_of(None) is None,
        str_of(Some(slice)) == Some(slice@),
        str_of(None) is None,
        r matches Ok(t) ==> result_of(r) == Ok::<T, Seq<char>>(t),
        r matches Err(e) ==> result_of(r) == Err::<T, Seq<char>>(e@),
{
}

} // verus!
