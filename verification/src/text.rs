//! Small helpers for optional text: views, copies and the merge rule that
//! keeps an old value where no new one is supplied.

use vstd::prelude::*;

verus! {

/// The characters of an optional text.
pub open spec fn opt_text(o: Option<String>) -> Option<Seq<char>> {
    match o {
        Some(s) => Some(s@),
        None => None,
    }
}

/// The merge rule of an upsert: a supplied value replaces the stored one,
/// an absent value leaves it alone.
pub open spec fn merged<T>(supplied: Option<T>, stored: Option<T>) -> Option<T> {
    match supplied {
        Some(_) => supplied,
        None => stored,
    }
}

/// A copy of an optional text.
pub fn clone_opt(o: &Option<String>) -> (r: Option<String>)
    ensures
        r == *o,
{
    match o {
        Some(s) => Some(s.clone()),
        None => None,
    }
}

/// The supplied text if there is one, else the stored one.
pub fn merge_text(supplied: &Option<String>, stored: &Option<String>) -> (r: Option<String>)
    ensures
        r == merged(*supplied, *stored),
{
    match supplied {
        Some(s) => Some(s.clone()),
        None => clone_opt(stored),
    }
}

} // verus!
