//! The answer of a pattern list about a path.

use vstd::prelude::*;

verus! {

/// How a path fared against a list of patterns, some of which may be
/// negated.
#[derive(Debug, Eq, PartialEq, Structural, Copy, Clone, Hash)]
pub enum Match {
    /// No pattern matched.
    No,
    /// A pattern matched.
    Yes,
    /// The last pattern that matched was a negated one.
    Inverted,
}

impl Match {
    /// What the native library's answer `ret` means: zero for a match, a
    /// positive number for a negated match, a negative one for none.
    pub open spec fn of_ret(ret: i32) -> Match {
        if ret == 0 {
            Match::Yes
        } else if ret > 0 {
            Match::Inverted
        } else {
            Match::No
        }
    }

    /// Reads the native library's answer.
    pub fn from_ret(ret: i32) -> (m: Match)
        ensures
            m == Match::of_ret(ret),
    {
        if ret == 0 {
            Match::Yes
        } else if ret > 0 {
            Match::Inverted
        } else {
            Match::No
        }
    }
}

} // verus!
