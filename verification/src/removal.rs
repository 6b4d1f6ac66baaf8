//! The answer of the native library to taking an entry off a list.

use vstd::prelude::*;

verus! {

/// What the native library's answer `ret` to a removal means: one where
/// the entry was there and is gone, zero where it was not there, and
/// anything else where the removal failed.
pub fn removal_of_ret(ret: i32) -> (r: Option<bool>)
    ensures
        r == if ret == 1 {
            Some(true)
        } else if ret == 0 {
            Some(false)
        } else {
            None::<bool>
        },
{
    if ret == 1 {
        Some(true)
    } else if ret == 0 {
        Some(false)
    } else {
        None
    }
}

} // verus!
