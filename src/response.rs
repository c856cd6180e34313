//! Read-only facts about a response, as the bindings report them.
use vstd::prelude::*;

verus! {

/// The content length to report: the length when known, saturated at
/// `i64::MAX`, and `-1` when unknown.
pub fn content_length_of(len: Option<u64>) -> (r: i64)
    ensures
        match len {
            Some(n) => r as int == if n <= i64::MAX { n as int } else { i64::MAX as int },
            None => r == -1,
        },
{
    match len {
        Some(n) => {
            if n > i64::MAX as u64 {
                i64::MAX
            } else {
                n as i64
            }
        },
        None => -1,
    }
}

/// Whether a status code reports success (200 to 299).
pub fn status_is_success(status: u16) -> (r: bool)
    ensures
        r == (200 <= status && status <= 299),
{
    200 <= status && status <= 299
}

} // verus!
