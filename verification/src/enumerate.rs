//! The two-call idiom by which the runtime hands out arrays: a first call
//! reports how many elements there are, a second call fills a buffer of that
//! capacity and reports how many it wrote.
use vstd::prelude::*;

use crate::codes::Result;

verus! {

/// What the caller does after one of the two calls.
#[derive(Debug, Clone, Copy, PartialEq, Eq, Structural)]
pub enum EnumerationStep {
    /// Allocate a buffer of `capacity` elements and make the second call.
    Allocate { capacity: u32 },
    /// The buffer holds the `len` elements of the array.
    Accept { len: u32 },
    /// The runtime failed or disagreed with itself.
    Fail,
}

/// After the first call, which returned `result` and reported `count`
/// elements: allocate room for all of them, unless the call failed.
pub fn after_count(result: i32, count: u32) -> (step: EnumerationStep)
    ensures
        step == (if result == Result::Success.code_of() {
            EnumerationStep::Allocate { capacity: count }
        } else {
            EnumerationStep::Fail
        }),
{
    match Result::from_code(result) {
        Some(Result::Success) => EnumerationStep::Allocate { capacity: count },
        None => EnumerationStep::Fail,
    }
}

/// After the second call, made with room for `capacity` elements, which
/// returned `result` and reported `written` elements: the buffer is accepted
/// only when the call succeeded and filled it exactly.
pub fn after_fill(result: i32, capacity: u32, written: u32) -> (step: EnumerationStep)
    ensures
        step == (if result == Result::Success.code_of() && written == capacity {
            EnumerationStep::Accept { len: written }
        } else {
            EnumerationStep::Fail
        }),
{
    match Result::from_code(result) {
        Some(Result::Success) => {
            if written == capacity {
                EnumerationStep::Accept { len: written }
            } else {
                EnumerationStep::Fail
            }
        },
        None => EnumerationStep::Fail,
    }
}

} // verus!
