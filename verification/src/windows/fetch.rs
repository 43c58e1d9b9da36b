//! Fetching the adapters: what to do after each query for them.
//!
//! The query fills a buffer that the caller offers, and fails where the
//! buffer is too small. The caller owns the buffer: it acquires one before
//! each query and releases it as the step after the query says.
use vstd::prelude::*;
use crate::windows::native::WORKING_BUFFER_SIZEL;

verus! {

/// The code that a query returns when it succeeded.
pub const ERROR_SUCCESS: u32 = 0;

/// The code that a query returns when the buffer was too small.
pub const ERROR_BUFFER_OVERFLOW: u32 = 111;

/// What follows a query for the adapters.
#[derive(Clone, Copy, Debug, PartialEq, Eq)]
pub enum Step {
    /// The query succeeded. The buffer holds the adapters; it is released
    /// once they have been read out of it.
    Parse,
    /// The buffer was too small. It is released first, and then the query is
    /// made again with a new buffer of `size` bytes.
    Retry { size: u32 },
    /// The query failed with `code`. The buffer is released, and the failure
    /// is reported as an error of the operating system.
    Fail { code: u32 },
    /// The buffer was too small, and twice its size is more than a buffer
    /// can have. The buffer is released and the fetch given up.
    Exhausted,
}

impl Step {
    /// True where the buffer of the query is kept for reading after the
    /// step: only where the query succeeded.
    pub open spec fn spec_keeps_buffer(self) -> bool {
        self is Parse
    }

    /// Tells whether the buffer of the query is kept for reading after the
    /// step. After every other step the buffer is released before anything
    /// else is done.
    #[verifier::when_used_as_spec(spec_keeps_buffer)]
    pub fn keeps_buffer(self) -> (r: bool)
        ensures
            r == self.spec_keeps_buffer(),
    {
        match self {
            Step::Parse => true,
            _ => false,
        }
    }

    /// The size of the buffer for the query that follows the step, where one
    /// follows it.
    pub open spec fn spec_next_size(self) -> Option<u32> {
        match self {
            Step::Retry { size } => Some(size),
            _ => None,
        }
    }

    /// The size of the buffer for the query that follows the step; `None`
    /// where the step ends the fetch.
    #[verifier::when_used_as_spec(spec_next_size)]
    pub fn next_size(self) -> (r: Option<u32>)
        ensures
            r == self.spec_next_size(),
    {
        match self {
            Step::Retry { size } => Some(size),
            _ => None,
        }
    }
}

/// The step after a query that returned `code` and left `size` in its size
/// variable: success is parsed, a buffer too small is doubled, and any other
/// code fails at once.
pub open spec fn spec_after_query(code: u32, size: u32) -> Step {
    if code == ERROR_SUCCESS {
        Step::Parse
    } else if code == ERROR_BUFFER_OVERFLOW {
        if size * 2 <= u32::MAX {
            Step::Retry { size: (size * 2) as u32 }
        } else {
            Step::Exhausted
        }
    } else {
        Step::Fail { code }
    }
}

/// The size in bytes of the buffer that the first query offers.
pub fn first_buffer_size() -> (size: u32)
    ensures
        size == WORKING_BUFFER_SIZEL,
{
    WORKING_BUFFER_SIZEL
}

/// Decides what follows a query for the adapters. `code` is what the query
/// returned, and `size` what it left in its size variable: the size of the
/// buffer, or the size that the system asked for instead.
pub fn after_query(code: u32, size: u32) -> (step: Step)
    ensures
        step == spec_after_query(code, size),
        step.keeps_buffer() <==> code == ERROR_SUCCESS,
        step.next_size() is Some ==> code == ERROR_BUFFER_OVERFLOW,
{
    if code == ERROR_SUCCESS {
        Step::Parse
    } else if code == ERROR_BUFFER_OVERFLOW {
        match size.checked_mul(2) {
            Some(doubled) => Step::Retry { size: doubled },
            None => Step::Exhausted,
        }
    } else {
        Step::Fail { code }
    }
}

} // verus!
