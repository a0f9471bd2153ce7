//! Exit statuses of the application.
use vstd::prelude::*;

verus! {

/// Every input was processed successfully.
pub const SUCCESS: i32 = 0;

/// Nothing was processed, or every input failed, or the run could not start.
pub const CRITICAL_ERROR: i32 = 1;

/// Some inputs were processed and some failed.
pub const PARTIAL_SUCCESS: i32 = 2;

} // verus!
