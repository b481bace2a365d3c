//! The shared success envelope returned by handlers that have no failure
//! case of their own.

use vstd::prelude::*;

verus! {

/// A response envelope: a success flag beside the payload.
pub struct SuccessResponse<T> {
    pub success: bool,
    pub data: T,
}

} // verus!
