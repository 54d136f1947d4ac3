//! The statuses that requests are answered with.

use vstd::prelude::*;

verus! {

/// The status that answers a request that succeeded.
pub const STATUS_OK: u16 = 200;

/// The status that answers a request that lacks what it needs.
pub const STATUS_BAD_REQUEST: u16 = 400;

/// The status that answers a request that is not allowed.
pub const STATUS_UNAUTHORIZED: u16 = 401;

/// The status that answers a request that failed for no fault of its own.
pub const STATUS_INTERNAL_SERVER_ERROR: u16 = 500;

} // verus!
