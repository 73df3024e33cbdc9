//! Deadlines and display bounds, in milliseconds.

use vstd::prelude::*;

verus! {

/// Deadline for one produce acknowledgement.
pub const SEND_TIMEOUT_MS: u64 = 1000;

/// Deadline for one consumer poll on the receive task.
pub const POLL_TIMEOUT_MS: u64 = 3000;

/// Deadline for metadata, watermark and group-list fetches.
pub const METADATA_TIMEOUT_MS: u64 = 5000;

/// How long an error stays on the error band before it self-clears.
pub const ERROR_DISPLAY_MS: u64 = 5000;

} // verus!
