//! Flags OR'd into `io_uring_sqe::ioprio`: multishot mode for accept and
//! recv is armed through these bits, not through `op_flags`.
use vstd::prelude::*;

verus! {

pub const IORING_ACCEPT_MULTISHOT: u16 = 1;
pub const IORING_RECV_MULTISHOT: u16 = 2;

} // verus!
