//! Flags for the `io_uring_enter` system call.
use vstd::prelude::*;

verus! {

pub const IORING_ENTER_GETEVENTS: u32 = 1;
pub const IORING_ENTER_SQ_WAIT: u32 = 2;
pub const IORING_ENTER_SQ_TICKET: u32 = 4;
pub const IORING_ENTER_EXT_ARG: u32 = 8;

} // verus!
