//! Flags for `io_uring_sqe::flags`.
use vstd::prelude::*;

verus! {

pub const IOSQE_FIXED_FILE: u8 = 1;
pub const IOSQE_IO_DRAIN: u8 = 2;
pub const IOSQE_IO_LINK: u8 = 4;
pub const IOSQE_IO_HARDLINK: u8 = 8;
pub const IOSQE_ASYNC: u8 = 16;
pub const IOSQE_BUFFER_SELECT: u8 = 32;

} // verus!
