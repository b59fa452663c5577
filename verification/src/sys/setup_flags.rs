//! Flags for `io_uring_params::flags`.
use vstd::prelude::*;

verus! {

pub const IORING_SETUP_IOPOLL: u32 = 1;
pub const IORING_SETUP_SQPOLL: u32 = 2;
pub const IORING_SETUP_SQ_AFF: u32 = 4;
pub const IORING_SETUP_CQ_NOSPACE_DROP: u32 = 8;
pub const IORING_SETUP_REGISTERED_FD: u32 = 16;
pub const IORING_SETUP_DEFER_DRING: u32 = 32;

} // verus!
