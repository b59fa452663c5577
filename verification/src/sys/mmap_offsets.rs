//! Offsets passed to `mmap(2)` on the io_uring fd to reach each region
//! (fixed kernel ABI constants).
use vstd::prelude::*;

verus! {

pub const IORING_OFF_SQ_RING: i64 = 0;
pub const IORING_OFF_CQ_RING: i64 = 0x8000000;
pub const IORING_OFF_SQES: i64 = 0x10000000;

} // verus!
