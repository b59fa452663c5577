//! Kernel ABI layouts of io_uring and the decoding of `io_uring_setup`'s
//! return value.
#![allow(non_camel_case_types)]

pub mod cqe_flags;
pub mod enter_flags;
pub mod features;
pub mod ioprio_flags;
pub mod mmap_offsets;
pub mod opcodes;
pub mod setup_flags;
pub mod sqe_flags;

use crate::sys::setup_flags::IORING_SETUP_SQPOLL;
use vstd::prelude::*;

verus! {

/// Raw io_uring submission queue entry.
#[derive(Clone, Copy)]
pub struct io_uring_sqe {
    pub opcode: u8,
    pub flags: u8,
    pub ioprio: u16,
    pub fd: i32,
    pub off_addr2: u64,
    pub addr_splice_off_in: u64,
    pub len: u32,
    pub op_flags: u32,
    pub user_data: u64,
    pub buf_group: u16,
    pub personality: u16,
    pub splice_fd_in: i32,
    pub __pad2: [u32; 2],
}

/// Raw io_uring completion queue entry.
#[derive(Clone, Copy)]
pub struct io_uring_cqe {
    pub user_data: u64,
    pub res: i32,
    pub flags: u32,
}

/// Offsets into the shared memory region for the submission ring.
#[derive(Clone, Copy)]
pub struct io_sqring_offsets {
    pub head: u32,
    pub tail: u32,
    pub ring_mask: u32,
    pub ring_entries: u32,
    pub flags: u32,
    pub dropped: u32,
    pub array: u32,
    pub resv1: u32,
    pub resv2: u64,
}

/// Offsets into the shared memory region for the completion ring.
#[derive(Clone, Copy)]
pub struct io_cqring_offsets {
    pub head: u32,
    pub tail: u32,
    pub ring_mask: u32,
    pub ring_entries: u32,
    pub overflow: u32,
    pub cqes: u32,
    pub flags: u32,
    pub resv1: u32,
    pub resv2: u64,
}

/// Parameters for `io_uring_setup`.
#[derive(Clone, Copy)]
pub struct io_uring_params {
    pub sq_entries: u32,
    pub cq_entries: u32,
    pub flags: u32,
    pub sq_thread_cpu: u32,
    pub sq_thread_idle: u32,
    pub features: u32,
    pub wq_fd: u32,
    pub resv: [u32; 3],
    pub sq_off: io_sqring_offsets,
    pub cq_off: io_cqring_offsets,
}

/// Whether every field of a submission entry is zero.
pub open spec fn sqe_is_zero(s: io_uring_sqe) -> bool {
    &&& s.opcode == 0
    &&& s.flags == 0
    &&& s.ioprio == 0
    &&& s.fd == 0
    &&& s.off_addr2 == 0
    &&& s.addr_splice_off_in == 0
    &&& s.len == 0
    &&& s.op_flags == 0
    &&& s.user_data == 0
    &&& s.buf_group == 0
    &&& s.personality == 0
    &&& s.splice_fd_in == 0
    &&& s.__pad2@ == seq![0u32, 0u32]
}

impl io_uring_sqe {
    /// The all-zero submission entry.
    pub fn zeroed() -> (s: Self)
        ensures
            sqe_is_zero(s),
    {
        let s = io_uring_sqe {
            opcode: 0,
            flags: 0,
            ioprio: 0,
            fd: 0,
            off_addr2: 0,
            addr_splice_off_in: 0,
            len: 0,
            op_flags: 0,
            user_data: 0,
            buf_group: 0,
            personality: 0,
            splice_fd_in: 0,
            __pad2: [0u32, 0u32],
        };
        assert(s.__pad2@ =~= seq![0u32, 0u32]);
        s
    }
}

/// Whether every field of `p` is zero but the setup flags, which are
/// `flags`, and the polling thread's idle time, which is `sq_thread_idle`.
pub open spec fn params_zero_except(p: io_uring_params, flags: u32, sq_thread_idle: u32) -> bool {
    &&& p.sq_entries == 0 && p.cq_entries == 0 && p.sq_thread_cpu == 0 && p.features == 0 && p.wq_fd == 0
    &&& p.flags == flags && p.sq_thread_idle == sq_thread_idle
    &&& p.resv@ == seq![0u32, 0u32, 0u32]
    &&& p.sq_off == (io_sqring_offsets {
        head: 0,
        tail: 0,
        ring_mask: 0,
        ring_entries: 0,
        flags: 0,
        dropped: 0,
        array: 0,
        resv1: 0,
        resv2: 0,
    })
    &&& p.cq_off == (io_cqring_offsets {
        head: 0,
        tail: 0,
        ring_mask: 0,
        ring_entries: 0,
        overflow: 0,
        cqes: 0,
        flags: 0,
        resv1: 0,
        resv2: 0,
    })
}

impl io_uring_params {
    fn with(flags: u32, sq_thread_idle: u32) -> (p: Self)
        ensures
            params_zero_except(p, flags, sq_thread_idle),
    {
        let p = io_uring_params {
            sq_entries: 0,
            cq_entries: 0,
            flags,
            sq_thread_cpu: 0,
            sq_thread_idle,
            features: 0,
            wq_fd: 0,
            resv: [0u32, 0u32, 0u32],
            sq_off: io_sqring_offsets {
                head: 0,
                tail: 0,
                ring_mask: 0,
                ring_entries: 0,
                flags: 0,
                dropped: 0,
                array: 0,
                resv1: 0,
                resv2: 0,
            },
            cq_off: io_cqring_offsets {
                head: 0,
                tail: 0,
                ring_mask: 0,
                ring_entries: 0,
                overflow: 0,
                cqes: 0,
                flags: 0,
                resv1: 0,
                resv2: 0,
            },
        };
        assert(p.resv@ =~= seq![0u32, 0u32, 0u32]);
        p
    }

    /// The all-zero setup parameters: the kernel picks the defaults.
    pub fn zeroed() -> (p: Self)
        ensures
            params_zero_except(p, 0, 0),
    {
        io_uring_params::with(0, 0)
    }

    /// Setup parameters asking for a kernel thread that polls the
    /// submission ring, sleeping after `sq_thread_idle` idle milliseconds
    /// (0: never); polling can only be chosen when the ring is set up.
    pub fn sqpoll(sq_thread_idle: u32) -> (p: Self)
        ensures
            params_zero_except(p, IORING_SETUP_SQPOLL, sq_thread_idle),
    {
        io_uring_params::with(IORING_SETUP_SQPOLL, sq_thread_idle)
    }
}

impl io_uring_cqe {
    /// The all-zero completion entry.
    pub fn zeroed() -> (c: Self)
        ensures
            c.user_data == 0,
            c.res == 0,
            c.flags == 0,
    {
        io_uring_cqe { user_data: 0, res: 0, flags: 0 }
    }
}

/// The message that `queue_init` reports for an `io_uring_setup` errno.
pub open spec fn setup_error_text(errno: int) -> &'static str {
    if errno == 12 {
        "ENOMEM: insufficient kernel resources"
    } else if errno == 22 {
        "EINVAL: invalid entries count or parameters"
    } else if errno == 27 {
        "EMFILE: too many open file descriptors"
    } else if errno == 28 {
        "ENOSPC: insufficient memory in the io_uring ring"
    } else {
        "unknown error during io_uring_setup"
    }
}

/// Decode the return value of `io_uring_setup`: a file descriptor on
/// success, `-errno` on failure (mapped to a descriptive message).
pub fn setup_outcome(fd: i32) -> (r: Result<i32, &'static str>)
    requires
        fd != i32::MIN,
    ensures
        fd >= 0 ==> r == Ok::<i32, &'static str>(fd),
        fd < 0 ==> r == Err::<i32, &'static str>(setup_error_text(-fd)),
{
    if fd < 0 {
        let errno = -fd;
        if errno == 12 {
            Err("ENOMEM: insufficient kernel resources")
        } else if errno == 22 {
            Err("EINVAL: invalid entries count or parameters")
        } else if errno == 27 {
            Err("EMFILE: too many open file descriptors")
        } else if errno == 28 {
            Err("ENOSPC: insufficient memory in the io_uring ring")
        } else {
            Err("unknown error during io_uring_setup")
        }
    } else {
        Ok(fd)
    }
}

} // verus!
