//! The io_uring backend's decisions: how each flow is encoded into
//! submission entries (switching to the fixed-buffer opcodes for registered
//! buffers), the bookkeeping of registered buffers and in-flight
//! operations, what each kernel return value means, and the sizes of the
//! shared-memory mappings. The mappings and system calls themselves are
//! made by the embedding program.
use crate::backend::RegisterBuffer;
use crate::error::Error;
use crate::flow::Flow;
use crate::operation::{IoSlice, Operation};
use crate::result::TorusResult;
use crate::rings::{cqe_completion, occupancy, pow2_u32};
use crate::sys::opcodes::{
    IORING_OP_ACCEPT, IORING_OP_ASYNC_CANCEL, IORING_OP_CLOSE, IORING_OP_CONNECT, IORING_OP_NOP,
    IORING_OP_READ, IORING_OP_READ_FIXED, IORING_OP_RECV, IORING_OP_SEND, IORING_OP_WRITE,
    IORING_OP_WRITE_FIXED,
};
use crate::sys::ioprio_flags::{IORING_ACCEPT_MULTISHOT, IORING_RECV_MULTISHOT};
use crate::sys::{io_uring_cqe, io_uring_params, io_uring_sqe};
use std::collections::HashMap;
use vstd::prelude::*;

verus! {

broadcast use vstd::std_specs::hash::group_hash_axioms;

/// The fields of a submission entry that encoding sets; every other field
/// of an encoded entry is zero.
#[derive(Clone, Copy)]
pub struct SqeFields {
    pub opcode: u8,
    pub ioprio: u16,
    pub fd: i32,
    pub off: u64,
    pub addr: u64,
    pub len: u32,
    pub buf_group: u16,
    pub user_data: u64,
}

/// `s` holds exactly the fields `f`, and zero everywhere else.
pub open spec fn encodes(s: io_uring_sqe, f: SqeFields) -> bool {
    &&& s.opcode == f.opcode
    &&& s.ioprio == f.ioprio
    &&& s.fd == f.fd
    &&& s.off_addr2 == f.off
    &&& s.addr_splice_off_in == f.addr
    &&& s.len == f.len
    &&& s.buf_group == f.buf_group
    &&& s.user_data == f.user_data
    &&& s.flags == 0
    &&& s.op_flags == 0
    &&& s.personality == 0
    &&& s.splice_fd_in == 0
    &&& s.__pad2@ == seq![0u32, 0u32]
}

/// An entry with only the given fields set.
pub open spec fn fields(
    opcode: u8,
    fd: i32,
    addr: u64,
    len: u32,
    off: u64,
    buf_group: u16,
    ioprio: u16,
    user_data: u64,
) -> SqeFields {
    SqeFields { opcode, ioprio, fd, off, addr, len, buf_group, user_data }
}

/// The registered-buffer index used for `buf`: its registration index when
/// `buf` is exactly a registered base and the index fits in 16 bits.
pub open spec fn fixed_slot(registered: Map<u64, u32>, buf: usize) -> Option<u16> {
    if registered.contains_key(buf as u64) && registered[buf as u64] <= u16::MAX {
        Some(registered[buf as u64] as u16)
    } else {
        None
    }
}

/// A positional read or write of `len` bytes at `buf`: the fixed opcode
/// with the registered index when `buf` is a registered base, else the
/// plain one.
pub open spec fn transfer_fields(
    fixed_op: u8,
    plain_op: u8,
    registered: Map<u64, u32>,
    fd: i32,
    buf: usize,
    len: usize,
    off: u64,
    user_data: u64,
) -> SqeFields {
    match fixed_slot(registered, buf) {
        Some(i) => fields(fixed_op, fd, buf as u64, len as u32, off, i, 0, user_data),
        None => fields(plain_op, fd, buf as u64, len as u32, off, 0, 0, user_data),
    }
}

/// The total length of the first `j` buffers.
pub open spec fn lens_before(bufs: Seq<IoSlice>, j: int) -> int
    decreases j,
{
    if j <= 0 {
        0
    } else {
        lens_before(bufs, j - 1) + bufs[j - 1].len
    }
}

/// A vectored transfer: one entry per buffer, at consecutive offsets from
/// `offset`; a no-op entry when there are no buffers.
pub open spec fn vectored_fields(
    fixed_op: u8,
    plain_op: u8,
    registered: Map<u64, u32>,
    fd: i32,
    bufs: Seq<IoSlice>,
    offset: u64,
    user_data: u64,
) -> Seq<SqeFields> {
    if bufs.len() == 0 {
        seq![fields(IORING_OP_NOP, 0, 0, 0, 0, 0, 0, user_data)]
    } else {
        Seq::new(
            bufs.len(),
            |j: int|
                transfer_fields(
                    fixed_op,
                    plain_op,
                    registered,
                    fd,
                    bufs[j].buf,
                    bufs[j].len,
                    (offset + lens_before(bufs, j)) as u64,
                    user_data,
                ),
        )
    }
}

/// The entries that submit one operation with caller data `user_data`.
pub open spec fn operation_fields(op: Operation, user_data: u64, registered: Map<u64, u32>) -> Seq<
    SqeFields,
> {
    match op {
        Operation::Read { fd, buf, len, offset } => seq![
            transfer_fields(IORING_OP_READ_FIXED, IORING_OP_READ, registered, fd, buf, len, offset, user_data),
        ],
        Operation::Write { fd, buf, len, offset } => seq![
            transfer_fields(IORING_OP_WRITE_FIXED, IORING_OP_WRITE, registered, fd, buf, len, offset, user_data),
        ],
        Operation::Readv { fd, bufs, offset } => vectored_fields(
            IORING_OP_READ_FIXED,
            IORING_OP_READ,
            registered,
            fd,
            bufs@,
            offset,
            user_data,
        ),
        Operation::Writev { fd, bufs, offset } => vectored_fields(
            IORING_OP_WRITE_FIXED,
            IORING_OP_WRITE,
            registered,
            fd,
            bufs@,
            offset,
            user_data,
        ),
        Operation::Accept { fd, addr, addrlen } => seq![
            fields(IORING_OP_ACCEPT, fd, addr as u64, 0, addrlen as u64, 0, 0, user_data),
        ],
        Operation::Connect { fd, addr, addrlen } => seq![
            fields(IORING_OP_CONNECT, fd, addr as u64, 0, addrlen as u64, 0, 0, user_data),
        ],
        Operation::Recv { fd, buf, len } => seq![
            fields(IORING_OP_RECV, fd, buf as u64, len as u32, 0, 0, 0, user_data),
        ],
        Operation::Send { fd, buf, len } => seq![
            fields(IORING_OP_SEND, fd, buf as u64, len as u32, 0, 0, 0, user_data),
        ],
        Operation::Close { fd } => seq![fields(IORING_OP_CLOSE, fd, 0, 0, 0, 0, 0, user_data)],
    }
}

/// A vectored operation's offsets stay within 64 bits: the start offset
/// plus the lengths of all its buffers.
pub open spec fn offsets_fit(op: Operation) -> bool {
    match op {
        Operation::Readv { bufs, offset, .. } => offset + lens_before(bufs@, bufs@.len() as int)
            <= u64::MAX,
        Operation::Writev { bufs, offset, .. } => offset + lens_before(bufs@, bufs@.len() as int)
            <= u64::MAX,
        _ => true,
    }
}

fn vectored_end_fits(bufs: &Vec<IoSlice>, offset: u64) -> (b: bool)
    ensures
        b == (offset + lens_before(bufs@, bufs@.len() as int) <= u64::MAX),
{
    let mut total: u64 = offset;
    let mut i: usize = 0;
    while i < bufs.len()
        invariant
            i <= bufs@.len(),
            total == offset + lens_before(bufs@, i as int),
        decreases bufs.len() - i,
    {
        let l = bufs[i].len as u64;
        if total > u64::MAX - l {
            proof {
                lemma_lens_before_monotone(bufs@, i as int + 1, bufs@.len() as int);
            }
            return false;
        }
        total = total + l;
        i = i + 1;
    }
    true
}

/// Whether every vectored operation among `flows` keeps its offsets within
/// 64 bits (see [`offsets_fit`]).
pub fn flows_offsets_fit(flows: &[Flow]) -> (b: bool)
    ensures
        b == forall|i: int| 0 <= i < flows@.len() ==> offsets_fit(#[trigger] flows@[i].op_of()),
{
    let mut i: usize = 0;
    while i < flows.len()
        invariant
            i <= flows@.len(),
            forall|k: int| 0 <= k < i ==> offsets_fit(#[trigger] flows@[k].op_of()),
        decreases flows.len() - i,
    {
        let fits = match flows[i].operation() {
            Operation::Readv { bufs, offset, .. } => vectored_end_fits(bufs, *offset),
            Operation::Writev { bufs, offset, .. } => vectored_end_fits(bufs, *offset),
            _ => true,
        };
        if !fits {
            return false;
        }
        i = i + 1;
    }
    true
}

/// The entries that submit the first `n` flows, in order.
pub open spec fn flows_fields(flows: Seq<Flow>, n: int, registered: Map<u64, u32>) -> Seq<SqeFields>
    decreases n,
{
    if n <= 0 {
        Seq::empty()
    } else {
        flows_fields(flows, n - 1, registered) + operation_fields(
            flows[n - 1].op_of(),
            flows[n - 1].user_data_of(),
            registered,
        )
    }
}

proof fn lemma_flows_fields_prefix(flows: Seq<Flow>, k: int, n: int, registered: Map<u64, u32>)
    requires
        0 <= k <= n,
    ensures
        flows_fields(flows, k, registered).len() <= flows_fields(flows, n, registered).len(),
        forall|i: int|
            0 <= i < flows_fields(flows, k, registered).len() ==> #[trigger] flows_fields(
                flows,
                k,
                registered,
            )[i] == flows_fields(flows, n, registered)[i],
    decreases n - k,
{
    if k < n {
        lemma_flows_fields_prefix(flows, k, n - 1, registered);
        let a = flows_fields(flows, n - 1, registered);
        let b = operation_fields(flows[n - 1].op_of(), flows[n - 1].user_data_of(), registered);
        assert(flows_fields(flows, n, registered) == a + b);
    }
}

/// The number of whole flows, from the first, whose entries fit in `free`
/// slots, counting on from `k` flows.
pub open spec fn fitting_flows(flows: Seq<Flow>, free: int, registered: Map<u64, u32>, k: int) -> int
    decreases flows.len() - k,
{
    if k < 0 || k >= flows.len() || flows_fields(flows, k + 1, registered).len() > free {
        k
    } else {
        fitting_flows(flows, free, registered, k + 1)
    }
}

/// The submission-ring slot that entry `i` past the tail `tail` goes to.
pub open spec fn ring_slot(tail: u32, i: int, entries: u32) -> u32 {
    ((tail + i) as u32) & ((entries - 1) as u32)
}

/// A submission entry and the ring slot it is written to.
#[derive(Clone, Copy)]
pub struct SqWrite {
    /// The slot of the submission ring.
    pub slot: u32,
    /// The entry written there.
    pub sqe: io_uring_sqe,
}

/// What to write into the submission ring: the entries of the first
/// `flows` flows, each with its slot.
pub struct SqPlan {
    /// The entries, in the order they follow the tail.
    pub writes: Vec<SqWrite>,
    /// How many flows they carry.
    pub flows: usize,
}

/// The entries `sqes` encode the field lists `fs`, one for one.
pub open spec fn encodes_all(sqes: Seq<io_uring_sqe>, fs: Seq<SqeFields>) -> bool {
    &&& sqes.len() == fs.len()
    &&& forall|i: int| 0 <= i < sqes.len() ==> encodes(#[trigger] sqes[i], fs[i])
}

fn encode(f: SqeFields) -> (s: io_uring_sqe)
    ensures
        encodes(s, f),
{
    let s = io_uring_sqe {
        opcode: f.opcode,
        flags: 0,
        ioprio: f.ioprio,
        fd: f.fd,
        off_addr2: f.off,
        addr_splice_off_in: f.addr,
        len: f.len,
        op_flags: 0,
        user_data: f.user_data,
        buf_group: f.buf_group,
        personality: 0,
        splice_fd_in: 0,
        __pad2: [0u32, 0u32],
    };
    assert(s.__pad2@ =~= seq![0u32, 0u32]);
    s
}

/// The io_uring backend's state: the ring's file descriptor, the number of
/// operations in flight, and the registered buffers (base address to
/// registration index).
pub struct UringBackend {
    fd: i32,
    in_flight: u32,
    registered: HashMap<u64, u32>,
}

impl UringBackend {
    /// The ring's file descriptor.
    pub closed spec fn ring_fd(&self) -> i32 {
        self.fd
    }

    /// The number of operations submitted and not yet reaped.
    pub closed spec fn pending(&self) -> u32 {
        self.in_flight
    }

    /// The registered buffers: base address to registration index.
    pub closed spec fn registrations(&self) -> Map<u64, u32> {
        self.registered@
    }

    /// The state of a freshly set up ring with file descriptor `fd`.
    pub fn from_fd(fd: i32) -> (b: Self)
        ensures
            b.ring_fd() == fd,
            b.pending() == 0,
            b.registrations() == Map::<u64, u32>::empty(),
    {
        UringBackend { fd, in_flight: 0, registered: HashMap::new() }
    }

    /// The ring's file descriptor.
    pub fn fd(&self) -> (fd: i32)
        ensures
            fd == self.ring_fd(),
    {
        self.fd
    }

    /// Look up the registered-buffer index for `buf`, if it matches a
    /// registered region base exactly.
    fn fixed_index(&self, buf: usize) -> (r: Option<u16>)
        ensures
            r == fixed_slot(self.registrations(), buf),
    {
        match self.registered.get(&(buf as u64)) {
            Some(i) => if *i <= u16::MAX as u32 {
                Some(*i as u16)
            } else {
                None
            },
            None => None,
        }
    }

    fn transfer(
        &self,
        fixed_op: u8,
        plain_op: u8,
        fd: i32,
        buf: usize,
        len: usize,
        off: u64,
        user_data: u64,
    ) -> (s: io_uring_sqe)
        ensures
            encodes(
                s,
                transfer_fields(fixed_op, plain_op, self.registrations(), fd, buf, len, off, user_data),
            ),
    {
        let l = #[verifier::truncate] (len as u32);
        match self.fixed_index(buf) {
            Some(i) => encode(
                SqeFields {
                    opcode: fixed_op,
                    ioprio: 0,
                    fd,
                    off,
                    addr: buf as u64,
                    len: l,
                    buf_group: i,
                    user_data,
                },
            ),
            None => encode(
                SqeFields {
                    opcode: plain_op,
                    ioprio: 0,
                    fd,
                    off,
                    addr: buf as u64,
                    len: l,
                    buf_group: 0,
                    user_data,
                },
            ),
        }
    }

    fn push_vectored(
        &self,
        out: &mut Vec<io_uring_sqe>,
        fixed_op: u8,
        plain_op: u8,
        fd: i32,
        bufs: &Vec<IoSlice>,
        offset: u64,
        user_data: u64,
    )
        requires
            offset + lens_before(bufs@, bufs@.len() as int) <= u64::MAX,
        ensures
            final(out)@.len() >= old(out)@.len(),
            final(out)@.subrange(0, old(out)@.len() as int) == old(out)@,
            encodes_all(
                final(out)@.subrange(old(out)@.len() as int, final(out)@.len() as int),
                vectored_fields(
                    fixed_op,
                    plain_op,
                    self.registrations(),
                    fd,
                    bufs@,
                    offset,
                    user_data,
                ),
            ),
    {
        let ghost start = out@.len();
        if bufs.len() == 0 {
            out.push(
                encode(
                    SqeFields {
                        opcode: IORING_OP_NOP,
                        ioprio: 0,
                        fd: 0,
                        off: 0,
                        addr: 0,
                        len: 0,
                        buf_group: 0,
                        user_data,
                    },
                ),
            );
            assert(out@.subrange(0, start as int) =~= old(out)@);
            return ;
        }
        let ghost target = vectored_fields(
            fixed_op,
            plain_op,
            self.registrations(),
            fd,
            bufs@,
            offset,
            user_data,
        );
        let mut current: u64 = offset;
        let mut j: usize = 0;
        while j < bufs.len()
            invariant
                j <= bufs.len(),
                bufs.len() > 0,
                out@.len() == start + j,
                out@.subrange(0, start as int) == old(out)@,
                current == offset + lens_before(bufs@, j as int),
                offset + lens_before(bufs@, bufs@.len() as int) <= u64::MAX,
                target == vectored_fields(
                    fixed_op,
                    plain_op,
                    self.registrations(),
                    fd,
                    bufs@,
                    offset,
                    user_data,
                ),
                forall|k: int| 0 <= k < j ==> encodes(#[trigger] out@[start + k], target[k]),
            decreases bufs.len() - j,
        {
            let b = bufs[j];
            let s = self.transfer(fixed_op, plain_op, fd, b.buf, b.len, current, user_data);
            out.push(s);
            proof {
                lemma_lens_before_monotone(bufs@, j as int + 1, bufs@.len() as int);
            }
            current = current + b.len as u64;
            j = j + 1;
        }
        assert forall|k: int|
            0 <= k < out@.len() - start implies encodes(
            #[trigger] out@.subrange(start as int, out@.len() as int)[k],
            target[k],
        ) by {
            assert(out@.subrange(start as int, out@.len() as int)[k] == out@[start + k]);
        }
    }

    fn push_operation(&self, out: &mut Vec<io_uring_sqe>, op: &Operation, user_data: u64)
        requires
            offsets_fit(*op),
        ensures
            final(out)@.len() >= old(out)@.len(),
            final(out)@.subrange(0, old(out)@.len() as int) == old(out)@,
            encodes_all(
                final(out)@.subrange(old(out)@.len() as int, final(out)@.len() as int),
                operation_fields(*op, user_data, self.registrations()),
            ),
    {
        let ghost start = out@.len();
        match op {
            Operation::Readv { fd, bufs, offset } => {
                self.push_vectored(
                    out,
                    IORING_OP_READ_FIXED,
                    IORING_OP_READ,
                    *fd,
                    bufs,
                    *offset,
                    user_data,
                );
                return ;
            },
            Operation::Writev { fd, bufs, offset } => {
                self.push_vectored(
                    out,
                    IORING_OP_WRITE_FIXED,
                    IORING_OP_WRITE,
                    *fd,
                    bufs,
                    *offset,
                    user_data,
                );
                return ;
            },
            _ => {},
        }
        let s = match op {
            Operation::Read { fd, buf, len, offset } => self.transfer(
                IORING_OP_READ_FIXED,
                IORING_OP_READ,
                *fd,
                *buf,
                *len,
                *offset,
                user_data,
            ),
            Operation::Write { fd, buf, len, offset } => self.transfer(
                IORING_OP_WRITE_FIXED,
                IORING_OP_WRITE,
                *fd,
                *buf,
                *len,
                *offset,
                user_data,
            ),
            Operation::Accept { fd, addr, addrlen } => encode(
                SqeFields {
                    opcode: IORING_OP_ACCEPT,
                    ioprio: 0,
                    fd: *fd,
                    off: *addrlen as u64,
                    addr: *addr as u64,
                    len: 0,
                    buf_group: 0,
                    user_data,
                },
            ),
            Operation::Connect { fd, addr, addrlen } => encode(
                SqeFields {
                    opcode: IORING_OP_CONNECT,
                    ioprio: 0,
                    fd: *fd,
                    off: *addrlen as u64,
                    addr: *addr as u64,
                    len: 0,
                    buf_group: 0,
                    user_data,
                },
            ),
            Operation::Recv { fd, buf, len } => encode(
                SqeFields {
                    opcode: IORING_OP_RECV,
                    ioprio: 0,
                    fd: *fd,
                    off: 0,
                    addr: *buf as u64,
                    len: #[verifier::truncate] (*len as u32),
                    buf_group: 0,
                    user_data,
                },
            ),
            Operation::Send { fd, buf, len } => encode(
                SqeFields {
                    opcode: IORING_OP_SEND,
                    ioprio: 0,
                    fd: *fd,
                    off: 0,
                    addr: *buf as u64,
                    len: #[verifier::truncate] (*len as u32),
                    buf_group: 0,
                    user_data,
                },
            ),
            Operation::Close { fd } => encode(
                SqeFields {
                    opcode: IORING_OP_CLOSE,
                    ioprio: 0,
                    fd: *fd,
                    off: 0,
                    addr: 0,
                    len: 0,
                    buf_group: 0,
                    user_data,
                },
            ),
            Operation::Readv { .. } => io_uring_sqe::zeroed(),
            Operation::Writev { .. } => io_uring_sqe::zeroed(),
        };
        out.push(s);
        assert(out@.subrange(0, start as int) =~= old(out)@);
        assert(out@.subrange(start as int, out@.len() as int) =~= seq![s]);
    }

    /// The submission entries for `flows`, in the order they are written to
    /// the ring from its tail: each flow's entries carry its caller data, a
    /// read or write of a registered buffer base uses the fixed opcode and
    /// the buffer's registration index, and a vectored operation takes one
    /// entry per buffer at consecutive offsets. Fails with `SubmissionFull`
    /// when there is nothing to submit.
    pub fn plan_submission(&self, flows: &[Flow]) -> (r: Result<Vec<io_uring_sqe>, Error>)
        requires
            forall|i: int| 0 <= i < flows@.len() ==> offsets_fit(#[trigger] flows@[i].op_of()),
        ensures
            match r {
                Ok(sqes) => sqes@.len() > 0 && encodes_all(
                    sqes@,
                    flows_fields(flows@, flows@.len() as int, self.registrations()),
                ),
                Err(e) => e == Error::SubmissionFull && flows_fields(
                    flows@,
                    flows@.len() as int,
                    self.registrations(),
                ).len() == 0,
            },
    {
        let mut out: Vec<io_uring_sqe> = Vec::new();
        let mut i: usize = 0;
        while i < flows.len()
            invariant
                i <= flows.len(),
                forall|k: int| 0 <= k < flows@.len() ==> offsets_fit(#[trigger] flows@[k].op_of()),
                encodes_all(out@, flows_fields(flows@, i as int, self.registrations())),
            decreases flows.len() - i,
        {
            let ghost before = out@;
            let flow = &flows[i];
            assert(offsets_fit(flows@[i as int].op_of()));
            self.push_operation(&mut out, flow.operation(), flow.user_data());
            proof {
                let prev = flows_fields(flows@, i as int, self.registrations());
                let add = operation_fields(
                    flows@[i as int].op_of(),
                    flows@[i as int].user_data_of(),
                    self.registrations(),
                );
                assert(flows_fields(flows@, i as int + 1, self.registrations()) == prev + add);
                assert forall|k: int| 0 <= k < out@.len() implies encodes(
                    #[trigger] out@[k],
                    (prev + add)[k],
                ) by {
                    if k < before.len() {
                        assert(out@[k] == out@.subrange(0, before.len() as int)[k]);
                        assert(encodes(before[k], prev[k]));
                    } else {
                        assert(out@[k] == out@.subrange(before.len() as int, out@.len() as int)[k
                            - before.len()]);
                    }
                }
            }
            i = i + 1;
        }
        if out.len() == 0 {
            Err(Error::SubmissionFull)
        } else {
            Ok(out)
        }
    }
}

impl UringBackend {
    fn entry_count(op: &Operation) -> (n: usize)
        ensures
            n == operation_fields(*op, 0, Map::empty()).len(),
            forall|ud: u64, reg: Map<u64, u32>| #[trigger] operation_fields(*op, ud, reg).len() == n,
    {
        match op {
            Operation::Readv { bufs, .. } => if bufs.len() == 0 {
                1
            } else {
                bufs.len()
            },
            Operation::Writev { bufs, .. } => if bufs.len() == 0 {
                1
            } else {
                bufs.len()
            },
            _ => 1,
        }
    }

    /// What to write into a submission ring of `entries` slots (a power of
    /// two) whose consumer is at `head` and producer at `tail`: the entries
    /// of as many whole flows, from the first, as fit in the free slots
    /// (the size less the entries not yet consumed), each entry in the slot
    /// that follows the previous one from the tail. Fails with
    /// `SubmissionFull` when not even the first flow fits (or there are no
    /// flows), so nothing the kernel has not yet consumed is overwritten.
    pub fn plan_ring_submission(&self, flows: &[Flow], head: u32, tail: u32, entries: u32) -> (r:
        Result<SqPlan, Error>)
        requires
            pow2_u32(entries),
            occupancy(head, tail) <= entries,
            forall|i: int| 0 <= i < flows@.len() ==> offsets_fit(#[trigger] flows@[i].op_of()),
        ensures
            ({
                let free = entries - occupancy(head, tail);
                let k = fitting_flows(flows@, free, self.registrations(), 0);
                let fs = flows_fields(flows@, k, self.registrations());
                match r {
                    Ok(p) => {
                        &&& p.flows == k
                        &&& 0 < p.writes@.len() == fs.len() <= free
                        &&& forall|i: int|
                            0 <= i < p.writes@.len() ==> {
                                &&& (#[trigger] p.writes@[i]).slot == ring_slot(tail, i, entries)
                                &&& encodes(p.writes@[i].sqe, fs[i])
                            }
                    },
                    Err(e) => e == Error::SubmissionFull && fs.len() == 0,
                }
            }),
    {
        let free: u32 = entries - tail.wrapping_sub(head);
        let ghost reg = self.registrations();
        let mut k: usize = 0;
        let mut used: usize = 0;
        let mut stop = false;
        while k < flows.len() && !stop
            invariant
                k <= flows@.len(),
                stop ==> fitting_flows(flows@, free as int, reg, k as int) == k,
                free == entries - occupancy(head, tail),
                used == flows_fields(flows@, k as int, reg).len(),
                used <= free,
                fitting_flows(flows@, free as int, reg, k as int) == fitting_flows(
                    flows@,
                    free as int,
                    reg,
                    0,
                ),
            decreases flows.len() - k + (if stop {
                0int
            } else {
                1int
            }),
        {
            let c = UringBackend::entry_count(flows[k].operation());
            proof {
                assert(flows_fields(flows@, k as int + 1, reg) == flows_fields(flows@, k as int, reg)
                    + operation_fields(flows@[k as int].op_of(), flows@[k as int].user_data_of(), reg));
                assert(operation_fields(flows@[k as int].op_of(), flows@[k as int].user_data_of(), reg).len() == c);
            }
            if c > free as usize - used {
                stop = true;
            } else {
                used = used + c;
                k = k + 1;
            }
        }
        assert(fitting_flows(flows@, free as int, reg, 0) == k);
        proof {
            lemma_flows_fields_prefix(flows@, k as int, flows@.len() as int, reg);
        }
        let all = match self.plan_submission(flows) {
            Ok(v) => v,
            Err(e) => return Err(e),
        };
        if used == 0 {
            return Err(Error::SubmissionFull);
        }
        let mut writes: Vec<SqWrite> = Vec::new();
        let mut i: usize = 0;
        while i < used
            invariant
                i <= used,
                pow2_u32(entries),
                used <= free,
                used == flows_fields(flows@, k as int, reg).len(),
                used <= all@.len(),
                encodes_all(all@, flows_fields(flows@, flows@.len() as int, reg)),
                forall|j: int|
                    0 <= j < flows_fields(flows@, k as int, reg).len() ==> #[trigger] flows_fields(
                        flows@,
                        k as int,
                        reg,
                    )[j] == flows_fields(flows@, flows@.len() as int, reg)[j],
                writes@.len() == i,
                forall|j: int|
                    0 <= j < i ==> {
                        &&& (#[trigger] writes@[j]).slot == ring_slot(tail, j, entries)
                        &&& encodes(writes@[j].sqe, flows_fields(flows@, k as int, reg)[j])
                    },
            decreases used - i,
        {
            let slot = tail.wrapping_add(i as u32) & (entries - 1);
            proof {
                assert(tail.wrapping_add(i as u32) == ((tail + i) as u32)) by (bit_vector)
                    requires
                        i < 0x1_0000_0000,
                ;
                assert(encodes(all@[i as int], flows_fields(flows@, flows@.len() as int, reg)[i as int]));
            }
            writes.push(SqWrite { slot, sqe: all[i] });
            i = i + 1;
        }
        Ok(SqPlan { writes, flows: k })
    }

    /// The slot that a single entry goes to in a submission ring of
    /// `entries` slots (a power of two) whose consumer is at `head` and
    /// producer at `tail`: the slot of the tail, or `SubmissionFull` when
    /// every slot holds an entry not yet consumed.
    pub fn ring_slot_for_one(head: u32, tail: u32, entries: u32) -> (r: Result<u32, Error>)
        requires
            pow2_u32(entries),
            occupancy(head, tail) <= entries,
        ensures
            occupancy(head, tail) == entries ==> r == Err::<u32, Error>(Error::SubmissionFull),
            occupancy(head, tail) < entries ==> r == Ok::<u32, Error>(ring_slot(tail, 0, entries)),
    {
        if tail.wrapping_sub(head) >= entries {
            Err(Error::SubmissionFull)
        } else {
            Ok(tail & (entries - 1))
        }
    }
}

/// The registrations recorded for the first `n` buffers: each base address
/// maps to its position, a later duplicate base replacing an earlier one.
pub open spec fn registration_map(buffers: Seq<RegisterBuffer>, n: int) -> Map<u64, u32>
    decreases n,
{
    if n <= 0 {
        Map::empty()
    } else {
        registration_map(buffers, n - 1).insert(buffers[n - 1].ptr as u64, (n - 1) as u32)
    }
}

/// After registering buffers with distinct base addresses, a transfer on
/// the base of buffer `i` uses the fixed-buffer index `i` (when it fits in
/// 16 bits).
pub proof fn law_registered_base_uses_its_index(buffers: Seq<RegisterBuffer>, i: int)
    requires
        0 <= i < buffers.len(),
        i <= u16::MAX,
        buffers.len() <= u32::MAX,
        forall|j: int, k: int|
            0 <= j < k < buffers.len() ==> (#[trigger] buffers[j]).ptr as u64 != (#[trigger] buffers[k]).ptr as u64,
    ensures
        fixed_slot(registration_map(buffers, buffers.len() as int), buffers[i].ptr) == Some(
            i as u16,
        ),
{
    lemma_registration_map_at(buffers, buffers.len() as int, i);
}

proof fn lemma_registration_map_at(buffers: Seq<RegisterBuffer>, n: int, i: int)
    requires
        0 <= i < n <= buffers.len(),
        buffers.len() <= u32::MAX,
        forall|j: int, k: int|
            0 <= j < k < buffers.len() ==> (#[trigger] buffers[j]).ptr as u64 != (#[trigger] buffers[k]).ptr as u64,
    ensures
        registration_map(buffers, n).contains_key(buffers[i].ptr as u64),
        registration_map(buffers, n)[buffers[i].ptr as u64] == i as u32,
    decreases n,
{
    if i < n - 1 {
        lemma_registration_map_at(buffers, n - 1, i);
        assert(buffers[i].ptr as u64 != buffers[n - 1].ptr as u64);
    }
}

/// The error a negative kernel return value reports: its negation as an
/// errno (two's complement, so the minimum maps to itself).
pub open spec fn os_error(ret: i32) -> Error {
    Error::Os(if ret == i32::MIN { ret } else { (-ret) as i32 })
}

fn os_error_of(ret: i32) -> (e: Error)
    ensures
        e == os_error(ret),
{
    if ret == i32::MIN {
        Error::Os(ret)
    } else {
        Error::Os(-ret)
    }
}

impl UringBackend {
    /// Apply the kernel's answer `ret` to a buffer registration request for
    /// the non-empty `buffers`: on failure the registrations stay as they
    /// were and the errno is reported; on success they become exactly these
    /// buffers, each at its position.
    pub fn apply_registration(&mut self, buffers: &[RegisterBuffer], ret: i32) -> (r: Result<
        (),
        Error,
    >)
        ensures
            ret < 0 ==> r == Err::<(), Error>(os_error(ret)) && final(self).registrations()
                == old(self).registrations(),
            ret >= 0 ==> r == Ok::<(), Error>(()) && final(self).registrations()
                == registration_map(buffers@, buffers@.len() as int),
            final(self).ring_fd() == old(self).ring_fd(),
            final(self).pending() == old(self).pending(),
    {
        if ret < 0 {
            return Err(os_error_of(ret));
        }
        self.registered.clear();
        let mut i: usize = 0;
        while i < buffers.len()
            invariant
                i <= buffers.len(),
                self.registered@ == registration_map(buffers@, i as int),
                self.fd == old(self).fd,
                self.in_flight == old(self).in_flight,
            decreases buffers.len() - i,
        {
            let index = #[verifier::truncate] (i as u32);
            self.registered.insert(buffers[i].ptr as u64, index);
            i = i + 1;
        }
        Ok(())
    }

    /// Apply the kernel's answer `ret` to an unregistration request: on
    /// success no buffer is registered any more.
    pub fn apply_unregistration(&mut self, ret: i32) -> (r: Result<(), Error>)
        ensures
            ret < 0 ==> r == Err::<(), Error>(os_error(ret)) && final(self).registrations()
                == old(self).registrations(),
            ret >= 0 ==> r == Ok::<(), Error>(()) && final(self).registrations() == Map::<
                u64,
                u32,
            >::empty(),
            final(self).ring_fd() == old(self).ring_fd(),
            final(self).pending() == old(self).pending(),
    {
        if ret < 0 {
            return Err(os_error_of(ret));
        }
        self.registered.clear();
        Ok(())
    }

    /// Apply the kernel's answer `ret` to the submission of `flows` flows
    /// written as `entries` entries (a vectored flow takes one entry per
    /// buffer): on success the entries, each of which completes on its own,
    /// are counted in flight and the number of flows is returned.
    pub fn finish_submit(&mut self, entries: u32, flows: usize, ret: i32) -> (r: Result<usize, Error>)
        ensures
            ret < 0 ==> r == Err::<usize, Error>(os_error(ret)) && final(self).pending() == old(
                self,
            ).pending(),
            ret >= 0 ==> r == Ok::<usize, Error>(flows) && final(self).pending()
                == old(self).pending().wrapping_add(entries),
            final(self).ring_fd() == old(self).ring_fd(),
            final(self).registrations() == old(self).registrations(),
    {
        if ret < 0 {
            Err(os_error_of(ret))
        } else {
            self.in_flight = self.in_flight.wrapping_add(entries);
            Ok(flows)
        }
    }

    /// The entry that arms a multi-shot accept on `listen_fd`: it stays
    /// active after each completion, delivering one connection per
    /// completion.
    pub fn multi_accept_sqe(listen_fd: i32, addr: usize, addrlen: usize, user_data: u64) -> (s:
        io_uring_sqe)
        ensures
            encodes(
                s,
                fields(
                    IORING_OP_ACCEPT,
                    listen_fd,
                    addr as u64,
                    0,
                    addrlen as u64,
                    0,
                    IORING_ACCEPT_MULTISHOT,
                    user_data,
                ),
            ),
    {
        encode(
            SqeFields {
                opcode: IORING_OP_ACCEPT,
                ioprio: IORING_ACCEPT_MULTISHOT,
                fd: listen_fd,
                off: addrlen as u64,
                addr: addr as u64,
                len: 0,
                buf_group: 0,
                user_data,
            },
        )
    }

    /// The entry that arms a multi-shot receive of up to `len` bytes into
    /// `buf` on `fd`.
    pub fn multi_recv_sqe(fd: i32, buf: usize, len: usize, user_data: u64) -> (s: io_uring_sqe)
        ensures
            encodes(
                s,
                fields(
                    IORING_OP_RECV,
                    fd,
                    buf as u64,
                    len as u32,
                    0,
                    0,
                    IORING_RECV_MULTISHOT,
                    user_data,
                ),
            ),
    {
        encode(
            SqeFields {
                opcode: IORING_OP_RECV,
                ioprio: IORING_RECV_MULTISHOT,
                fd,
                off: 0,
                addr: buf as u64,
                len: #[verifier::truncate] (len as u32),
                buf_group: 0,
                user_data,
            },
        )
    }

    /// The entry that cancels the multi-shot operation submitted with
    /// `target_user_data`; its own completion carries `cancel_user_data`.
    pub fn cancel_sqe(target_user_data: u64, cancel_user_data: u64) -> (s: io_uring_sqe)
        ensures
            encodes(
                s,
                fields(IORING_OP_ASYNC_CANCEL, 0, target_user_data, 0, 0, 0, 0, cancel_user_data),
            ),
    {
        encode(
            SqeFields {
                opcode: IORING_OP_ASYNC_CANCEL,
                ioprio: 0,
                fd: 0,
                off: 0,
                addr: target_user_data,
                len: 0,
                buf_group: 0,
                user_data: cancel_user_data,
            },
        )
    }

    /// Take the completion entries that were ready in the ring, in ring
    /// order: each becomes a completion appended to `results`, and they
    /// leave the in-flight count. Returns how many there were.
    pub fn reap_entries(&mut self, cqes: &[io_uring_cqe], results: &mut Vec<TorusResult>) -> (n:
        usize)
        requires
            cqes@.len() <= u32::MAX,
        ensures
            n == cqes@.len(),
            final(results)@ == old(results)@ + cqes@.map_values(|c: io_uring_cqe| cqe_completion(c)),
            final(self).pending() == old(self).pending().wrapping_sub(n as u32),
            final(self).ring_fd() == old(self).ring_fd(),
            final(self).registrations() == old(self).registrations(),
    {
        let mut i: usize = 0;
        while i < cqes.len()
            invariant
                i <= cqes@.len(),
                results@ == old(results)@ + cqes@.subrange(0, i as int).map_values(
                    |c: io_uring_cqe| cqe_completion(c),
                ),
            decreases cqes.len() - i,
        {
            let c = cqes[i];
            results.push(TorusResult::new(c.res as i64, c.user_data));
            i = i + 1;
            assert(cqes@.subrange(0, i as int) =~= cqes@.subrange(0, i - 1).push(c));
        }
        assert(cqes@.subrange(0, i as int) =~= cqes@);
        self.in_flight = self.in_flight.wrapping_sub(i as u32);
        i
    }

    /// The number of completions a wait asks the kernel for: none when
    /// nothing is in flight, else one.
    pub fn wait_min_complete(&self) -> (n: u32)
        ensures
            n == (if self.pending() == 0 {
                0u32
            } else {
                1u32
            }),
    {
        if self.in_flight == 0 {
            0
        } else {
            1
        }
    }

    /// What a wait reports for the kernel's answer `ret`.
    pub fn wait_outcome(ret: i32) -> (r: Result<(), Error>)
        ensures
            ret < 0 ==> r == Err::<(), Error>(os_error(ret)),
            ret >= 0 ==> r == Ok::<(), Error>(()),
    {
        if ret < 0 {
            Err(os_error_of(ret))
        } else {
            Ok(())
        }
    }

    /// Submission polling can only be chosen when the ring is set up (see
    /// [`io_uring_params::sqpoll`]); asking for it afterwards is refused
    /// with `ENOSYS`.
    pub fn enable_sqpoll(&self, sq_thread_idle: u32) -> (r: Result<(), i32>)
        ensures
            r == Err::<(), i32>(38),
    {
        Err(38)
    }

    /// The number of in-flight (submitted but not yet completed) operations.
    pub fn in_flight(&self) -> (n: u32)
        ensures
            n == self.pending(),
    {
        self.in_flight
    }
}

/// `r` is `x` rounded up to a whole number of pages of `page` bytes (a
/// power of two): the smallest page-aligned value that is at least `x`.
pub open spec fn rounded_to_page(x: int, page: usize, r: usize) -> bool {
    r & ((page - 1) as usize) == 0 && x <= r < x + page
}

fn round_to_page(x: usize, page: usize) -> (r: usize)
    requires
        page != 0,
        page & ((page - 1) as usize) == 0,
        x + page - 1 <= usize::MAX,
    ensures
        rounded_to_page(x as int, page, r),
{
    let y = x + (page - 1);
    let r = y & !(page - 1);
    assert(r & ((page - 1) as usize) == 0 && r <= y && y - r < page) by (bit_vector)
        requires
            page != 0,
            page & ((page - 1) as usize) == 0,
            r == y & !((page - 1) as usize),
    ;
    r
}

/// The lengths of the three shared-memory mappings of a ring.
pub struct RingLayout {
    /// The submission ring: header fields and the index array.
    pub sq_ring_size: usize,
    /// The array of submission entries.
    pub sqe_array_size: usize,
    /// The completion ring: header fields and the completion entries.
    pub cq_ring_size: usize,
}

/// The mapping lengths for a ring set up with `params` on a system with
/// pages of `page_size` bytes: the submission ring up to the end of its
/// 4-byte index array, the 64-byte submission entries, and the completion
/// ring up to the end of its 16-byte entries, each rounded up to whole
/// pages.
pub fn ring_layout(params: &io_uring_params, page_size: usize) -> (l: RingLayout)
    requires
        page_size != 0,
        page_size & ((page_size - 1) as usize) == 0,
        params.sq_off.array + params.sq_entries * 4 + page_size - 1 <= usize::MAX,
        params.sq_entries * 64 + page_size - 1 <= usize::MAX,
        params.cq_off.cqes + params.cq_entries * 16 + page_size - 1 <= usize::MAX,
    ensures
        rounded_to_page(
            params.sq_off.array + params.sq_entries * 4,
            page_size,
            l.sq_ring_size,
        ),
        rounded_to_page(params.sq_entries * 64, page_size, l.sqe_array_size),
        rounded_to_page(
            params.cq_off.cqes + params.cq_entries * 16,
            page_size,
            l.cq_ring_size,
        ),
{
    let sq = params.sq_off.array as usize + params.sq_entries as usize * 4;
    let sqes = params.sq_entries as usize * 64;
    let cq = params.cq_off.cqes as usize + params.cq_entries as usize * 16;
    RingLayout {
        sq_ring_size: round_to_page(sq, page_size),
        sqe_array_size: round_to_page(sqes, page_size),
        cq_ring_size: round_to_page(cq, page_size),
    }
}

pub(crate) proof fn lemma_lens_before_monotone(bufs: Seq<IoSlice>, j: int, k: int)
    requires
        0 <= j <= k <= bufs.len(),
    ensures
        lens_before(bufs, j) <= lens_before(bufs, k),
    decreases k - j,
{
    if j < k {
        lemma_lens_before_monotone(bufs, j, k - 1);
    }
}


/// Whether `e` is the single-buffer entry with `opcode` on `fd` for `len`
/// bytes at `addr`, handing back `user_data`.
pub open spec fn entry_is(e: SqeFields, opcode: u8, fd: i32, addr: u64, len: u32, user_data: u64) -> bool {
    &&& e.opcode == opcode
    &&& e.fd == fd
    &&& e.addr == addr
    &&& e.len == len
    &&& e.user_data == user_data
}

/// Whether `e` is a positional transfer entry in the read (`read`) or
/// write direction on `fd`, handing back `user_data`: the plain opcode, or
/// the fixed-buffer one for a registered buffer.
pub open spec fn transfer_entry(e: SqeFields, read: bool, fd: i32, user_data: u64) -> bool {
    &&& read ==> (e.opcode == IORING_OP_READ || e.opcode == IORING_OP_READ_FIXED)
    &&& !read ==> (e.opcode == IORING_OP_WRITE || e.opcode == IORING_OP_WRITE_FIXED)
    &&& e.fd == fd
    &&& e.user_data == user_data
}

/// Each operation is submitted with the opcode of its own kind and
/// direction: a read or vectored read only by read entries and a write or
/// vectored write only by write entries (plain or fixed-buffer), each on
/// the operation's descriptor, a positional transfer at its buffer, length
/// and offset and a vectored one as one entry per buffer; a receive is one
/// `IORING_OP_RECV` and a send one `IORING_OP_SEND` on its socket, buffer
/// and length; an accept is one `IORING_OP_ACCEPT`, a connect one
/// `IORING_OP_CONNECT` and a close one `IORING_OP_CLOSE` on the
/// descriptor. Every entry hands back the flow's caller data, and a batch
/// of one flow is exactly that flow's entries.
pub proof fn law_operation_opcodes(op: Operation, user_data: u64, registered: Map<u64, u32>)
    ensures
        forall|i: int|
            0 <= i < operation_fields(op, user_data, registered).len() ==> (#[trigger] operation_fields(
                op,
                user_data,
                registered,
            )[i]).user_data == user_data,
        op matches Operation::Read { fd, buf, len, offset } ==> {
            let es = operation_fields(op, user_data, registered);
            &&& es.len() == 1
            &&& transfer_entry(es[0], true, fd, user_data)
            &&& es[0].addr == buf as u64 && es[0].len == len as u32 && es[0].off == offset
        },
        op matches Operation::Write { fd, buf, len, offset } ==> {
            let es = operation_fields(op, user_data, registered);
            &&& es.len() == 1
            &&& transfer_entry(es[0], false, fd, user_data)
            &&& es[0].addr == buf as u64 && es[0].len == len as u32 && es[0].off == offset
        },
        op matches Operation::Readv { fd, bufs, .. } ==> bufs@.len() > 0 ==> {
            let es = operation_fields(op, user_data, registered);
            &&& es.len() == bufs@.len()
            &&& forall|i: int|
                0 <= i < es.len() ==> transfer_entry(#[trigger] es[i], true, fd, user_data)
                    && es[i].addr == bufs@[i].buf as u64 && es[i].len == bufs@[i].len as u32
        },
        op matches Operation::Writev { fd, bufs, .. } ==> bufs@.len() > 0 ==> {
            let es = operation_fields(op, user_data, registered);
            &&& es.len() == bufs@.len()
            &&& forall|i: int|
                0 <= i < es.len() ==> transfer_entry(#[trigger] es[i], false, fd, user_data)
                    && es[i].addr == bufs@[i].buf as u64 && es[i].len == bufs@[i].len as u32
        },
        op matches Operation::Recv { fd, buf, len } ==> operation_fields(op, user_data, registered).len()
            == 1 && entry_is(
            operation_fields(op, user_data, registered)[0],
            IORING_OP_RECV,
            fd,
            buf as u64,
            len as u32,
            user_data,
        ),
        op matches Operation::Send { fd, buf, len } ==> operation_fields(op, user_data, registered).len()
            == 1 && entry_is(
            operation_fields(op, user_data, registered)[0],
            IORING_OP_SEND,
            fd,
            buf as u64,
            len as u32,
            user_data,
        ),
        op matches Operation::Accept { fd, addr, addrlen } ==> operation_fields(
            op,
            user_data,
            registered,
        ).len() == 1 && entry_is(
            operation_fields(op, user_data, registered)[0],
            IORING_OP_ACCEPT,
            fd,
            addr as u64,
            0,
            user_data,
        ) && operation_fields(op, user_data, registered)[0].off == addrlen as u64,
        op matches Operation::Connect { fd, addr, addrlen } ==> operation_fields(
            op,
            user_data,
            registered,
        ).len() == 1 && entry_is(
            operation_fields(op, user_data, registered)[0],
            IORING_OP_CONNECT,
            fd,
            addr as u64,
            0,
            user_data,
        ) && operation_fields(op, user_data, registered)[0].off == addrlen as u64,
        op matches Operation::Close { fd } ==> operation_fields(op, user_data, registered).len() == 1
            && entry_is(operation_fields(op, user_data, registered)[0], IORING_OP_CLOSE, fd, 0, 0, user_data),
{
}

/// A batch of one flow is submitted as exactly that flow's entries.
pub proof fn law_single_flow_entries(flow: Flow, registered: Map<u64, u32>)
    ensures
        flows_fields(seq![flow], 1, registered) == operation_fields(
            flow.op_of(),
            flow.user_data_of(),
            registered,
        ),
{
    assert(flows_fields(seq![flow], 0, registered) =~= Seq::<SqeFields>::empty());
    assert(Seq::<SqeFields>::empty() + operation_fields(flow.op_of(), flow.user_data_of(), registered)
        =~= operation_fields(flow.op_of(), flow.user_data_of(), registered));
}

} // verus!
