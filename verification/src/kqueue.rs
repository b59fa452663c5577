//! The macOS/BSD kqueue backend's decisions. File operations and closes
//! are carried out by a call at once; connecting starts with a call; a
//! receive, send or accept only registers interest in its descriptor, and
//! the reactor performs it once kqueue reports the descriptor ready. This
//! module decides each step: the call or registration a flow starts with,
//! the completion or re-registration a call's answer leads to, and what an
//! event does to the table of operations waiting for readiness. The calls
//! themselves are made by the embedding program on macOS/BSD.
use crate::error::Error;
use crate::flow::Flow;
use crate::operation::Operation;
use crate::result::TorusResult;
use std::collections::HashMap;
use vstd::prelude::*;

verus! {

broadcast use vstd::std_specs::hash::group_hash_axioms;

/// The read-readiness filter.
pub const EVFILT_READ: i16 = -1;

/// The write-readiness filter.
pub const EVFILT_WRITE: i16 = -2;

/// Add the event to the queue.
pub const EV_ADD: u16 = 0x0001;

/// Deliver the event once, then delete it.
pub const EV_ONESHOT: u16 = 0x0010;

/// The event reports an error, whose errno is in its data.
pub const EV_ERROR: u16 = 0x4000;

/// "Resource temporarily unavailable": the socket is not ready.
pub const EAGAIN: i32 = 35;

/// "Operation now in progress": a non-blocking connect was started.
pub const EINPROGRESS: i32 = 36;

/// A socket operation that waits for its descriptor to become ready.
#[derive(Clone, Copy, PartialEq, Eq, Structural, Debug)]
pub enum SocketOp {
    /// Receive up to `len` bytes into `buf`.
    Recv { fd: i32, buf: usize, len: usize },
    /// Send `len` bytes from `buf`.
    Send { fd: i32, buf: usize, len: usize },
    /// Accept a connection on the listening socket.
    Accept { fd: i32, addr: usize, addrlen: usize },
    /// Finish a connect that was started.
    Connect { fd: i32 },
}

/// A system call that carries out (part of) an operation.
#[derive(Clone, Copy, PartialEq, Eq, Structural, Debug)]
pub enum KqCall {
    /// `pread` of `len` bytes into `buf` at `offset`.
    Pread { fd: i32, buf: usize, len: usize, offset: u64 },
    /// `pwrite` of `len` bytes from `buf` at `offset`.
    Pwrite { fd: i32, buf: usize, len: usize, offset: u64 },
    /// `preadv` into the flow's buffers at `offset`.
    Preadv { fd: i32, offset: u64 },
    /// `pwritev` from the flow's buffers at `offset`.
    Pwritev { fd: i32, offset: u64 },
    /// `recv` of up to `len` bytes into `buf`.
    Recv { fd: i32, buf: usize, len: usize },
    /// `send` of `len` bytes from `buf`.
    Send { fd: i32, buf: usize, len: usize },
    /// `accept` on the listening socket.
    Accept { fd: i32, addr: usize, addrlen: usize },
    /// Start a non-blocking `connect` to the address at `addr`.
    Connect { fd: i32, addr: usize, addrlen: u32 },
    /// Read the socket's pending error (`SO_ERROR`) after a connect.
    ConnectStatus { fd: i32 },
    /// `close` of the descriptor.
    Close { fd: i32 },
}

/// A registration of interest in a descriptor's readiness.
#[derive(Clone, Copy, PartialEq, Eq, Structural, Debug)]
pub struct KeventChange {
    /// The descriptor.
    pub ident: u64,
    /// The readiness filter.
    pub filter: i16,
    /// The action flags.
    pub flags: u16,
    /// The caller data handed back with the event.
    pub udata: u64,
}

/// What a flow starts with.
#[derive(Clone, Copy, PartialEq, Eq, Structural, Debug)]
pub enum KqueueStep {
    /// Make this call now.
    Syscall(KqCall),
    /// Register interest, and wait for the readiness event of this
    /// socket operation.
    Arm(KeventChange, SocketOp),
}

/// What the answer to a call leads to.
#[derive(Clone, Copy, Debug)]
pub enum KqueueAction {
    /// The flow completes with this result.
    Complete(TorusResult),
    /// Register interest, and wait again for the socket to become ready.
    Arm(KeventChange, SocketOp),
}

/// What a readiness event leads to.
#[derive(Clone, Copy, Debug)]
pub enum ReactorAction {
    /// No operation waits for this event.
    Ignore,
    /// Make this call for the waiting socket operation, which has this
    /// caller data.
    Syscall(KqCall, SocketOp, u64),
    /// The waiting operation completes with this result.
    Complete(TorusResult),
}

/// The filter a socket operation waits on: readable for receiving and
/// accepting, writable for sending and connecting.
pub open spec fn socket_filter(op: SocketOp) -> i16 {
    match op {
        SocketOp::Recv { .. } => EVFILT_READ,
        SocketOp::Accept { .. } => EVFILT_READ,
        SocketOp::Send { .. } => EVFILT_WRITE,
        SocketOp::Connect { .. } => EVFILT_WRITE,
    }
}

/// The descriptor of a socket operation.
pub open spec fn socket_fd(op: SocketOp) -> i32 {
    match op {
        SocketOp::Recv { fd, .. } => fd,
        SocketOp::Send { fd, .. } => fd,
        SocketOp::Accept { fd, .. } => fd,
        SocketOp::Connect { fd } => fd,
    }
}

/// The one-shot registration that waits for `op`'s readiness, handing
/// back `user_data`.
pub open spec fn interest(op: SocketOp, user_data: u64) -> KeventChange {
    KeventChange {
        ident: socket_fd(op) as u64,
        filter: socket_filter(op),
        flags: (EV_ADD | EV_ONESHOT) as u16,
        udata: user_data,
    }
}

/// The call that performs a ready socket operation: the operation itself,
/// or reading the pending error of a started connect.
pub open spec fn socket_call(op: SocketOp) -> KqCall {
    match op {
        SocketOp::Recv { fd, buf, len } => KqCall::Recv { fd, buf, len },
        SocketOp::Send { fd, buf, len } => KqCall::Send { fd, buf, len },
        SocketOp::Accept { fd, addr, addrlen } => KqCall::Accept { fd, addr, addrlen },
        SocketOp::Connect { fd } => KqCall::ConnectStatus { fd },
    }
}

/// The socket operation a flow waits as, if it is one.
pub open spec fn flow_socket_op(op: Operation) -> Option<SocketOp> {
    match op {
        Operation::Recv { fd, buf, len } => Some(SocketOp::Recv { fd, buf, len }),
        Operation::Send { fd, buf, len } => Some(SocketOp::Send { fd, buf, len }),
        Operation::Accept { fd, addr, addrlen } => Some(SocketOp::Accept { fd, addr, addrlen }),
        Operation::Connect { fd, .. } => Some(SocketOp::Connect { fd }),
        _ => None,
    }
}

/// What a flow starts with: a file transfer, a close or the start of a
/// connect is a call made at once; a receive, send or accept registers
/// interest in its descriptor and waits for it to become ready.
pub open spec fn kqueue_plan_spec(op: Operation, user_data: u64) -> KqueueStep {
    match op {
        Operation::Read { fd, buf, len, offset } => KqueueStep::Syscall(KqCall::Pread { fd, buf, len, offset }),
        Operation::Write { fd, buf, len, offset } => KqueueStep::Syscall(
            KqCall::Pwrite { fd, buf, len, offset },
        ),
        Operation::Readv { fd, offset, .. } => KqueueStep::Syscall(KqCall::Preadv { fd, offset }),
        Operation::Writev { fd, offset, .. } => KqueueStep::Syscall(KqCall::Pwritev { fd, offset }),
        Operation::Connect { fd, addr, addrlen } => KqueueStep::Syscall(
            KqCall::Connect { fd, addr, addrlen },
        ),
        Operation::Close { fd } => KqueueStep::Syscall(KqCall::Close { fd }),
        Operation::Recv { fd, buf, len } => {
            let s = SocketOp::Recv { fd, buf, len };
            KqueueStep::Arm(interest(s, user_data), s)
        },
        Operation::Send { fd, buf, len } => {
            let s = SocketOp::Send { fd, buf, len };
            KqueueStep::Arm(interest(s, user_data), s)
        },
        Operation::Accept { fd, addr, addrlen } => {
            let s = SocketOp::Accept { fd, addr, addrlen };
            KqueueStep::Arm(interest(s, user_data), s)
        },
    }
}

fn interest_of(op: SocketOp, user_data: u64) -> (c: KeventChange)
    ensures
        c == interest(op, user_data),
{
    let fd = match op {
        SocketOp::Recv { fd, .. } => fd,
        SocketOp::Send { fd, .. } => fd,
        SocketOp::Accept { fd, .. } => fd,
        SocketOp::Connect { fd } => fd,
    };
    let filter = match op {
        SocketOp::Recv { .. } => EVFILT_READ,
        SocketOp::Accept { .. } => EVFILT_READ,
        SocketOp::Send { .. } => EVFILT_WRITE,
        SocketOp::Connect { .. } => EVFILT_WRITE,
    };
    KeventChange { ident: fd as u64, filter, flags: EV_ADD | EV_ONESHOT, udata: user_data }
}

/// What `flow` starts with (see [`kqueue_plan_spec`]).
pub fn kqueue_plan(flow: &Flow) -> (s: KqueueStep)
    ensures
        s == kqueue_plan_spec(flow.op_of(), flow.user_data_of()),
{
    let ud = flow.user_data();
    match flow.operation() {
        Operation::Read { fd, buf, len, offset } => KqueueStep::Syscall(
            KqCall::Pread { fd: *fd, buf: *buf, len: *len, offset: *offset },
        ),
        Operation::Write { fd, buf, len, offset } => KqueueStep::Syscall(
            KqCall::Pwrite { fd: *fd, buf: *buf, len: *len, offset: *offset },
        ),
        Operation::Readv { fd, offset, .. } => KqueueStep::Syscall(KqCall::Preadv { fd: *fd, offset: *offset }),
        Operation::Writev { fd, offset, .. } => KqueueStep::Syscall(KqCall::Pwritev { fd: *fd, offset: *offset }),
        Operation::Connect { fd, addr, addrlen } => KqueueStep::Syscall(
            KqCall::Connect { fd: *fd, addr: *addr, addrlen: *addrlen },
        ),
        Operation::Close { fd } => KqueueStep::Syscall(KqCall::Close { fd: *fd }),
        Operation::Recv { fd, buf, len } => {
            let s = SocketOp::Recv { fd: *fd, buf: *buf, len: *len };
            KqueueStep::Arm(interest_of(s, ud), s)
        },
        Operation::Send { fd, buf, len } => {
            let s = SocketOp::Send { fd: *fd, buf: *buf, len: *len };
            KqueueStep::Arm(interest_of(s, ud), s)
        },
        Operation::Accept { fd, addr, addrlen } => {
            let s = SocketOp::Accept { fd: *fd, addr: *addr, addrlen: *addrlen };
            KqueueStep::Arm(interest_of(s, ud), s)
        },
    }
}

/// What a call's answer leads to for a flow with caller data
/// `user_data`, `socket` being the socket operation the flow waits as (if
/// any): a non-negative return completes it with that value; a socket
/// operation that is not ready yet (`EAGAIN`, or `EINPROGRESS` for a
/// started connect) waits again for readiness; any other failure
/// completes it with the negated errno.
pub open spec fn outcome_spec(socket: Option<SocketOp>, user_data: u64, ret: i64, errno: i32) -> KqueueAction {
    if ret >= 0 {
        KqueueAction::Complete(TorusResult { result: ret, user_data })
    } else if socket is Some && (errno == EAGAIN || (socket->0 is Connect && errno == EINPROGRESS)) {
        KqueueAction::Arm(interest(socket->0, user_data), socket->0)
    } else {
        KqueueAction::Complete(TorusResult { result: (-errno) as i64, user_data })
    }
}

fn socket_op_of(op: &Operation) -> (s: Option<SocketOp>)
    ensures
        s == flow_socket_op(*op),
{
    match op {
        Operation::Recv { fd, buf, len } => Some(SocketOp::Recv { fd: *fd, buf: *buf, len: *len }),
        Operation::Send { fd, buf, len } => Some(SocketOp::Send { fd: *fd, buf: *buf, len: *len }),
        Operation::Accept { fd, addr, addrlen } => Some(
            SocketOp::Accept { fd: *fd, addr: *addr, addrlen: *addrlen },
        ),
        Operation::Connect { fd, .. } => Some(SocketOp::Connect { fd: *fd }),
        _ => None,
    }
}

fn decide(socket: Option<SocketOp>, user_data: u64, ret: i64, errno: i32) -> (a: KqueueAction)
    ensures
        a == outcome_spec(socket, user_data, ret, errno),
{
    if ret >= 0 {
        return KqueueAction::Complete(TorusResult::new(ret, user_data));
    }
    match socket {
        Some(s) => {
            let connect = match s {
                SocketOp::Connect { .. } => true,
                _ => false,
            };
            if errno == EAGAIN || (connect && errno == EINPROGRESS) {
                return KqueueAction::Arm(interest_of(s, user_data), s);
            }
        },
        None => {},
    }
    KqueueAction::Complete(TorusResult::new(-(errno as i64), user_data))
}

/// What the answer (`ret`, and `errno` when it is negative) to the call
/// `flow` started with leads to (see [`outcome_spec`]).
pub fn kqueue_outcome(flow: &Flow, ret: i64, errno: i32) -> (a: KqueueAction)
    ensures
        a == outcome_spec(flow_socket_op(flow.op_of()), flow.user_data_of(), ret, errno),
{
    decide(socket_op_of(flow.operation()), flow.user_data(), ret, errno)
}

/// What the answer to the call made for the ready socket operation `op`
/// (caller data `user_data`) leads to: as for a flow, a connect's status
/// being the negated pending error (0 when connected).
pub fn socket_outcome(op: SocketOp, user_data: u64, ret: i64, errno: i32) -> (a: KqueueAction)
    ensures
        a == outcome_spec(Some(op), user_data, ret, errno),
{
    decide(Some(op), user_data, ret, errno)
}

/// The errno a wait reports when its timeout passes (`ETIMEDOUT`).
pub const ETIMEDOUT: i32 = 110;

/// One step of waiting for a completion with `in_flight` operations in
/// flight and `queued` completions ready: the wait ends at once with
/// nothing in flight or a completion ready; with a timeout (`timeout_us`
/// non-zero) that has passed it ends with `ETIMEDOUT`; otherwise it goes
/// on waiting (`None`).
pub fn wait_step(in_flight: u32, queued: usize, timeout_us: u64, timed_out: bool) -> (r: Option<
    Result<(), Error>,
>)
    ensures
        in_flight == 0 || queued > 0 ==> r == Some(Ok::<(), Error>(())),
        in_flight != 0 && queued == 0 && timeout_us != 0 && timed_out ==> r == Some(
            Err::<(), Error>(Error::Os(ETIMEDOUT)),
        ),
        in_flight != 0 && queued == 0 && (timeout_us == 0 || !timed_out) ==> r is None,
{
    if in_flight == 0 || queued > 0 {
        Some(Ok(()))
    } else if timeout_us != 0 && timed_out {
        Some(Err(Error::Os(ETIMEDOUT)))
    } else {
        None
    }
}

/// The backend's state: the socket operations waiting for readiness, by
/// caller data; the completions waiting to be reaped; and the number of
/// operations in flight (submitted and not yet reaped, wrapping around 32
/// bits).
pub struct KqueueReactor {
    pending: HashMap<u64, SocketOp>,
    completions: Vec<TorusResult>,
    in_flight: u32,
}

impl KqueueReactor {
    /// The waiting operations, by caller data.
    pub closed spec fn waiting(&self) -> Map<u64, SocketOp> {
        self.pending@
    }

    /// The completions waiting to be reaped, oldest first.
    pub closed spec fn queued(&self) -> Seq<TorusResult> {
        self.completions@
    }

    /// The count of operations in flight.
    pub closed spec fn count(&self) -> u32 {
        self.in_flight
    }

    /// A reactor with nothing waiting, queued or in flight.
    pub fn new() -> (r: Self)
        ensures
            r.waiting() == Map::<u64, SocketOp>::empty(),
            r.queued() == Seq::<TorusResult>::empty(),
            r.count() == 0,
    {
        KqueueReactor { pending: HashMap::new(), completions: Vec::new(), in_flight: 0 }
    }

    /// Apply the answer (`ret`, and `errno` when it is negative) to the
    /// registration `change` made for `op`: once registered, `op` waits
    /// under `change.udata`; a failed registration completes the operation
    /// with the negated errno.
    pub fn arm(&mut self, change: KeventChange, op: SocketOp, ret: i32, errno: i32)
        ensures
            ret >= 0 ==> final(self).waiting() == old(self).waiting().insert(change.udata, op)
                && final(self).queued() == old(self).queued(),
            ret < 0 ==> final(self).waiting() == old(self).waiting() && final(self).queued() == old(
                self,
            ).queued().push(TorusResult { result: (-errno) as i64, user_data: change.udata }),
            final(self).count() == old(self).count(),
    {
        if ret >= 0 {
            self.pending.insert(change.udata, op);
        } else {
            self.completions.push(TorusResult::new(-(errno as i64), change.udata));
        }
    }

    /// A completion joins the queue.
    pub fn complete(&mut self, r: TorusResult)
        ensures
            final(self).queued() == old(self).queued().push(r),
            final(self).waiting() == old(self).waiting(),
            final(self).count() == old(self).count(),
    {
        self.completions.push(r);
    }

    /// Count `n` submitted flows in flight, returning `n`.
    pub fn submitted(&mut self, n: usize) -> (m: usize)
        ensures
            m == n,
            final(self).count() == old(self).count().wrapping_add(n as u32),
            final(self).waiting() == old(self).waiting(),
            final(self).queued() == old(self).queued(),
    {
        self.in_flight = self.in_flight.wrapping_add(n as u32);
        n
    }

    /// Move every queued completion, oldest first, to the end of
    /// `results`; each leaves the in-flight count. Returns how many.
    pub fn reap(&mut self, results: &mut Vec<TorusResult>) -> (n: usize)
        ensures
            n == old(self).queued().len(),
            final(results)@ == old(results)@ + old(self).queued(),
            final(self).queued() == Seq::<TorusResult>::empty(),
            final(self).count() == old(self).count().wrapping_sub(n as u32),
            final(self).waiting() == old(self).waiting(),
    {
        let n = self.completions.len();
        results.append(&mut self.completions);
        self.in_flight = self.in_flight.wrapping_sub(n as u32);
        n
    }

    /// The number of operations in flight.
    pub fn in_flight(&self) -> (n: u32)
        ensures
            n == self.count(),
    {
        self.in_flight
    }

    /// The number of completions waiting to be reaped.
    pub fn queued_count(&self) -> (n: usize)
        ensures
            n == self.queued().len(),
    {
        self.completions.len()
    }

    /// Handle a readiness event carrying `udata`, with `flags` and `data`:
    /// with no operation waiting under `udata` it is ignored; otherwise the
    /// operation stops waiting and, when the event reports an error
    /// (`EV_ERROR`, errno in `data`), completes with the negated errno, else
    /// its call is made now.
    pub fn reactor_event(&mut self, udata: u64, flags: u16, data: i64) -> (a: ReactorAction)
        requires
            data > i64::MIN,
        ensures
            final(self).queued() == old(self).queued(),
            final(self).count() == old(self).count(),
            !old(self).waiting().contains_key(udata) ==> a == ReactorAction::Ignore,
            !old(self).waiting().contains_key(udata) ==> final(self).waiting() == old(self).waiting(),
            old(self).waiting().contains_key(udata) ==> {
                &&& final(self).waiting() == old(self).waiting().remove(udata)
                &&& flags & EV_ERROR != 0 ==> a == ReactorAction::Complete(
                    TorusResult { result: (-data) as i64, user_data: udata },
                )
                &&& flags & EV_ERROR == 0 ==> a == ReactorAction::Syscall(
                    socket_call(old(self).waiting()[udata]),
                    old(self).waiting()[udata],
                    udata,
                )
            },
    {
        let op = match self.pending.remove(&udata) {
            Some(op) => op,
            None => return ReactorAction::Ignore,
        };
        if flags & EV_ERROR != 0 {
            return ReactorAction::Complete(TorusResult::new(-data, udata));
        }
        let call = match op {
            SocketOp::Recv { fd, buf, len } => KqCall::Recv { fd, buf, len },
            SocketOp::Send { fd, buf, len } => KqCall::Send { fd, buf, len },
            SocketOp::Accept { fd, addr, addrlen } => KqCall::Accept { fd, addr, addrlen },
            SocketOp::Connect { fd } => KqCall::ConnectStatus { fd },
        };
        ReactorAction::Syscall(call, op, udata)
    }

    /// The number of operations waiting.
    pub fn waiting_count(&self) -> (n: usize)
        ensures
            n == self.waiting().len(),
    {
        self.pending.len()
    }
}


/// Each flow starts with the step of its own direction and target: a file
/// read (`pread` / `preadv`) for a read, a file write (`pwrite` /
/// `pwritev`) for a write, on the flow's own descriptor, buffer, length and
/// offset; a close closes its descriptor and a connect starts on its
/// socket; a receive or an accept waits for its socket to become readable,
/// and a send for it to become writable, registered one-shot with the
/// flow's caller data. A ready socket operation is then performed by the
/// call of the same kind (a started connect by reading its status).
pub proof fn law_plan_follows_direction(op: Operation, user_data: u64)
    ensures
        op matches Operation::Read { fd, buf, len, offset } ==> kqueue_plan_spec(op, user_data)
            == (KqueueStep::Syscall(KqCall::Pread { fd, buf, len, offset })),
        op matches Operation::Write { fd, buf, len, offset } ==> kqueue_plan_spec(op, user_data)
            == (KqueueStep::Syscall(KqCall::Pwrite { fd, buf, len, offset })),
        op matches Operation::Readv { fd, offset, .. } ==> kqueue_plan_spec(op, user_data)
            == (KqueueStep::Syscall(KqCall::Preadv { fd, offset })),
        op matches Operation::Writev { fd, offset, .. } ==> kqueue_plan_spec(op, user_data)
            == (KqueueStep::Syscall(KqCall::Pwritev { fd, offset })),
        op matches Operation::Close { fd } ==> kqueue_plan_spec(op, user_data)
            == (KqueueStep::Syscall(KqCall::Close { fd })),
        op matches Operation::Connect { fd, addr, addrlen } ==> kqueue_plan_spec(op, user_data)
            == (KqueueStep::Syscall(KqCall::Connect { fd, addr, addrlen })),
        op matches Operation::Recv { fd, buf, len } ==> waits_for(
            kqueue_plan_spec(op, user_data),
            (SocketOp::Recv { fd, buf, len }),
            EVFILT_READ,
            user_data,
        ),
        op matches Operation::Send { fd, buf, len } ==> waits_for(
            kqueue_plan_spec(op, user_data),
            (SocketOp::Send { fd, buf, len }),
            EVFILT_WRITE,
            user_data,
        ),
        op matches Operation::Accept { fd, addr, addrlen } ==> waits_for(
            kqueue_plan_spec(op, user_data),
            (SocketOp::Accept { fd, addr, addrlen }),
            EVFILT_READ,
            user_data,
        ),
{
}

/// Whether `step` waits, one-shot, for `filter` readiness of the
/// descriptor of `s`, handing back `user_data`, to perform `s`.
pub open spec fn waits_for(step: KqueueStep, s: SocketOp, filter: i16, user_data: u64) -> bool {
    &&& step is Arm
    &&& step->Arm_1 == s
    &&& step->Arm_0.ident == socket_fd(s) as u64
    &&& step->Arm_0.filter == filter
    &&& step->Arm_0.flags == EV_ADD | EV_ONESHOT
    &&& step->Arm_0.udata == user_data
}

/// A ready socket operation is performed by the call of its own kind on
/// its own descriptor and buffer; a started connect by reading its status.
pub proof fn law_ready_call_follows_operation(fd: i32, buf: usize, len: usize, addr: usize)
    ensures
        socket_call(SocketOp::Recv { fd, buf, len }) == (KqCall::Recv { fd, buf, len }),
        socket_call(SocketOp::Send { fd, buf, len }) == (KqCall::Send { fd, buf, len }),
        socket_call(SocketOp::Accept { fd, addr, addrlen: len }) == (KqCall::Accept {
            fd,
            addr,
            addrlen: len,
        }),
        socket_call(SocketOp::Connect { fd }) == (KqCall::ConnectStatus { fd }),
{
}

/// A call's answer completes the flow with the returned value when it is
/// not negative, and otherwise either waits again (only the socket
/// operation itself, and only when it is not ready) or completes with the
/// negated errno; the completion always carries the flow's caller data.
pub proof fn law_outcome_follows_answer(socket: Option<SocketOp>, user_data: u64, ret: i64, errno: i32)
    ensures
        ret >= 0 ==> outcome_spec(socket, user_data, ret, errno) == KqueueAction::Complete(
            (TorusResult { result: ret, user_data }),
        ),
        ret < 0 && (socket is None || (errno != EAGAIN && errno != EINPROGRESS))
            ==> outcome_spec(socket, user_data, ret, errno) == KqueueAction::Complete(
            (TorusResult { result: -errno as i64, user_data }),
        ),
        outcome_spec(socket, user_data, ret, errno) is Arm ==> ret < 0 && socket == Some(
            outcome_spec(socket, user_data, ret, errno)->Arm_1,
        ) && outcome_spec(socket, user_data, ret, errno)->Arm_0.udata == user_data,
{
}

} // verus!
