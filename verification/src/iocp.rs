//! The Windows I/O completion port backend's decisions: which overlapped
//! Win32 call each flow becomes, which answers count as failures, the
//! completion reported at once for a failed or synchronous call, what a
//! completion taken from the port reports, and the backend's queue of
//! completions and count of operations in flight. The Win32 calls
//! themselves are made by the embedding program on Windows.
use crate::flow::Flow;
use crate::operation::{IoSlice, Operation};
use crate::result::TorusResult;
use crate::uring::{lemma_lens_before_monotone, lens_before, offsets_fit};
use vstd::prelude::*;

verus! {

/// `GetLastError` after an overlapped call that was queued and completes
/// later through the port.
pub const ERROR_IO_PENDING: i32 = 997;

/// The Winsock error for an address family that is not supported.
pub const WSAEAFNOSUPPORT: i32 = 10047;

/// The IPv4 address family.
pub const AF_INET: u16 = 2;

/// The IPv6 address family (Winsock's value).
pub const AF_INET6: u16 = 23;

/// The overlapped Win32 call that carries out (part of) a flow.
#[derive(Clone, Copy, PartialEq, Eq, Structural, Debug)]
pub enum IocpCall {
    /// `ReadFile` of `len` bytes into `buf` at the offset whose 32-bit
    /// halves are `offset_low` and `offset_high`.
    ReadFile { handle: i32, buf: usize, len: u32, offset_low: u32, offset_high: u32 },
    /// `WriteFile` of `len` bytes from `buf` at the given offset.
    WriteFile { handle: i32, buf: usize, len: u32, offset_low: u32, offset_high: u32 },
    /// `WSARecv` of up to `len` bytes into `buf`.
    WsaRecv { socket: i32, buf: usize, len: u32 },
    /// `WSASend` of `len` bytes from `buf`.
    WsaSend { socket: i32, buf: usize, len: u32 },
    /// `AcceptEx` on the listening socket, the peer address going to
    /// `addr` / `addrlen`.
    AcceptEx { listen_socket: i32, addr: usize, addrlen: usize },
    /// `ConnectEx` of the socket to the address at `addr`.
    ConnectEx { socket: i32, addr: usize, addrlen: u32 },
    /// `CloseHandle` of a file handle.
    CloseHandle { handle: i32 },
    /// `closesocket` of a socket.
    CloseSocket { socket: i32 },
}

/// The 32-bit halves of a 64-bit file offset: (low, high).
pub open spec fn offset_halves(offset: u64) -> (u32, u32) {
    ((offset % 0x1_0000_0000) as u32, (offset / 0x1_0000_0000) as u32)
}

/// The 32-bit halves of a file offset, as an `OVERLAPPED` carries them.
pub fn overlapped_offset(offset: u64) -> (r: (u32, u32))
    ensures
        r == offset_halves(offset),
        r.0 + r.1 * 0x1_0000_0000 == offset,
{
    let low = offset as u32;
    let high = (offset >> 32u64) as u32;
    assert(low == offset % 0x1_0000_0000) by (bit_vector)
        requires
            low == offset as u32,
    ;
    assert(high == offset / 0x1_0000_0000) by (bit_vector)
        requires
            high == (offset >> 32u64) as u32,
    ;
    (low, high)
}

/// A positional file transfer of `len` bytes at `buf`, at `offset`.
pub open spec fn file_call(read: bool, fd: i32, buf: usize, len: usize, offset: u64) -> IocpCall {
    let (low, high) = offset_halves(offset);
    if read {
        IocpCall::ReadFile { handle: fd, buf, len: len as u32, offset_low: low, offset_high: high }
    } else {
        IocpCall::WriteFile { handle: fd, buf, len: len as u32, offset_low: low, offset_high: high }
    }
}

/// The calls for the first `j` buffers of a vectored transfer: one per
/// non-empty buffer, at consecutive offsets from `offset`.
pub open spec fn vectored_calls(read: bool, fd: i32, bufs: Seq<IoSlice>, offset: u64, j: int) -> Seq<
    IocpCall,
>
    decreases j,
{
    if j <= 0 {
        seq![]
    } else if bufs[j - 1].len == 0 {
        vectored_calls(read, fd, bufs, offset, j - 1)
    } else {
        vectored_calls(read, fd, bufs, offset, j - 1).push(
            file_call(read, fd, bufs[j - 1].buf, bufs[j - 1].len, (offset + lens_before(bufs, j - 1)) as u64),
        )
    }
}

/// The calls that carry out one operation, in the order they are made.
/// Closing descriptor -1 (the invalid socket) closes it as a handle, any
/// other as a socket.
pub open spec fn operation_calls(op: Operation) -> Seq<IocpCall> {
    match op {
        Operation::Read { fd, buf, len, offset } => seq![file_call(true, fd, buf, len, offset)],
        Operation::Write { fd, buf, len, offset } => seq![file_call(false, fd, buf, len, offset)],
        Operation::Readv { fd, bufs, offset } => vectored_calls(true, fd, bufs@, offset, bufs@.len() as int),
        Operation::Writev { fd, bufs, offset } => vectored_calls(false, fd, bufs@, offset, bufs@.len() as int),
        Operation::Recv { fd, buf, len } => seq![IocpCall::WsaRecv { socket: fd, buf, len: len as u32 }],
        Operation::Send { fd, buf, len } => seq![IocpCall::WsaSend { socket: fd, buf, len: len as u32 }],
        Operation::Accept { fd, addr, addrlen } => seq![
            IocpCall::AcceptEx { listen_socket: fd, addr, addrlen },
        ],
        Operation::Connect { fd, addr, addrlen } => seq![IocpCall::ConnectEx { socket: fd, addr, addrlen }],
        Operation::Close { fd } => if fd == -1 {
            seq![IocpCall::CloseHandle { handle: fd }]
        } else {
            seq![IocpCall::CloseSocket { socket: fd }]
        },
    }
}

fn file_transfer(read: bool, fd: i32, buf: usize, len: usize, offset: u64) -> (c: IocpCall)
    ensures
        c == file_call(read, fd, buf, len, offset),
{
    let (low, high) = overlapped_offset(offset);
    if read {
        IocpCall::ReadFile { handle: fd, buf, len: len as u32, offset_low: low, offset_high: high }
    } else {
        IocpCall::WriteFile { handle: fd, buf, len: len as u32, offset_low: low, offset_high: high }
    }
}

fn vectored_transfer(read: bool, fd: i32, bufs: &Vec<IoSlice>, offset: u64) -> (v: Vec<IocpCall>)
    requires
        offset + lens_before(bufs@, bufs@.len() as int) <= u64::MAX,
    ensures
        v@ == vectored_calls(read, fd, bufs@, offset, bufs@.len() as int),
{
    let mut v: Vec<IocpCall> = Vec::new();
    let mut current: u64 = offset;
    let mut i: usize = 0;
    while i < bufs.len()
        invariant
            i <= bufs@.len(),
            offset + lens_before(bufs@, bufs@.len() as int) <= u64::MAX,
            current == offset + lens_before(bufs@, i as int),
            v@ == vectored_calls(read, fd, bufs@, offset, i as int),
        decreases bufs.len() - i,
    {
        proof {
            lemma_lens_before_monotone(bufs@, i as int + 1, bufs@.len() as int);
        }
        let b = bufs[i];
        if b.len != 0 {
            v.push(file_transfer(read, fd, b.buf, b.len, current));
        }
        current = current + b.len as u64;
        i = i + 1;
    }
    v
}

/// The calls that carry out `flow`'s operation, in the order they are
/// made (a vectored transfer's offsets must fit in 64 bits).
pub fn plan_flow(flow: &Flow) -> (v: Vec<IocpCall>)
    requires
        offsets_fit(flow.op_of()),
    ensures
        v@ == operation_calls(flow.op_of()),
{
    match flow.operation() {
        Operation::Read { fd, buf, len, offset } => vec![file_transfer(true, *fd, *buf, *len, *offset)],
        Operation::Write { fd, buf, len, offset } => vec![file_transfer(false, *fd, *buf, *len, *offset)],
        Operation::Readv { fd, bufs, offset } => vectored_transfer(true, *fd, bufs, *offset),
        Operation::Writev { fd, bufs, offset } => vectored_transfer(false, *fd, bufs, *offset),
        Operation::Recv { fd, buf, len } => vec![IocpCall::WsaRecv { socket: *fd, buf: *buf, len: *len as u32 }],
        Operation::Send { fd, buf, len } => vec![IocpCall::WsaSend { socket: *fd, buf: *buf, len: *len as u32 }],
        Operation::Accept { fd, addr, addrlen } => vec![
            IocpCall::AcceptEx { listen_socket: *fd, addr: *addr, addrlen: *addrlen },
        ],
        Operation::Connect { fd, addr, addrlen } => vec![
            IocpCall::ConnectEx { socket: *fd, addr: *addr, addrlen: *addrlen },
        ],
        Operation::Close { fd } => if *fd == -1 {
            vec![IocpCall::CloseHandle { handle: *fd }]
        } else {
            vec![IocpCall::CloseSocket { socket: *fd }]
        },
    }
}

/// The answer to a `ReadFile` or `WriteFile` call that returned `ret`,
/// `error` being `GetLastError` after it: FALSE is a failure with that
/// error unless the operation was queued (`ERROR_IO_PENDING`), in which
/// case it completes later through the port.
pub fn file_call_answer(ret: i32, error: i32) -> (r: Result<(), i32>)
    ensures
        ret == 0 && error != ERROR_IO_PENDING ==> r == Err::<(), i32>(error),
        ret != 0 || error == ERROR_IO_PENDING ==> r is Ok,
{
    if ret == 0 && error != ERROR_IO_PENDING {
        Err(error)
    } else {
        Ok(())
    }
}

/// The answer to a `WSARecv` or `WSASend` call that returned `ret`,
/// `error` being `WSAGetLastError` after it: a non-zero return is a
/// failure with that error unless the operation was queued
/// (`WSA_IO_PENDING`, the same code as `ERROR_IO_PENDING`), in which case
/// it completes later through the port.
pub fn socket_call_answer(ret: i32, error: i32) -> (r: Result<(), i32>)
    ensures
        ret != 0 && error != ERROR_IO_PENDING ==> r == Err::<(), i32>(error),
        ret == 0 || error == ERROR_IO_PENDING ==> r is Ok,
{
    if ret != 0 && error != ERROR_IO_PENDING {
        Err(error)
    } else {
        Ok(())
    }
}

/// The answer to an `AcceptEx` or `ConnectEx` call that returned `ret`,
/// `error` being `WSAGetLastError` after it: FALSE is a failure unless
/// the operation was queued (`ERROR_IO_PENDING`).
pub fn overlapped_ex_answer(ret: i32, error: i32) -> (r: Result<(), i32>)
    ensures
        ret == 0 && error != ERROR_IO_PENDING ==> r == Err::<(), i32>(error),
        ret != 0 || error == ERROR_IO_PENDING ==> r is Ok,
{
    if ret == 0 && error != ERROR_IO_PENDING {
        Err(error)
    } else {
        Ok(())
    }
}

/// The position of the first refused answer at or after `i`, if any.
pub open spec fn first_refused(answers: Seq<Result<(), i32>>, i: int) -> Option<int>
    decreases answers.len() - i,
{
    if i < 0 || i >= answers.len() {
        None
    } else if answers[i] is Err {
        Some(i)
    } else {
        first_refused(answers, i + 1)
    }
}

/// The completion reporting the Win32 error `error`: its negation.
pub open spec fn error_completion(error: i32, user_data: u64) -> TorusResult {
    TorusResult { result: (-error) as i64, user_data }
}

/// The answers to the calls of `op` fit its plan: the calls are made in
/// order until one fails (a close's answer is not consulted), and no
/// error is the minimum `i32`.
pub open spec fn answers_fit(op: Operation, answers: Seq<Result<(), i32>>) -> bool {
    &&& forall|k: int| 0 <= k < answers.len() && #[trigger] answers[k] is Err ==> answers[k]->Err_0 != i32::MIN
    &&& !(op is Close) ==> {
        &&& answers.len() <= operation_calls(op).len()
        &&& answers.len() < operation_calls(op).len() ==> first_refused(answers, 0) == Some(
            answers.len() - 1,
        )
    }
}

/// The completion reported at once for a flow whose calls got `answers`:
/// a close completes at once with 0; otherwise the first failed call
/// completes the flow with its error, and a flow whose calls were all
/// queued completes later through the port.
pub open spec fn immediate_completion(flow: Flow, answers: Seq<Result<(), i32>>) -> Option<TorusResult> {
    if flow.op_of() is Close {
        Some(TorusResult { result: 0, user_data: flow.user_data_of() })
    } else {
        match first_refused(answers, 0) {
            Some(k) => Some(error_completion(answers[k]->Err_0, flow.user_data_of())),
            None => None,
        }
    }
}

/// The completions reported at once for the first `n` flows, in order.
pub open spec fn immediate_completions(flows: Seq<Flow>, answers: Seq<Seq<Result<(), i32>>>, n: int) -> Seq<
    TorusResult,
>
    decreases n,
{
    if n <= 0 {
        seq![]
    } else {
        match immediate_completion(flows[n - 1], answers[n - 1]) {
            Some(c) => immediate_completions(flows, answers, n - 1).push(c),
            None => immediate_completions(flows, answers, n - 1),
        }
    }
}

fn flow_completion(flow: &Flow, answers: &Vec<Result<(), i32>>) -> (r: Option<TorusResult>)
    ensures
        r == immediate_completion(*flow, answers@),
{
    if let Operation::Close { .. } = flow.operation() {
        return Some(TorusResult::new(0, flow.user_data()));
    }
    let mut i: usize = 0;
    while i < answers.len()
        invariant
            i <= answers@.len(),
            !(flow.op_of() is Close),
            first_refused(answers@, i as int) == first_refused(answers@, 0),
        decreases answers.len() - i,
    {
        if let Err(e) = answers[i] {
            return Some(TorusResult::new(-(e as i64), flow.user_data()));
        }
        i = i + 1;
    }
    None
}

/// The backend's completion queue and the number of operations in flight
/// (submitted and not yet reaped; it counts flows as they are submitted
/// and completions as they are reaped, wrapping around 32 bits).
pub struct IocpQueue {
    completions: Vec<TorusResult>,
    in_flight: u32,
}

impl IocpQueue {
    /// The completions waiting to be reaped, oldest first.
    pub closed spec fn queued(&self) -> Seq<TorusResult> {
        self.completions@
    }

    /// The count of operations in flight.
    pub closed spec fn count(&self) -> u32 {
        self.in_flight
    }

    /// An empty queue with nothing in flight.
    pub fn new() -> (q: Self)
        ensures
            q.queued() == Seq::<TorusResult>::empty(),
            q.count() == 0,
    {
        IocpQueue { completions: Vec::new(), in_flight: 0 }
    }

    /// Record the submission of `flows`, `answers[i]` being the answers to
    /// the calls made for flow `i`: each flow's immediate completion (if
    /// any) joins the queue in order, every flow counts in flight, and the
    /// number of flows is returned.
    pub fn submit(&mut self, flows: &[Flow], answers: &Vec<Vec<Result<(), i32>>>) -> (n: usize)
        requires
            answers@.len() == flows@.len(),
            forall|i: int| 0 <= i < flows@.len() ==> answers_fit(#[trigger] flows@[i].op_of(), answers@[i]@),
        ensures
            n == flows@.len(),
            final(self).queued() == old(self).queued() + immediate_completions(
                flows@,
                answers@.map_values(|a: Vec<Result<(), i32>>| a@),
                flows@.len() as int,
            ),
            final(self).count() == old(self).count().wrapping_add(flows@.len() as u32),
    {
        let ghost views = answers@.map_values(|a: Vec<Result<(), i32>>| a@);
        let mut i: usize = 0;
        while i < flows.len()
            invariant
                i <= flows@.len(),
                answers@.len() == flows@.len(),
                views == answers@.map_values(|a: Vec<Result<(), i32>>| a@),
                forall|k: int| 0 <= k < flows@.len() ==> answers_fit(#[trigger] flows@[k].op_of(), answers@[k]@),
                self.completions@ == old(self).queued() + immediate_completions(flows@, views, i as int),
                self.in_flight == old(self).count(),
            decreases flows.len() - i,
        {
            assert(answers_fit(flows@[i as int].op_of(), answers@[i as int]@));
            assert(views[i as int] == answers@[i as int]@);
            match flow_completion(&flows[i], &answers[i]) {
                Some(c) => {
                    self.completions.push(c);
                },
                None => {},
            }
            i = i + 1;
        }
        self.in_flight = self.in_flight.wrapping_add(flows.len() as u32);
        flows.len()
    }

    /// A completion taken from the port joins the queue.
    pub fn push_completion(&mut self, r: TorusResult)
        ensures
            final(self).queued() == old(self).queued().push(r),
            final(self).count() == old(self).count(),
    {
        self.completions.push(r);
    }

    /// Move every queued completion, oldest first, to the end of
    /// `results`; each leaves the in-flight count. Returns how many.
    pub fn reap(&mut self, results: &mut Vec<TorusResult>) -> (n: usize)
        ensures
            n == old(self).queued().len(),
            final(results)@ == old(results)@ + old(self).queued(),
            final(self).queued() == Seq::<TorusResult>::empty(),
            final(self).count() == old(self).count().wrapping_sub(n as u32),
    {
        let n = self.completions.len();
        results.append(&mut self.completions);
        self.in_flight = self.in_flight.wrapping_sub(n as u32);
        n
    }

    /// Whether a wait may return at once: nothing is in flight, or a
    /// completion is waiting to be reaped.
    pub fn ready(&self) -> (b: bool)
        ensures
            b == (self.count() == 0 || self.queued().len() > 0),
    {
        self.in_flight == 0 || self.completions.len() > 0
    }

    /// The number of operations in flight.
    pub fn in_flight(&self) -> (n: u32)
        ensures
            n == self.count(),
    {
        self.in_flight
    }
}

/// The in-flight count balances: submitting `n` flows and then reaping `m`
/// completions moves it by `n - m`, modulo 2^32.
pub proof fn law_in_flight_balances(count: u32, n: u32, m: u32)
    ensures
        count.wrapping_add(n).wrapping_sub(m) as int == (count + n - m) % 0x1_0000_0000,
{
}

/// What a read, write, receive or send completion taken from the port
/// reports: the bytes transferred, or when none were, the negated
/// `error` (`GetLastError` at that point).
pub fn transfer_completion(bytes: u32, error: i32, user_data: u64) -> (r: TorusResult)
    requires
        error != i32::MIN,
    ensures
        bytes == 0 ==> r == error_completion(error, user_data),
        bytes != 0 ==> r == (TorusResult { result: bytes as i64, user_data }),
{
    if bytes == 0 {
        TorusResult::new(-(error as i64), user_data)
    } else {
        TorusResult::new(bytes as i64, user_data)
    }
}

/// What a finished `AcceptEx` reports, `finished` being the answer to
/// `GetOverlappedResult`: the accepted socket, or the negated error.
pub fn accept_completion(accept_socket: usize, finished: Result<(), i32>, user_data: u64) -> (r: TorusResult)
    requires
        finished is Err ==> finished->Err_0 != i32::MIN,
    ensures
        finished is Ok ==> r == (TorusResult { result: accept_socket as i64, user_data }),
        finished is Err ==> r == error_completion(finished->Err_0, user_data),
{
    match finished {
        Ok(()) => TorusResult::new(accept_socket as i64, user_data),
        Err(e) => TorusResult::new(-(e as i64), user_data),
    }
}

/// What a finished `ConnectEx` reports, `finished` being the answer to
/// `GetOverlappedResult`: 0, or the negated error.
pub fn connect_completion(finished: Result<(), i32>, user_data: u64) -> (r: TorusResult)
    requires
        finished is Err ==> finished->Err_0 != i32::MIN,
    ensures
        finished is Ok ==> r == (TorusResult { result: 0, user_data }),
        finished is Err ==> r == error_completion(finished->Err_0, user_data),
{
    match finished {
        Ok(()) => TorusResult::new(0, user_data),
        Err(e) => TorusResult::new(-(e as i64), user_data),
    }
}

/// How much of an accepted peer's address of `remote_len` bytes goes to
/// the caller's buffer of `capacity` bytes, and the length stored for the
/// caller: nothing when the caller gave no room or no address came back,
/// else at most `capacity` bytes, with the full length stored.
pub fn accept_address_copy(remote_len: i32, capacity: u32) -> (r: Option<(usize, u32)>)
    ensures
        capacity == 0 || remote_len <= 0 ==> r is None,
        capacity > 0 && remote_len > 0 ==> r == Some(
            (
                (if remote_len <= capacity {
                    remote_len as usize
                } else {
                    capacity as usize
                }),
                remote_len as u32,
            ),
        ),
{
    if capacity == 0 || remote_len <= 0 {
        return None;
    }
    let len = remote_len as u32;
    let copy = if len <= capacity {
        len
    } else {
        capacity
    };
    Some((copy as usize, len))
}

/// The local address a socket is bound to before `ConnectEx`, which needs
/// a bound socket: none when it is already bound, else the wildcard of
/// the target's family; a family other than IPv4 or IPv6 is refused.
pub fn connect_binding(bound: bool, family: u16) -> (r: Result<Option<u16>, i32>)
    ensures
        bound ==> r == Ok::<Option<u16>, i32>(None),
        !bound && (family == AF_INET || family == AF_INET6) ==> r == Ok::<Option<u16>, i32>(Some(family)),
        !bound && family != AF_INET && family != AF_INET6 ==> r == Err::<Option<u16>, i32>(WSAEAFNOSUPPORT),
{
    if bound {
        Ok(None)
    } else if family == AF_INET || family == AF_INET6 {
        Ok(Some(family))
    } else {
        Err(WSAEAFNOSUPPORT)
    }
}


/// Whether the call moves data from the device into the caller's buffer.
pub open spec fn reads_into_buffer(c: IocpCall) -> bool {
    c is ReadFile || c is WsaRecv
}

/// Whether the call moves data from the caller's buffer to the device.
pub open spec fn writes_from_buffer(c: IocpCall) -> bool {
    c is WriteFile || c is WsaSend
}

proof fn lemma_vectored_calls_direction(read: bool, fd: i32, bufs: Seq<IoSlice>, offset: u64, j: int)
    requires
        j <= bufs.len(),
    ensures
        vectored_calls(read, fd, bufs, offset, j).len() <= if j < 0 { 0 } else { j },
        forall|k: int|
            0 <= k < vectored_calls(read, fd, bufs, offset, j).len() ==> {
                let c = #[trigger] vectored_calls(read, fd, bufs, offset, j)[k];
                &&& read ==> (c matches IocpCall::ReadFile { handle, .. } && handle == fd)
                &&& !read ==> (c matches IocpCall::WriteFile { handle, .. } && handle == fd)
            },
    decreases j,
{
    if j > 0 {
        lemma_vectored_calls_direction(read, fd, bufs, offset, j - 1);
        let prev = vectored_calls(read, fd, bufs, offset, j - 1);
        if bufs[j - 1].len != 0 {
            let cur = vectored_calls(read, fd, bufs, offset, j);
            assert forall|k: int| 0 <= k < cur.len() implies {
                let c = #[trigger] cur[k];
                &&& read ==> (c matches IocpCall::ReadFile { handle, .. } && handle == fd)
                &&& !read ==> (c matches IocpCall::WriteFile { handle, .. } && handle == fd)
            } by {
                if k < prev.len() {
                    assert(cur[k] == prev[k]);
                }
            }
        }
    }
}

/// Each operation is carried out by the Win32 calls of its own direction
/// and target: a read or receive only by calls that fill the caller's
/// buffer (`ReadFile` / `WSARecv`), a write or send only by calls that
/// drain it (`WriteFile` / `WSASend`), on the operation's own descriptor,
/// buffer and length, a file transfer at its own offset; an accept is an
/// `AcceptEx` on the listening socket, a connect a `ConnectEx`, and a close
/// closes the descriptor and nothing else: the invalid socket (-1) as a
/// handle, any other descriptor as a socket.
pub proof fn law_calls_follow_direction(op: Operation)
    ensures
        op matches Operation::Read { fd, buf, len, offset } ==> {
            let calls = operation_calls(op);
            &&& calls.len() == 1
            &&& calls[0] matches IocpCall::ReadFile { handle, buf: b, len: l, offset_low, offset_high }
                && handle == fd && b == buf && l == len as u32 && offset_low + offset_high
                * 0x1_0000_0000 == offset
        },
        op matches Operation::Write { fd, buf, len, offset } ==> {
            let calls = operation_calls(op);
            &&& calls.len() == 1
            &&& calls[0] matches IocpCall::WriteFile { handle, buf: b, len: l, offset_low, offset_high }
                && handle == fd && b == buf && l == len as u32 && offset_low + offset_high
                * 0x1_0000_0000 == offset
        },
        op matches Operation::Readv { fd, .. } ==> forall|k: int|
            0 <= k < operation_calls(op).len() ==> (#[trigger] operation_calls(op)[k] matches IocpCall::ReadFile {
                handle,
                ..
            } && handle == fd),
        op matches Operation::Writev { fd, .. } ==> forall|k: int|
            0 <= k < operation_calls(op).len() ==> (#[trigger] operation_calls(op)[k] matches IocpCall::WriteFile {
                handle,
                ..
            } && handle == fd),
        op matches Operation::Recv { fd, buf, len } ==> operation_calls(op) == seq![
            IocpCall::WsaRecv { socket: fd, buf, len: len as u32 },
        ],
        op matches Operation::Send { fd, buf, len } ==> operation_calls(op) == seq![
            IocpCall::WsaSend { socket: fd, buf, len: len as u32 },
        ],
        op matches Operation::Accept { fd, addr, addrlen } ==> operation_calls(op) == seq![
            IocpCall::AcceptEx { listen_socket: fd, addr, addrlen },
        ],
        op matches Operation::Connect { fd, addr, addrlen } ==> operation_calls(op) == seq![
            IocpCall::ConnectEx { socket: fd, addr, addrlen },
        ],
        op matches Operation::Close { fd } ==> operation_calls(op).len() == 1 && (fd == -1
            ==> operation_calls(op)[0] == (IocpCall::CloseHandle { handle: fd })) && (fd != -1
            ==> operation_calls(op)[0] == (IocpCall::CloseSocket { socket: fd })),
        (op is Read || op is Readv || op is Recv) ==> forall|k: int|
            0 <= k < operation_calls(op).len() ==> reads_into_buffer(#[trigger] operation_calls(op)[k]),
        (op is Write || op is Writev || op is Send) ==> forall|k: int|
            0 <= k < operation_calls(op).len() ==> writes_from_buffer(#[trigger] operation_calls(op)[k]),
{
    match op {
        Operation::Read { offset, .. } => {
            vstd::arithmetic::div_mod::lemma_fundamental_div_mod(offset as int, 0x1_0000_0000);
        },
        Operation::Write { offset, .. } => {
            vstd::arithmetic::div_mod::lemma_fundamental_div_mod(offset as int, 0x1_0000_0000);
        },
        Operation::Readv { fd, bufs, offset } => {
            lemma_vectored_calls_direction(true, fd, bufs@, offset, bufs@.len() as int);
        },
        Operation::Writev { fd, bufs, offset } => {
            lemma_vectored_calls_direction(false, fd, bufs@, offset, bufs@.len() as int);
        },
        _ => {},
    }
}

} // verus!
