//! The C interface's data: operation descriptors for batch submission,
//! completion records, and the errno each library error is reported as.
use crate::error::Error;
use crate::flow::Flow;
use crate::operation::Operation;
use crate::result::TorusResult;
use vstd::prelude::*;

verus! {

/// C-compatible operation descriptor for batch submission.
pub struct TorusOperation {
    /// Operation type: 0=Read, 1=Write, 2=Recv, 3=Send, 4=Close.
    pub op_type: u32,
    /// File descriptor.
    pub fd: i32,
    /// Buffer address.
    pub buf: usize,
    /// Buffer length.
    pub len: usize,
    /// File offset (for read/write).
    pub offset: u64,
    /// User data passed back with the completion.
    pub user_data: u64,
}

/// C-compatible completion result.
#[derive(Clone, Copy)]
pub struct TorusCompletion {
    /// Number of bytes transferred, or negative errno on failure.
    pub result: i64,
    /// User data from the submission.
    pub user_data: u64,
}

/// `EINVAL`, reported for an invalid argument or operation type.
pub const EINVAL_RET: i32 = -22;

/// `EAGAIN`, reported when the submission queue is full.
pub const EAGAIN_RET: i32 = -11;

/// The operation a descriptor stands for, if its type is known.
pub open spec fn descriptor_operation(op: TorusOperation) -> Option<Operation> {
    if op.op_type == 0 {
        Some(Operation::Read { fd: op.fd, buf: op.buf, len: op.len, offset: op.offset })
    } else if op.op_type == 1 {
        Some(Operation::Write { fd: op.fd, buf: op.buf, len: op.len, offset: op.offset })
    } else if op.op_type == 2 {
        Some(Operation::Recv { fd: op.fd, buf: op.buf, len: op.len })
    } else if op.op_type == 3 {
        Some(Operation::Send { fd: op.fd, buf: op.buf, len: op.len })
    } else if op.op_type == 4 {
        Some(Operation::Close { fd: op.fd })
    } else {
        None
    }
}

/// The flow a descriptor submits, with its user data, if its type is
/// known.
pub fn descriptor_flow(op: &TorusOperation) -> (r: Option<Flow>)
    ensures
        descriptor_operation(*op) is None ==> r is None,
        descriptor_operation(*op) matches Some(o) ==> r matches Some(f) && f.op_of() == o
            && f.user_data_of() == op.user_data,
{
    let o = if op.op_type == 0 {
        Operation::Read { fd: op.fd, buf: op.buf, len: op.len, offset: op.offset }
    } else if op.op_type == 1 {
        Operation::Write { fd: op.fd, buf: op.buf, len: op.len, offset: op.offset }
    } else if op.op_type == 2 {
        Operation::Recv { fd: op.fd, buf: op.buf, len: op.len }
    } else if op.op_type == 3 {
        Operation::Send { fd: op.fd, buf: op.buf, len: op.len }
    } else if op.op_type == 4 {
        Operation::Close { fd: op.fd }
    } else {
        return None;
    };
    Some(Flow::with_user_data(o, op.user_data))
}

/// The flows of a batch of descriptors, in order, or `EINVAL` when the
/// batch is empty or holds a descriptor of unknown type.
pub fn batch_flows(ops: &[TorusOperation]) -> (r: Result<Vec<Flow>, i32>)
    ensures
        ops@.len() == 0 ==> r == Err::<Vec<Flow>, i32>(EINVAL_RET),
        (exists|i: int| 0 <= i < ops@.len() && descriptor_operation(#[trigger] ops@[i]) is None)
            ==> r == Err::<Vec<Flow>, i32>(EINVAL_RET),
        ops@.len() > 0 && (forall|i: int|
            0 <= i < ops@.len() ==> descriptor_operation(#[trigger] ops@[i]) is Some) ==> (
        r matches Ok(flows) && flows@.len() == ops@.len() && forall|i: int|
            0 <= i < ops@.len() ==> (#[trigger] flows@[i]).op_of() == descriptor_operation(
                ops@[i],
            )->Some_0 && flows@[i].user_data_of() == ops@[i].user_data),
{
    if ops.len() == 0 {
        return Err(EINVAL_RET);
    }
    let mut flows: Vec<Flow> = Vec::with_capacity(ops.len());
    let mut i: usize = 0;
    while i < ops.len()
        invariant
            i <= ops@.len(),
            flows@.len() == i,
            forall|k: int| 0 <= k < i ==> descriptor_operation(#[trigger] ops@[k]) is Some,
            forall|k: int|
                0 <= k < i ==> (#[trigger] flows@[k]).op_of() == descriptor_operation(
                    ops@[k],
                )->Some_0 && flows@[k].user_data_of() == ops@[k].user_data,
        decreases ops.len() - i,
    {
        match descriptor_flow(&ops[i]) {
            Some(f) => flows.push(f),
            None => return Err(EINVAL_RET),
        }
        i = i + 1;
    }
    Ok(flows)
}

/// The errno a submission error is reported as: `EAGAIN` for a full queue,
/// the code of an OS error, `EINVAL` otherwise.
pub open spec fn submit_errno_of(e: Error) -> i32 {
    match e {
        Error::SubmissionFull => EAGAIN_RET,
        Error::Os(code) => code,
        _ => EINVAL_RET,
    }
}

/// The errno a wait or reap error is reported as: the code of an OS error,
/// `EINVAL` otherwise.
pub open spec fn wait_errno_of(e: Error) -> i32 {
    match e {
        Error::Os(code) => code,
        _ => EINVAL_RET,
    }
}

/// The errno a submission error is reported as.
pub fn submit_errno(e: &Error) -> (n: i32)
    ensures
        n == submit_errno_of(*e),
{
    match e {
        Error::SubmissionFull => EAGAIN_RET,
        Error::Os(code) => *code,
        _ => EINVAL_RET,
    }
}

/// The errno a wait or reap error is reported as.
pub fn wait_errno(e: &Error) -> (n: i32)
    ensures
        n == wait_errno_of(*e),
{
    match e {
        Error::Os(code) => *code,
        _ => EINVAL_RET,
    }
}

/// What a batch submission returns to C: the number submitted (truncated
/// to 32 bits), or the errno of the error.
pub fn batch_status(r: &Result<usize, Error>) -> (n: i32)
    ensures
        r matches Ok(count) ==> n == *count as i32,
        r matches Err(e) ==> n == submit_errno_of(*e),
{
    match r {
        Ok(count) => #[verifier::truncate] (*count as i32),
        Err(e) => submit_errno(e),
    }
}

/// The C record of a completion.
pub fn completion_record(r: &TorusResult) -> (c: TorusCompletion)
    ensures
        c.result == r.result,
        c.user_data == r.user_data,
{
    TorusCompletion { result: r.result, user_data: r.user_data }
}

/// The C records of at most `max_results` completions, in order.
pub fn completion_records(results: &[TorusResult], max_results: u32) -> (v: Vec<TorusCompletion>)
    ensures
        v@.len() == if results@.len() < max_results { results@.len() } else { max_results as nat },
        forall|i: int|
            0 <= i < v@.len() ==> (#[trigger] v@[i]).result == results@[i].result && v@[i].user_data
                == results@[i].user_data,
{
    let mut v: Vec<TorusCompletion> = Vec::new();
    let mut i: usize = 0;
    while i < results.len() && (i as u64) < (max_results as u64)
        invariant
            i <= results@.len(),
            i <= max_results,
            v@.len() == i,
            forall|k: int|
                0 <= k < i ==> (#[trigger] v@[k]).result == results@[k].result && v@[k].user_data
                    == results@[k].user_data,
        decreases results.len() - i,
    {
        v.push(completion_record(&results[i]));
        i = i + 1;
    }
    v
}


/// The descriptor's `op_type` selects the operation by the C interface's
/// table (0 read, 1 write, 2 receive, 3 send, 4 close), on the descriptor's
/// own descriptor, buffer, length and offset; any other type is unknown.
pub proof fn law_descriptor_table(d: TorusOperation)
    ensures
        d.op_type == 0 ==> descriptor_operation(d) == Some(
            (Operation::Read { fd: d.fd, buf: d.buf, len: d.len, offset: d.offset }),
        ),
        d.op_type == 1 ==> descriptor_operation(d) == Some(
            (Operation::Write { fd: d.fd, buf: d.buf, len: d.len, offset: d.offset }),
        ),
        d.op_type == 2 ==> descriptor_operation(d) == Some((Operation::Recv { fd: d.fd, buf: d.buf, len: d.len })),
        d.op_type == 3 ==> descriptor_operation(d) == Some((Operation::Send { fd: d.fd, buf: d.buf, len: d.len })),
        d.op_type == 4 ==> descriptor_operation(d) == Some((Operation::Close { fd: d.fd })),
        d.op_type > 4 ==> descriptor_operation(d) is None,
{
}

} // verus!
