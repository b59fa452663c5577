//! Raw access to the Virtual Torus, bypassing buffer leasing: operations on
//! caller-supplied buffer addresses are submitted as they are, without any
//! lease registration. The caller keeps each buffer valid until its
//! completion is reaped.
use crate::backend::Backend;
use crate::context::{single_submit_result, Torus};
use crate::error::Error;
use crate::flow::Flow;
use crate::operation::Operation;
use crate::result::TorusResult;
use vstd::prelude::*;

verus! {

/// Whether submitting `op` raw through `before` may lead to `after` with
/// the outcome `r`: the backend is handed exactly one flow, carrying `op`
/// with zero caller data, and its answer is reported as for one flow; the
/// virtual rings are untouched.
pub open spec fn raw_submitted<B: Backend>(
    before: Torus<B>,
    op: Operation,
    after: Torus<B>,
    r: Result<(), Error>,
) -> bool {
    &&& after.sq_ring() == before.sq_ring()
    &&& after.cq_ring() == before.cq_ring()
    &&& exists|f: Flow, n: Result<usize, Error>|
        f.op_of() == op && f.user_data_of() == 0 && #[trigger] B::submits(
            before.backend_of(),
            seq![f],
            after.backend_of(),
            n,
        ) && r == single_submit_result(n)
}

impl<B: Backend> Torus<B> {
    /// Raw access to this Torus, bypassing buffer leasing.
    pub fn raw(&mut self) -> (r: RawTorus<'_, B>)
        ensures
            r.target() == *old(self),
    {
        RawTorus::new(self)
    }
}

/// Raw, unguarded access to a Torus.
pub struct RawTorus<'a, B: Backend> {
    torus: &'a mut Torus<B>,
}

impl<'a, B: Backend> RawTorus<'a, B> {
    /// The Torus accessed.
    pub closed spec fn target(&self) -> Torus<B> {
        *self.torus
    }

    /// Raw access to `torus`.
    pub fn new(torus: &'a mut Torus<B>) -> (r: Self)
        ensures
            r.target() == *old(torus),
    {
        RawTorus { torus }
    }

    fn submit_op(&mut self, op: Operation) -> (r: Result<(), Error>)
        ensures
            raw_submitted(old(self).target(), op, final(self).target(), r),
    {
        let flow = Flow::new(op);
        self.torus.submit(&flow)
    }

    /// Submit a read of `len` bytes into the buffer at `buf` from `fd` at
    /// `offset`; the outcome is the backend's answer for one flow.
    pub fn submit_read(&mut self, fd: i32, buf: usize, len: usize, offset: u64) -> (r: Result<(), Error>)
        ensures
            raw_submitted(old(self).target(), (Operation::Read { fd, buf, len, offset }), final(self).target(), r),
    {
        self.submit_op(Operation::Read { fd, buf, len, offset })
    }

    /// Submit a write of `len` bytes from the buffer at `buf` to `fd` at
    /// `offset`.
    pub fn submit_write(&mut self, fd: i32, buf: usize, len: usize, offset: u64) -> (r: Result<(), Error>)
        ensures
            raw_submitted(old(self).target(), (Operation::Write { fd, buf, len, offset }), final(self).target(), r),
    {
        self.submit_op(Operation::Write { fd, buf, len, offset })
    }

    /// Submit a receive of up to `len` bytes into the buffer at `buf`.
    pub fn submit_recv(&mut self, fd: i32, buf: usize, len: usize) -> (r: Result<(), Error>)
        ensures
            raw_submitted(old(self).target(), (Operation::Recv { fd, buf, len }), final(self).target(), r),
    {
        self.submit_op(Operation::Recv { fd, buf, len })
    }

    /// Submit a send of `len` bytes from the buffer at `buf`.
    pub fn submit_send(&mut self, fd: i32, buf: usize, len: usize) -> (r: Result<(), Error>)
        ensures
            raw_submitted(old(self).target(), (Operation::Send { fd, buf, len }), final(self).target(), r),
    {
        self.submit_op(Operation::Send { fd, buf, len })
    }

    /// Submit a close of `fd`.
    pub fn submit_close(&mut self, fd: i32) -> (r: Result<(), Error>)
        ensures
            raw_submitted(old(self).target(), (Operation::Close { fd }), final(self).target(), r),
    {
        self.submit_op(Operation::Close { fd })
    }

    /// Reap all available completions into `results`.
    pub fn reap(&mut self, results: &mut Vec<TorusResult>) -> (r: Result<usize, Error>)
        ensures
            B::reaps(
                old(self).target().backend_of(),
                old(results)@,
                final(self).target().backend_of(),
                final(results)@,
                r,
            ),
            final(self).target().sq_ring() == old(self).target().sq_ring(),
            final(self).target().cq_ring() == old(self).target().cq_ring(),
    {
        self.torus.reap(results)
    }

    /// Block until at least one completion is available.
    pub fn wait(&mut self, timeout_us: u64) -> (r: Result<(), Error>)
        ensures
            B::waits(old(self).target().backend_of(), timeout_us, final(self).target().backend_of(), r),
            final(self).target().sq_ring() == old(self).target().sq_ring(),
            final(self).target().cq_ring() == old(self).target().cq_ring(),
    {
        self.torus.wait(timeout_us)
    }

    /// Access the underlying Torus instance.
    pub fn torus(&self) -> (t: &Torus<B>)
        ensures
            *t == self.target(),
    {
        self.torus
    }
}

} // verus!
