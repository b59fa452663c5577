//! What the library hands to a platform backend, and the interface that a
//! platform backend implements.
use crate::error::Error;
use crate::flow::Flow;
use crate::result::TorusResult;
use vstd::prelude::*;

verus! {

/// A memory region to register with a backend for zero-copy I/O:
/// a platform-neutral base address and length.
#[derive(Clone, Copy)]
pub struct RegisterBuffer {
    /// Base address of the region.
    pub ptr: usize,
    /// Length in bytes.
    pub len: usize,
}

/// The interface that platform-specific backends implement. An
/// implementation states what its operations do by defining the relations
/// below; one that leaves them as they are promises nothing (each holds of
/// every outcome). The library's own contracts say what it hands to the
/// backend and that it passes the answer back.
pub trait Backend: Sized {
    /// Whether `after` and the answer `r` are what submitting `flows` to
    /// `before` may lead to.
    open spec fn submits(before: Self, flows: Seq<Flow>, after: Self, r: Result<usize, Error>) -> bool {
        true
    }

    /// Whether `after`, the results `out_after` and the answer `r` are what
    /// reaping from `before` into the results `out_before` may lead to.
    open spec fn reaps(
        before: Self,
        out_before: Seq<TorusResult>,
        after: Self,
        out_after: Seq<TorusResult>,
        r: Result<usize, Error>,
    ) -> bool {
        true
    }

    /// Whether `after` and the answer `r` are what waiting up to
    /// `timeout_us` microseconds on `before` may lead to.
    open spec fn waits(before: Self, timeout_us: u64, after: Self, r: Result<(), Error>) -> bool {
        true
    }

    /// Whether `n` is what the backend `b` may report as its number of
    /// submitted operations not yet completed.
    open spec fn counts(b: Self, n: u32) -> bool {
        true
    }

    /// Whether `after` and the answer `r` are what registering `buffers`
    /// with `before` may lead to.
    open spec fn registers(before: Self, buffers: Seq<RegisterBuffer>, after: Self, r: Result<(), Error>) -> bool {
        true
    }

    /// Whether `after` and the answer `r` are what unregistering the
    /// buffers of `before` may lead to.
    open spec fn unregisters(before: Self, after: Self, r: Result<(), Error>) -> bool {
        true
    }

    /// Submit a batch of flows; returns how many were enqueued.
    fn submit(&mut self, flows: &[Flow]) -> (r: Result<usize, Error>)
        ensures
            Self::submits(*old(self), flows@, *final(self), r),
    ;

    /// Append the available completions to `results`, in completion order;
    /// returns how many there were.
    fn reap(&mut self, results: &mut Vec<TorusResult>) -> (r: Result<usize, Error>)
        ensures
            Self::reaps(*old(self), old(results)@, *final(self), final(results)@, r),
    ;

    /// Block until at least one completion is available, up to
    /// `timeout_us` microseconds (0 waits indefinitely).
    fn wait(&mut self, timeout_us: u64) -> (r: Result<(), Error>)
        ensures
            Self::waits(*old(self), timeout_us, *final(self), r),
    ;

    /// The number of submitted operations not yet completed.
    fn in_flight(&self) -> (n: u32)
        ensures
            Self::counts(*self, n),
    ;

    /// Register memory regions for fixed-buffer I/O; a backend without such
    /// a mechanism accepts and ignores them.
    fn register_buffers(&mut self, buffers: &[RegisterBuffer]) -> (r: Result<(), Error>)
        ensures
            Self::registers(*old(self), buffers@, *final(self), r),
    ;

    /// Unregister all previously registered buffers.
    fn unregister_buffers(&mut self) -> (r: Result<(), Error>)
        ensures
            Self::unregisters(*old(self), *final(self), r),
    ;
}

} // verus!
