//! Flows: submissions to the Virtual Torus.
use crate::operation::Operation;
use vstd::prelude::*;

verus! {

/// A submission to the Virtual Torus, the user-space equivalent of an
/// io_uring SQE: an [`Operation`] with caller data (`user_data`) that is
/// returned verbatim in the matching completion.
pub struct Flow {
    op: Operation,
    user_data: u64,
}

impl Flow {
    /// The operation this flow submits.
    pub closed spec fn op_of(&self) -> Operation {
        self.op
    }

    /// The caller data echoed back on completion.
    pub closed spec fn user_data_of(&self) -> u64 {
        self.user_data
    }

    /// Create a new `Flow` with the given operation and zero user data.
    pub fn new(op: Operation) -> (f: Self)
        ensures
            f.op_of() == op,
            f.user_data_of() == 0,
    {
        Flow { op, user_data: 0 }
    }

    /// Create a new `Flow` with user-provided data returned on completion.
    pub fn with_user_data(op: Operation, user_data: u64) -> (f: Self)
        ensures
            f.op_of() == op,
            f.user_data_of() == user_data,
    {
        Flow { op, user_data }
    }

    /// Attach arbitrary user data to this flow; returns the flow for
    /// chaining.
    pub fn set_user_data(&mut self, data: u64) -> (r: &mut Self)
        ensures
            r.op_of() == old(self).op_of(),
            r.user_data_of() == data,
            *final(self) == *final(r),
    {
        self.user_data = data;
        self
    }

    /// Get the user data associated with this flow.
    pub fn user_data(&self) -> (d: u64)
        ensures
            d == self.user_data_of(),
    {
        self.user_data
    }

    /// Access the inner operation.
    pub fn operation(&self) -> (op: &Operation)
        ensures
            *op == self.op_of(),
    {
        &self.op
    }

    /// Consume the flow, returning the inner operation.
    pub fn into_operation(self) -> (op: Operation)
        ensures
            op == self.op_of(),
    {
        self.op
    }
}

} // verus!
