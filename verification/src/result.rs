//! Completions: the user-space equivalent of an io_uring CQE.
use vstd::prelude::*;

verus! {

/// Two's-complement negation of a 64-bit value (the minimum maps to itself).
pub open spec fn wrapping_neg_i64(v: i64) -> i64 {
    if v == i64::MIN {
        v
    } else {
        (-v) as i64
    }
}

/// A finished I/O operation: a byte count (`result >= 0`) or a negative
/// errno, together with the user data of the submission it completes.
#[derive(Clone, Copy, Debug)]
pub struct TorusResult {
    /// Number of bytes transferred, or a negative errno on failure.
    pub result: i64,
    /// User data from the submitting flow.
    pub user_data: u64,
}

impl TorusResult {
    /// Whether this completion reports success.
    pub open spec fn succeeded(&self) -> bool {
        self.result >= 0
    }

    /// Create a new completion result.
    pub fn new(result: i64, user_data: u64) -> (r: Self)
        ensures
            r.result == result,
            r.user_data == user_data,
    {
        TorusResult { result, user_data }
    }

    /// Returns `true` if the operation completed successfully.
    pub fn is_ok(&self) -> (b: bool)
        ensures
            b == self.succeeded(),
    {
        self.result >= 0
    }

    /// Returns the number of bytes transferred, or `None` on error.
    pub fn bytes(&self) -> (r: Option<usize>)
        ensures
            r == (if self.succeeded() {
                Some(self.result as usize)
            } else {
                None::<usize>
            }),
    {
        if self.is_ok() {
            Some(self.result as usize)
        } else {
            None
        }
    }

    /// Returns the raw result value (bytes transferred or negative errno).
    pub fn raw(&self) -> (r: i64)
        ensures
            r == self.result,
    {
        self.result
    }

    /// Returns the errno (the negated result, truncated to 32 bits), or
    /// `None` on success.
    pub fn error(&self) -> (r: Option<i32>)
        ensures
            r == (if self.succeeded() {
                None::<i32>
            } else {
                Some(wrapping_neg_i64(self.result) as i32)
            }),
    {
        if self.is_ok() {
            None
        } else {
            let neg: i64 = if self.result == i64::MIN {
                self.result
            } else {
                -self.result
            };
            Some(neg as i32)
        }
    }
}

} // verus!
