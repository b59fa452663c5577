//! CUDA driver result codes.
use vstd::prelude::*;

verus! {

/// CUDA result code.
#[derive(Clone, Copy, PartialEq, Eq, Structural, Debug)]
pub enum CUresult {
    Success,
    ErrorInvalidValue,
    ErrorOutOfMemory,
    ErrorNotInitialized,
    ErrorDeinitialized,
    ErrorNoDevice,
    ErrorInvalidDevice,
    ErrorInvalidContext,
    ErrorNotReady,
    ErrorLaunchFailed,
    Unknown,
}

/// The driver's numeric value of each result code.
pub open spec fn cu_code(r: CUresult) -> i32 {
    match r {
        CUresult::Success => 0,
        CUresult::ErrorInvalidValue => 1,
        CUresult::ErrorOutOfMemory => 2,
        CUresult::ErrorNotInitialized => 3,
        CUresult::ErrorDeinitialized => 4,
        CUresult::ErrorNoDevice => 100,
        CUresult::ErrorInvalidDevice => 101,
        CUresult::ErrorInvalidContext => 201,
        CUresult::ErrorNotReady => 600,
        CUresult::ErrorLaunchFailed => 719,
        CUresult::Unknown => 999,
    }
}

/// The description of each result code.
pub open spec fn cu_text(r: CUresult) -> Seq<char> {
    match r {
        CUresult::Success => "success"@,
        CUresult::ErrorInvalidValue => "invalid value"@,
        CUresult::ErrorOutOfMemory => "out of memory"@,
        CUresult::ErrorNotInitialized => "not initialized"@,
        CUresult::ErrorDeinitialized => "deinitialized"@,
        CUresult::ErrorNoDevice => "no CUDA device"@,
        CUresult::ErrorInvalidDevice => "invalid device"@,
        CUresult::ErrorInvalidContext => "invalid context"@,
        CUresult::ErrorNotReady => "not ready"@,
        CUresult::ErrorLaunchFailed => "launch failed"@,
        CUresult::Unknown => "unknown error"@,
    }
}

impl CUresult {
    /// Whether the call succeeded.
    pub fn is_ok(self) -> (b: bool)
        ensures
            b == (self == CUresult::Success),
    {
        self == CUresult::Success
    }

    /// The description of the result code.
    pub fn as_str(&self) -> (s: &'static str)
        ensures
            s@ == cu_text(*self),
    {
        match self {
            CUresult::Success => "success",
            CUresult::ErrorInvalidValue => "invalid value",
            CUresult::ErrorOutOfMemory => "out of memory",
            CUresult::ErrorNotInitialized => "not initialized",
            CUresult::ErrorDeinitialized => "deinitialized",
            CUresult::ErrorNoDevice => "no CUDA device",
            CUresult::ErrorInvalidDevice => "invalid device",
            CUresult::ErrorInvalidContext => "invalid context",
            CUresult::ErrorNotReady => "not ready",
            CUresult::ErrorLaunchFailed => "launch failed",
            CUresult::Unknown => "unknown error",
        }
    }

    /// The driver's numeric value of the result code.
    pub fn code(&self) -> (c: i32)
        ensures
            c == cu_code(*self),
    {
        match self {
            CUresult::Success => 0,
            CUresult::ErrorInvalidValue => 1,
            CUresult::ErrorOutOfMemory => 2,
            CUresult::ErrorNotInitialized => 3,
            CUresult::ErrorDeinitialized => 4,
            CUresult::ErrorNoDevice => 100,
            CUresult::ErrorInvalidDevice => 101,
            CUresult::ErrorInvalidContext => 201,
            CUresult::ErrorNotReady => 600,
            CUresult::ErrorLaunchFailed => 719,
            CUresult::Unknown => 999,
        }
    }
}

} // verus!
