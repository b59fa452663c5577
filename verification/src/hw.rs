//! Hardware bypass: user-space NVMe, networking and GPU-Direct DMA. The
//! library keeps the decisions and bookkeeping of each driver; the calls
//! into the drivers themselves are made by the embedding program.
pub mod cuda;
pub mod dma_pool;
pub mod dpdk;
pub mod gpu_direct;
pub mod nvme_gpu;
pub mod spdk;
pub mod xdp;

use vstd::prelude::*;

verus! {

/// Errors specific to hardware bypass operations.
#[derive(Debug)]
pub enum HwError {
    /// The hardware bypass library is not available.
    NotAvailable(String),
    /// Failed to initialize the hardware.
    InitFailed(String),
    /// The operation timed out.
    Timeout,
    /// Invalid parameter.
    InvalidParam(String),
    /// Hardware queue is full.
    QueueFull,
    /// Memory allocation failed.
    OutOfMemory,
    /// The device is not supported.
    UnsupportedDevice(String),
}

/// The human-readable description of a hardware error.
pub open spec fn hw_error_text(e: &HwError) -> Seq<char> {
    match e {
        HwError::NotAvailable(m) => "hardware bypass not available: "@ + m@,
        HwError::InitFailed(m) => "hardware initialization failed: "@ + m@,
        HwError::Timeout => "operation timed out"@,
        HwError::InvalidParam(m) => "invalid parameter: "@ + m@,
        HwError::QueueFull => "hardware queue is full"@,
        HwError::OutOfMemory => "memory allocation failed"@,
        HwError::UnsupportedDevice(m) => "unsupported device: "@ + m@,
    }
}

impl HwError {
    /// The human-readable description of this error.
    pub fn display_string(&self) -> (s: String)
        ensures
            s@ == hw_error_text(self),
    {
        let (prefix, detail): (&str, Option<&String>) = match self {
            HwError::NotAvailable(m) => ("hardware bypass not available: ", Some(m)),
            HwError::InitFailed(m) => ("hardware initialization failed: ", Some(m)),
            HwError::Timeout => ("operation timed out", None),
            HwError::InvalidParam(m) => ("invalid parameter: ", Some(m)),
            HwError::QueueFull => ("hardware queue is full", None),
            HwError::OutOfMemory => ("memory allocation failed", None),
            HwError::UnsupportedDevice(m) => ("unsupported device: ", Some(m)),
        };
        let mut s = String::from_str(prefix);
        if let Some(m) = detail {
            s.append(m.as_str());
        }
        s
    }
}

/// Result type for hardware bypass operations.
pub type HwResult<T> = Result<T, HwError>;

} // verus!
