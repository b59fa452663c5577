//! Verified core of the Torus asynchronous I/O framework: completions,
//! submissions, virtual rings, buffer leasing, resource limiting and the
//! hardware-bypass bookkeeping, each with a contract checked by Verus.
pub mod error;
pub mod ffi;
pub mod flow;
pub mod hw;
pub mod iocp;
pub mod kqueue;
pub mod operation;
pub mod result;
pub mod sys;
pub mod rings;
pub mod scaffold;
pub mod lease;
pub mod observability;
pub mod raw_api;
pub mod async_api;
pub mod backend;
pub mod cgroup;
pub mod context;
pub mod text;
pub mod torus_panic;
pub mod uring;
