//! The I/O operations that can be submitted to the Virtual Torus.
//!
//! Buffers and socket addresses are carried as plain addresses: the library
//! never dereferences them, it only hands them on to the kernel.
use vstd::prelude::*;

verus! {

/// One buffer of a vectored operation: its address and length in bytes.
#[derive(Clone, Copy, Debug)]
pub struct IoSlice {
    /// Address of the buffer.
    pub buf: usize,
    /// Length of the buffer in bytes.
    pub len: usize,
}

/// I/O operations that can be submitted to the Virtual Torus.
///
/// Each variant maps to a native operation on the underlying backend
/// (an io_uring opcode on Linux).
#[allow(inconsistent_fields)]
#[derive(Clone, Debug)]
pub enum Operation {
    /// Read from a file descriptor at a given offset.
    Read { fd: i32, buf: usize, len: usize, offset: u64 },
    /// Write to a file descriptor at a given offset.
    Write { fd: i32, buf: usize, len: usize, offset: u64 },
    /// Read into several buffers from a file descriptor, starting at a
    /// given offset.
    Readv { fd: i32, bufs: Vec<IoSlice>, offset: u64 },
    /// Write from several buffers to a file descriptor, starting at a given
    /// offset.
    Writev { fd: i32, bufs: Vec<IoSlice>, offset: u64 },
    /// Accept an incoming connection on a listening socket (`addr` and
    /// `addrlen` are where the peer address and its length are stored).
    Accept { fd: i32, addr: usize, addrlen: usize },
    /// Connect a socket to a remote address.
    Connect { fd: i32, addr: usize, addrlen: u32 },
    /// Receive data from a connected socket.
    Recv { fd: i32, buf: usize, len: usize },
    /// Send data to a connected socket.
    Send { fd: i32, buf: usize, len: usize },
    /// Close a file descriptor.
    Close { fd: i32 },
}

} // verus!
