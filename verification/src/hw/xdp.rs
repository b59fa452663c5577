//! AF_XDP: the user-space memory area of packet frames, the socket's ring
//! configuration, packet descriptors and program handles. Opening and
//! binding the socket is done by the embedding program.
use crate::hw::{HwError, HwResult};
use vstd::prelude::*;

verus! {

/// Default frame size of a memory area.
pub const XDP_UMEM_DEFAULT_FRAME_SIZE: u32 = 4096;

/// Default headroom in front of each frame.
pub const XDP_UMEM_DEFAULT_FRAME_HEADROOM: u32 = 256;

/// A user-space memory area of `size` bytes at `base`, cut into frames.
pub struct XdpUmem {
    base: usize,
    size: usize,
    frame_size: u32,
    frame_headroom: u32,
}

impl XdpUmem {
    /// The base address.
    pub closed spec fn base_addr(&self) -> usize {
        self.base
    }

    /// The size in bytes.
    pub closed spec fn area_size(&self) -> usize {
        self.size
    }

    /// The frame size.
    pub closed spec fn frame_bytes(&self) -> u32 {
        self.frame_size
    }

    /// The headroom in front of each frame.
    pub closed spec fn headroom(&self) -> u32 {
        self.frame_headroom
    }

    /// The number of whole frames: the size (truncated to 32 bits) divided
    /// by the frame size.
    pub open spec fn frames(&self) -> u32 {
        ((self.area_size() as u32) / self.frame_bytes()) as u32
    }

    /// A memory area with 4 KiB frames and 256 bytes of headroom.
    pub fn new(base: usize, size: usize) -> (u: Self)
        ensures
            u.base_addr() == base,
            u.area_size() == size,
            u.frame_bytes() == XDP_UMEM_DEFAULT_FRAME_SIZE,
            u.headroom() == XDP_UMEM_DEFAULT_FRAME_HEADROOM,
    {
        XdpUmem {
            base,
            size,
            frame_size: XDP_UMEM_DEFAULT_FRAME_SIZE,
            frame_headroom: XDP_UMEM_DEFAULT_FRAME_HEADROOM,
        }
    }

    /// A memory area with the given frame size and headroom.
    pub fn with_config(base: usize, size: usize, frame_size: u32, frame_headroom: u32) -> (u: Self)
        ensures
            u.base_addr() == base,
            u.area_size() == size,
            u.frame_bytes() == frame_size,
            u.headroom() == frame_headroom,
    {
        XdpUmem { base, size, frame_size, frame_headroom }
    }

    /// Number of frames in the memory area.
    pub fn frame_count(&self) -> (n: u32)
        requires
            self.frame_bytes() != 0,
        ensures
            n == self.frames(),
    {
        (#[verifier::truncate] (self.size as u32)) / self.frame_size
    }

    /// Frame size in bytes.
    pub fn frame_size(&self) -> (n: u32)
        ensures
            n == self.frame_bytes(),
    {
        self.frame_size
    }

    /// The address of frame `index`, if there is such a frame.
    pub fn frame_ptr(&self, index: u32) -> (r: Option<usize>)
        requires
            self.frame_bytes() != 0,
            self.base_addr() + self.area_size() <= usize::MAX,
        ensures
            index >= self.frames() ==> r is None,
            index < self.frames() ==> r == Some((self.base_addr() + index * self.frame_bytes()) as usize),
    {
        if index >= self.frame_count() {
            return None;
        }
        let sz32 = #[verifier::truncate] (self.size as u32);
        let ghost sz = sz32 as int;
        let ghost size = self.size;
        proof {
            assert(sz32 <= size) by (bit_vector)
                requires
                    sz32 == size as u32,
            ;
            assert((index as int) * (self.frame_size as int) <= sz) by (nonlinear_arith)
                requires
                    (index as int) < sz / (self.frame_size as int),
                    self.frame_size > 0,
                    sz >= 0,
            ;
        }
        let offset = index * self.frame_size;
        Some(self.base + offset as usize)
    }
}

/// An AF_XDP socket: its descriptor, the bound memory area, and the sizes
/// of its receive and transmit rings.
pub struct XdpSocket {
    fd: i32,
    umem: Option<XdpUmem>,
    rx_ring_size: u32,
    tx_ring_size: u32,
}

impl XdpSocket {
    /// The socket descriptor.
    pub closed spec fn descriptor(&self) -> i32 {
        self.fd
    }

    /// Whether a memory area is bound.
    pub closed spec fn has_umem(&self) -> bool {
        self.umem is Some
    }

    /// The receive ring size.
    pub closed spec fn rx_size(&self) -> u32 {
        self.rx_ring_size
    }

    /// The transmit ring size.
    pub closed spec fn tx_size(&self) -> u32 {
        self.tx_ring_size
    }

    /// The socket opened as `fd`, with 2048-entry rings and no memory area.
    pub fn from_fd(fd: i32) -> (s: Self)
        ensures
            s.descriptor() == fd,
            !s.has_umem(),
            s.rx_size() == 2048,
            s.tx_size() == 2048,
    {
        XdpSocket { fd, umem: None, rx_ring_size: 2048, tx_ring_size: 2048 }
    }

    /// Set the receive ring size.
    pub fn with_rx_ring_size(self, size: u32) -> (s: Self)
        ensures
            s.descriptor() == self.descriptor(),
            s.has_umem() == self.has_umem(),
            s.rx_size() == size,
            s.tx_size() == self.tx_size(),
    {
        XdpSocket { rx_ring_size: size, ..self }
    }

    /// Set the transmit ring size.
    pub fn with_tx_ring_size(self, size: u32) -> (s: Self)
        ensures
            s.descriptor() == self.descriptor(),
            s.has_umem() == self.has_umem(),
            s.rx_size() == self.rx_size(),
            s.tx_size() == size,
    {
        XdpSocket { tx_ring_size: size, ..self }
    }

    /// Bind a memory area to the socket.
    pub fn bind_umem(&mut self, umem: XdpUmem) -> (r: HwResult<()>)
        ensures
            r is Ok,
            final(self).has_umem(),
            final(self).descriptor() == old(self).descriptor(),
            final(self).rx_size() == old(self).rx_size(),
            final(self).tx_size() == old(self).tx_size(),
    {
        self.umem = Some(umem);
        Ok(())
    }

    /// Receive packets into `descs`: no packet is delivered by this socket
    /// layer, so the count is zero and the descriptors are untouched.
    pub fn recv(&self, descs: &mut [XdpDesc]) -> (r: HwResult<usize>)
        ensures
            r == Ok::<usize, HwError>(0),
            final(descs)@ == old(descs)@,
    {
        Ok(0)
    }

    /// Send the packets of `descs`: nothing is sent by this socket layer,
    /// so the count is zero.
    pub fn send(&self, descs: &[XdpDesc]) -> (r: HwResult<usize>)
        ensures
            r == Ok::<usize, HwError>(0),
    {
        Ok(0)
    }

    /// Get the socket file descriptor.
    pub fn fd(&self) -> (fd: i32)
        ensures
            fd == self.descriptor(),
    {
        self.fd
    }
}

/// An XDP packet descriptor.
#[derive(Clone, Copy, Debug)]
pub struct XdpDesc {
    /// Offset of the packet in the memory area.
    pub addr: u64,
    /// Length of the packet.
    pub len: u32,
    /// Options.
    pub options: u32,
}

impl Default for XdpDesc {
    fn default() -> (d: Self)
        ensures
            d.addr == 0 && d.len == 0 && d.options == 0,
    {
        XdpDesc { addr: 0, len: 0, options: 0 }
    }
}

/// A loaded XDP program.
pub struct XdpProgram {
    prog_fd: i32,
}

impl XdpProgram {
    /// The program's descriptor (negative when none was created).
    pub closed spec fn descriptor(&self) -> i32 {
        self.prog_fd
    }

    /// Load the program object of `obj_len` bytes at `obj`. No program is
    /// created in the kernel by this layer: the handle carries no
    /// descriptor (-1).
    pub fn load(obj: usize, obj_len: usize) -> (r: HwResult<Self>)
        ensures
            r matches Ok(p) && p.descriptor() == -1,
    {
        Ok(XdpProgram { prog_fd: -1 })
    }

    /// Attach the program to interface `ifindex` (accepted as is by this
    /// layer).
    pub fn attach(&self, ifindex: u32, flags: u32) -> (r: HwResult<()>)
        ensures
            r is Ok,
    {
        Ok(())
    }

    /// The program's file descriptor.
    pub fn fd(&self) -> (fd: i32)
        ensures
            fd == self.descriptor(),
    {
        self.prog_fd
    }
}

/// The interface index that the lookup of interface `name` gave (`idx`,
/// 0 meaning that no such interface exists): an unknown interface is an
/// `InvalidParam` error naming it.
pub fn ifindex_from_name(name: &str, idx: u32) -> (r: HwResult<u32>)
    ensures
        idx != 0 ==> r == Ok::<u32, HwError>(idx),
        idx == 0 ==> (r matches Err(HwError::InvalidParam(m)) && m@ == "interface '"@ + name@
            + "' not found"@),
{
    if idx == 0 {
        let mut m = String::from_str("interface '");
        m.append(name);
        m.append("' not found");
        Err(HwError::InvalidParam(m))
    } else {
        Ok(idx)
    }
}

} // verus!
