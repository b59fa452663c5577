//! User-space networking (DPDK): packet buffer and port types, port
//! configuration and statistics. This build carries no DPDK driver: the
//! entry points report that it is not available.
use crate::hw::{HwError, HwResult};
use vstd::prelude::*;

verus! {

/// Opaque DPDK mempool.
pub struct RteMempool {
    _private: [u8; 0],
}

/// Opaque DPDK mbuf.
pub struct RteMbuf {
    _private: [u8; 0],
}

/// Opaque DPDK Ethernet device.
pub struct RteEthDev {
    _private: [u8; 0],
}

/// The leading fields of a DPDK packet buffer.
pub struct DpdkMbuf {
    pub buf_addr: usize,
    pub buf_iova: u64,
    pub refcnt: u16,
    pub nb_segs: u16,
    pub port: u16,
    pub packet_type: u32,
    pub pkt_len: u32,
    pub data_len: u16,
    pub data_off: u16,
    pub vlan_tci: u16,
}

/// DPDK Ethernet device configuration (opaque to the library).
pub struct RteEthConf {
    _pad: [u8; 1024],
}

/// DPDK Ethernet statistics as the driver reports them.
pub struct RteEthStats {
    pub ipackets: u64,
    pub opackets: u64,
    pub ibytes: u64,
    pub obytes: u64,
    pub imissed: u64,
    /// Counters this library does not read.
    pub _pad: [u64; 3],
    pub rx_nombuf: u64,
}

/// The message every DPDK entry point reports in this build.
pub open spec fn dpdk_unavailable_text() -> Seq<char> {
    "DPDK support requires the `dpdk` feature and an installed DPDK library"@
}

/// `r` is the error every DPDK entry point reports in this build.
pub open spec fn dpdk_unavailable(r: HwError) -> bool {
    r matches HwError::NotAvailable(m) && m@ == dpdk_unavailable_text()
}

fn dpdk_unavailable_error() -> (e: HwError)
    ensures
        dpdk_unavailable(e),
{
    HwError::NotAvailable(
        String::from_str("DPDK support requires the `dpdk` feature and an installed DPDK library"),
    )
}

/// Top-level DPDK entry point.
pub struct Dpdk;

impl Dpdk {
    /// Initialize the DPDK environment with `args`; without a DPDK driver
    /// this reports that DPDK is not available.
    pub fn eal_init(args: &[&str]) -> (r: HwResult<()>)
        ensures
            r is Err && dpdk_unavailable(r->Err_0),
    {
        Err(dpdk_unavailable_error())
    }

    /// Clean up the DPDK environment; not available in this build.
    pub fn eal_cleanup() -> (r: HwResult<()>)
        ensures
            r is Err && dpdk_unavailable(r->Err_0),
    {
        Err(dpdk_unavailable_error())
    }

    /// Number of available Ethernet devices; not available in this build.
    pub fn port_count() -> (r: HwResult<u16>)
        ensures
            r is Err && dpdk_unavailable(r->Err_0),
    {
        Err(dpdk_unavailable_error())
    }
}

/// A DPDK memory pool of packet buffers.
pub struct Mempool {
    name: String,
    count: usize,
    pool: usize,
}

impl Mempool {
    /// The pool's name.
    pub closed spec fn label(&self) -> Seq<char> {
        self.name@
    }

    /// The number of buffers.
    pub closed spec fn size(&self) -> usize {
        self.count
    }

    /// The driver's handle of the pool.
    pub closed spec fn handle(&self) -> usize {
        self.pool
    }

    /// Create a mempool of `count` packet buffers; not available in this
    /// build.
    pub fn new(name: &str, count: usize, cache_size: u32, priv_size: u16, data_room_size: u16) -> (r:
        HwResult<Self>)
        ensures
            r is Err && dpdk_unavailable(r->Err_0),
    {
        Err(dpdk_unavailable_error())
    }

    /// The driver's handle of the pool.
    pub fn as_ptr(&self) -> (p: usize)
        ensures
            p == self.handle(),
    {
        self.pool
    }

    /// Get the name of the mempool.
    pub fn name(&self) -> (s: &str)
        ensures
            s@ == self.label(),
    {
        self.name.as_str()
    }

    /// Number of mbufs in the pool.
    pub fn count(&self) -> (n: usize)
        ensures
            n == self.size(),
    {
        self.count
    }

    /// Number of available mbufs (none without a driver).
    pub fn available_count(&self) -> (n: u32)
        ensures
            n == 0,
    {
        0
    }

    /// Allocate an mbuf from the pool (none without a driver).
    pub fn allocate(&self) -> (m: Option<Mbuf>)
        ensures
            m is None,
    {
        None
    }

    /// Return mbufs to the pool (nothing to do without a driver).
    pub fn free_bulk(&self, mbufs: &[Mbuf]) {
    }
}

/// A DPDK packet buffer handle.
pub struct Mbuf {
    ptr: usize,
}

impl Mbuf {
    /// The driver's handle of the buffer.
    pub closed spec fn handle(&self) -> usize {
        self.ptr
    }

    /// The driver's handle of the buffer.
    pub fn as_ptr(&self) -> (p: usize)
        ensures
            p == self.handle(),
    {
        self.ptr
    }

    /// Append `len` bytes of data room; not available in this build.
    pub fn append(&mut self, len: u16) -> (r: HwResult<usize>)
        ensures
            r is Err && dpdk_unavailable(r->Err_0),
            *final(self) == *old(self),
    {
        Err(dpdk_unavailable_error())
    }

    /// Prepend `len` bytes of headroom; not available in this build.
    pub fn prepend(&mut self, len: u16) -> (r: HwResult<usize>)
        ensures
            r is Err && dpdk_unavailable(r->Err_0),
            *final(self) == *old(self),
    {
        Err(dpdk_unavailable_error())
    }

    /// Remove `len` bytes from the front; not available in this build.
    pub fn adj(&mut self, len: u16) -> (r: HwResult<usize>)
        ensures
            r is Err && dpdk_unavailable(r->Err_0),
            *final(self) == *old(self),
    {
        Err(dpdk_unavailable_error())
    }

    /// Remove `len` bytes from the end; not available in this build.
    pub fn trim(&mut self, len: u16) -> (r: HwResult<()>)
        ensures
            r is Err && dpdk_unavailable(r->Err_0),
            *final(self) == *old(self),
    {
        Err(dpdk_unavailable_error())
    }
}

/// Configuration for a DPDK Ethernet port.
#[derive(Clone, Copy, Debug)]
pub struct EthConf {
    /// Link speed (0 = auto-negotiate).
    pub link_speed: u32,
    /// Maximum packet length.
    pub max_rx_pkt_len: u32,
    /// Number of RX queues.
    pub nb_rx_queues: u16,
    /// Number of TX queues.
    pub nb_tx_queues: u16,
    /// Offload flags.
    pub offloads: u64,
}

impl Default for EthConf {
    /// Auto-negotiated link, 1518-byte frames, one queue each way, no
    /// offloads.
    fn default() -> (c: Self)
        ensures
            c.link_speed == 0,
            c.max_rx_pkt_len == 1518,
            c.nb_rx_queues == 1,
            c.nb_tx_queues == 1,
            c.offloads == 0,
    {
        EthConf { link_speed: 0, max_rx_pkt_len: 1518, nb_rx_queues: 1, nb_tx_queues: 1, offloads: 0 }
    }
}

/// A DPDK Ethernet port.
pub struct Port {
    port_id: u16,
    conf: EthConf,
}

impl Port {
    /// The port's identifier.
    pub closed spec fn id(&self) -> u16 {
        self.port_id
    }

    /// Open port `port_id` with `conf` over `mempool`; not available in
    /// this build.
    pub fn open(port_id: u16, conf: EthConf, mempool: &Mempool) -> (r: HwResult<Self>)
        ensures
            r is Err && dpdk_unavailable(r->Err_0),
    {
        Err(dpdk_unavailable_error())
    }

    /// Start the port; not available in this build.
    pub fn start(&mut self) -> (r: HwResult<()>)
        ensures
            r is Err && dpdk_unavailable(r->Err_0),
            *final(self) == *old(self),
    {
        Err(dpdk_unavailable_error())
    }

    /// Stop the port (nothing to do without a driver).
    pub fn stop(&mut self)
        ensures
            *final(self) == *old(self),
    {
    }

    /// Receive a burst of packets on `queue_id` into `mbufs`; not available
    /// in this build, and `mbufs` is left as it was.
    pub fn rx_burst(&self, queue_id: u16, mbufs: &mut Vec<Mbuf>) -> (r: HwResult<usize>)
        ensures
            r is Err && dpdk_unavailable(r->Err_0),
            final(mbufs)@ == old(mbufs)@,
    {
        Err(dpdk_unavailable_error())
    }

    /// Transmit a burst of packets on `queue_id`; not available in this
    /// build.
    pub fn tx_burst(&self, queue_id: u16, mbufs: &[Mbuf]) -> (r: HwResult<usize>)
        ensures
            r is Err && dpdk_unavailable(r->Err_0),
    {
        Err(dpdk_unavailable_error())
    }

    /// The port's statistics; not available in this build.
    pub fn stats(&self) -> (r: HwResult<PortStats>)
        ensures
            r is Err && dpdk_unavailable(r->Err_0),
    {
        Err(dpdk_unavailable_error())
    }

    /// Get the port ID.
    pub fn port_id(&self) -> (id: u16)
        ensures
            id == self.id(),
    {
        self.port_id
    }
}

/// Port statistics.
#[derive(Clone, Copy, Debug)]
pub struct PortStats {
    /// Packets received.
    pub rx_packets: u64,
    /// Packets transmitted.
    pub tx_packets: u64,
    /// Bytes received.
    pub rx_bytes: u64,
    /// Bytes transmitted.
    pub tx_bytes: u64,
    /// RX errors.
    pub rx_errors: u64,
    /// TX errors.
    pub tx_errors: u64,
    /// RX missed (dropped) packets.
    pub rx_missed: u64,
    /// RX no-mbuffer errors.
    pub rx_nombuf: u64,
}

impl Default for PortStats {
    fn default() -> (s: Self)
        ensures
            s == (PortStats {
                rx_packets: 0,
                tx_packets: 0,
                rx_bytes: 0,
                tx_bytes: 0,
                rx_errors: 0,
                tx_errors: 0,
                rx_missed: 0,
                rx_nombuf: 0,
            }),
    {
        PortStats {
            rx_packets: 0,
            tx_packets: 0,
            rx_bytes: 0,
            tx_bytes: 0,
            rx_errors: 0,
            tx_errors: 0,
            rx_missed: 0,
            rx_nombuf: 0,
        }
    }
}

impl PortStats {
    /// The port statistics in the driver's report: packets, bytes, missed
    /// and no-buffer counts carried over, error counts zero.
    pub fn from_eth_stats(stats: &RteEthStats) -> (s: Self)
        ensures
            s == (PortStats {
                rx_packets: stats.ipackets,
                tx_packets: stats.opackets,
                rx_bytes: stats.ibytes,
                tx_bytes: stats.obytes,
                rx_errors: 0,
                tx_errors: 0,
                rx_missed: stats.imissed,
                rx_nombuf: stats.rx_nombuf,
            }),
    {
        PortStats {
            rx_packets: stats.ipackets,
            tx_packets: stats.opackets,
            rx_bytes: stats.ibytes,
            tx_bytes: stats.obytes,
            rx_errors: 0,
            tx_errors: 0,
            rx_missed: stats.imissed,
            rx_nombuf: stats.rx_nombuf,
        }
    }
}

} // verus!
