//! User-space NVMe (SPDK): completion status decoding, NVMe command
//! encoding and a free-list pool of DMA buffers. This build carries no SPDK
//! driver: the environment entry points report that it is not available.
use crate::hw::{HwError, HwResult};
use vstd::prelude::*;

verus! {

/// SPDK NVMe completion status.
#[derive(Clone, Copy, Debug)]
pub struct SpdkNvmeCpl {
    /// Command-specific dword 0.
    pub cdw0: u32,
    /// Status code.
    pub sc: u8,
    /// SC bit.
    pub sc_bit: u8,
    /// Status code type.
    pub sct: u8,
    /// Phase bit.
    pub phase: u8,
    /// Command specific.
    pub cdw2: u32,
    pub cdw3: u32,
}

impl SpdkNvmeCpl {
    /// Check if the completion was successful: both the status code and
    /// its type are zero.
    pub fn is_success(&self) -> (b: bool)
        ensures
            b == (self.sc == 0 && self.sct == 0),
    {
        self.sc == 0 && self.sct == 0
    }

    /// The NVMe status: the status code type in the high byte, the status
    /// code in the low byte.
    pub fn status_code(&self) -> (s: u16)
        ensures
            s == self.sct * 256 + self.sc,
    {
        let sct = self.sct as u16;
        let sc = self.sc as u16;
        let s = (sct << 8u16) | sc;
        assert(s == sct * 256 + sc) by (bit_vector)
            requires
                sct < 256 && sc < 256 && s == (sct << 8u16) | sc,
        ;
        s
    }
}

impl Default for SpdkNvmeCpl {
    fn default() -> (c: Self)
        ensures
            c.cdw0 == 0 && c.sc == 0 && c.sc_bit == 0 && c.sct == 0 && c.phase == 0 && c.cdw2 == 0
                && c.cdw3 == 0,
    {
        SpdkNvmeCpl { cdw0: 0, sc: 0, sc_bit: 0, sct: 0, phase: 0, cdw2: 0, cdw3: 0 }
    }
}

/// SPDK environment options: an opaque buffer, large enough for every
/// supported SPDK version, that the driver's initialization fills in.
pub struct SpdkEnvOpts {
    _pad: [u8; 8192],
}

/// The message every SPDK entry point reports in this build.
pub open spec fn spdk_unavailable_text() -> Seq<char> {
    "SPDK support requires the `spdk` feature and an installed SPDK library"@
}

fn spdk_unavailable() -> (e: HwError)
    ensures
        e matches HwError::NotAvailable(m) && m@ == spdk_unavailable_text(),
{
    HwError::NotAvailable(
        String::from_str("SPDK support requires the `spdk` feature and an installed SPDK library"),
    )
}

/// Top-level SPDK entry point.
pub struct Spdk;

impl Spdk {
    /// Initialize the SPDK environment; without an SPDK driver this reports
    /// that SPDK is not available.
    pub fn init() -> (r: HwResult<()>)
        ensures
            r matches Err(HwError::NotAvailable(m)) && m@ == spdk_unavailable_text(),
    {
        Err(spdk_unavailable())
    }

    /// Finalize the SPDK environment (nothing to do without a driver).
    pub fn fini() {
    }

    /// Probe for NVMe controllers reachable through the transport string
    /// `trid` (such as `"trtype:PCIe traddr:0000:01:00.0"`); without an
    /// SPDK driver this reports that SPDK is not available.
    pub fn probe(trid: &str) -> (r: HwResult<Vec<Controller>>)
        ensures
            r matches Err(HwError::NotAvailable(m)) && m@ == spdk_unavailable_text(),
    {
        Err(spdk_unavailable())
    }
}

/// An attached NVMe controller, by the driver's handle.
pub struct Controller {
    ctrlr: usize,
}

impl Controller {
    /// The driver's handle of the controller.
    pub closed spec fn handle(&self) -> usize {
        self.ctrlr
    }

    /// The number of namespaces; not available in this build.
    pub fn num_namespaces(&self) -> (r: HwResult<u32>)
        ensures
            r matches Err(HwError::NotAvailable(m)) && m@ == spdk_unavailable_text(),
    {
        Err(spdk_unavailable())
    }

    /// Namespace `ns_id` (0 meaning the first); not available in this
    /// build.
    pub fn namespace(&self, ns_id: u32) -> (r: HwResult<NvmeNamespace>)
        ensures
            r matches Err(HwError::NotAvailable(m)) && m@ == spdk_unavailable_text(),
    {
        Err(spdk_unavailable())
    }

    /// The driver's handle of the controller.
    pub fn as_ptr(&self) -> (p: usize)
        ensures
            p == self.handle(),
    {
        self.ctrlr
    }

    /// Detach the controller; not available in this build.
    pub fn detach(self) -> (r: HwResult<()>)
        ensures
            r matches Err(HwError::NotAvailable(m)) && m@ == spdk_unavailable_text(),
    {
        Err(spdk_unavailable())
    }
}

/// An NVMe namespace of an attached controller: its identifier, block
/// size and number of blocks.
#[allow(dead_code)]
pub struct NvmeNamespace {
    ctrlr: usize,
    ns: usize,
    ns_id: u32,
    block_size: u32,
    total_blocks: u64,
}

impl NvmeNamespace {
    /// The namespace identifier.
    pub closed spec fn id(&self) -> u32 {
        self.ns_id
    }

    /// The block size in bytes.
    pub closed spec fn block_bytes(&self) -> u32 {
        self.block_size
    }

    /// The number of blocks.
    pub closed spec fn blocks(&self) -> u64 {
        self.total_blocks
    }

    /// Get the namespace identifier.
    pub fn ns_id(&self) -> (id: u32)
        ensures
            id == self.id(),
    {
        self.ns_id
    }

    /// Get the block size in bytes.
    pub fn block_size(&self) -> (n: u32)
        ensures
            n == self.block_bytes(),
    {
        self.block_size
    }

    /// Get the number of blocks.
    pub fn total_blocks(&self) -> (n: u64)
        ensures
            n == self.blocks(),
    {
        self.total_blocks
    }

    /// The namespace's size in bytes: blocks times block size.
    pub fn size_bytes(&self) -> (n: u64)
        requires
            self.blocks() * self.block_bytes() <= u64::MAX,
        ensures
            n == self.blocks() * self.block_bytes(),
    {
        self.total_blocks * self.block_size as u64
    }
}

/// NVMe opcode of a read.
pub const NVME_OPC_READ: u8 = 0x02;

/// NVMe opcode of a write.
pub const NVME_OPC_WRITE: u8 = 0x01;

/// NVMe opcode of a flush.
pub const NVME_OPC_FLUSH: u8 = 0x0C;

/// NVMe opcode of a dataset management (deallocate) command.
pub const NVME_OPC_DSM: u8 = 0x09;

/// Builder for SPDK NVMe commands.
#[derive(Clone, Copy, Debug)]
pub struct NvmeCmd {
    /// Opcode.
    pub opcode: u8,
    /// Flags.
    pub flags: u8,
    /// Namespace ID.
    pub ns_id: u32,
    /// CDW10 (LBA or command specific).
    pub cdw10: u32,
    /// CDW11.
    pub cdw11: u32,
    /// CDW12 (NLB or command specific).
    pub cdw12: u32,
    /// CDW13.
    pub cdw13: u32,
    /// CDW14 (PRP1 or SGL).
    pub cdw14: u64,
    /// CDW15 (PRP2).
    pub cdw15: u64,
}

/// The low 32 bits of a 64-bit value.
pub open spec fn low_dword(v: u64) -> u32 {
    (v % 0x1_0000_0000) as u32
}

/// The high 32 bits of a 64-bit value.
pub open spec fn high_dword(v: u64) -> u32 {
    (v / 0x1_0000_0000) as u32
}

fn split_dwords(v: u64) -> (r: (u32, u32))
    ensures
        r.0 == low_dword(v),
        r.1 == high_dword(v),
{
    let lo = (v & 0xFFFF_FFFF) as u32;
    let hi = ((v >> 32u64) & 0xFFFF_FFFF) as u32;
    assert((v & 0xFFFF_FFFF) == v % 0x1_0000_0000 && ((v >> 32u64) & 0xFFFF_FFFF) == v
        / 0x1_0000_0000) by (bit_vector);
    (lo, hi)
}

/// The two dwords a command carries for a logical block address rebuild
/// it exactly: the low one plus the high one times 2^32.
pub proof fn law_lba_dwords_rebuild(lba: u64)
    ensures
        low_dword(lba) + high_dword(lba) * 0x1_0000_0000 == lba,
{
}

/// A read or write of `num_blocks` blocks at `lba`: the LBA split over
/// CDW10/CDW11, the 0-based block count in CDW12, the PRPs in CDW14/CDW15.
pub open spec fn transfer_cmd(opcode: u8, lba: u64, num_blocks: u32, prp1: u64, prp2: u64, ns_id: u32) -> NvmeCmd {
    NvmeCmd {
        opcode,
        flags: 0,
        ns_id,
        cdw10: low_dword(lba),
        cdw11: high_dword(lba),
        cdw12: (num_blocks - 1) as u32,
        cdw13: 0,
        cdw14: prp1,
        cdw15: prp2,
    }
}

impl NvmeCmd {
    /// Create a new empty NVMe command.
    pub fn new() -> (c: Self)
        ensures
            c == (NvmeCmd {
                opcode: 0,
                flags: 0,
                ns_id: 0,
                cdw10: 0,
                cdw11: 0,
                cdw12: 0,
                cdw13: 0,
                cdw14: 0,
                cdw15: 0,
            }),
    {
        NvmeCmd {
            opcode: 0,
            flags: 0,
            ns_id: 0,
            cdw10: 0,
            cdw11: 0,
            cdw12: 0,
            cdw13: 0,
            cdw14: 0,
            cdw15: 0,
        }
    }

    /// Create a read command (the block count is 0-based in the command).
    pub fn read(lba: u64, num_blocks: u32, prp1: u64, prp2: u64, ns_id: u32) -> (c: Self)
        requires
            num_blocks >= 1,
        ensures
            c == transfer_cmd(NVME_OPC_READ, lba, num_blocks, prp1, prp2, ns_id),
    {
        let (lo, hi) = split_dwords(lba);
        NvmeCmd {
            opcode: NVME_OPC_READ,
            flags: 0,
            ns_id,
            cdw10: lo,
            cdw11: hi,
            cdw12: num_blocks - 1,
            cdw13: 0,
            cdw14: prp1,
            cdw15: prp2,
        }
    }

    /// Create a write command (the block count is 0-based in the command).
    pub fn write(lba: u64, num_blocks: u32, prp1: u64, prp2: u64, ns_id: u32) -> (c: Self)
        requires
            num_blocks >= 1,
        ensures
            c == transfer_cmd(NVME_OPC_WRITE, lba, num_blocks, prp1, prp2, ns_id),
    {
        let (lo, hi) = split_dwords(lba);
        NvmeCmd {
            opcode: NVME_OPC_WRITE,
            flags: 0,
            ns_id,
            cdw10: lo,
            cdw11: hi,
            cdw12: num_blocks - 1,
            cdw13: 0,
            cdw14: prp1,
            cdw15: prp2,
        }
    }

    /// Create a flush command.
    pub fn flush(ns_id: u32) -> (c: Self)
        ensures
            c == (NvmeCmd {
                opcode: NVME_OPC_FLUSH,
                flags: 0,
                ns_id,
                cdw10: 0,
                cdw11: 0,
                cdw12: 0,
                cdw13: 0,
                cdw14: 0,
                cdw15: 0,
            }),
    {
        NvmeCmd {
            opcode: NVME_OPC_FLUSH,
            flags: 0,
            ns_id,
            cdw10: 0,
            cdw11: 0,
            cdw12: 0,
            cdw13: 0,
            cdw14: 0,
            cdw15: 0,
        }
    }

    /// Create a dataset management (trim/deallocate) command: the 0-based
    /// block count in CDW10, the deallocate attribute in CDW11, the LBA
    /// split over CDW12/CDW13.
    pub fn deallocate(lba: u64, num_blocks: u32, ns_id: u32) -> (c: Self)
        requires
            num_blocks >= 1,
        ensures
            c == (NvmeCmd {
                opcode: NVME_OPC_DSM,
                flags: 0,
                ns_id,
                cdw10: (num_blocks - 1) as u32,
                cdw11: 1,
                cdw12: low_dword(lba),
                cdw13: high_dword(lba),
                cdw14: 0,
                cdw15: 0,
            }),
    {
        let (lo, hi) = split_dwords(lba);
        NvmeCmd {
            opcode: NVME_OPC_DSM,
            flags: 0,
            ns_id,
            cdw10: num_blocks - 1,
            cdw11: 0x01,
            cdw12: lo,
            cdw13: hi,
            cdw14: 0,
            cdw15: 0,
        }
    }
}

impl Default for NvmeCmd {
    fn default() -> (c: Self)
        ensures
            c == (NvmeCmd {
                opcode: 0,
                flags: 0,
                ns_id: 0,
                cdw10: 0,
                cdw11: 0,
                cdw12: 0,
                cdw13: 0,
                cdw14: 0,
                cdw15: 0,
            }),
    {
        Self::new()
    }
}

/// The free list after returning `buf` to a pool at `base` of `size`
/// bytes in buffers `stride` apart: the buffer's slot is pushed when `buf`
/// lies inside the region at a whole number of strides from the base, and
/// the list is unchanged otherwise.
pub open spec fn free_result(base: usize, size: usize, stride: usize, free: Seq<usize>, buf: usize) -> Seq<usize> {
    let offset = buf - base;
    if offset < size && stride > 0 && offset % (stride as int) == 0 {
        free.push((offset / (stride as int)) as usize)
    } else {
        free
    }
}

/// Freeing the address that an allocation handed out gives its slot back:
/// when the region holds every buffer, returning the buffer of the last
/// free slot to the list without it restores the list.
pub proof fn law_free_returns_allocated_buffer(
    base: usize,
    size: usize,
    stride: usize,
    count: usize,
    free: Seq<usize>,
)
    requires
        free.len() > 0,
        free.last() < count,
        stride > 0,
        count * stride <= size,
        base + count * stride <= usize::MAX,
    ensures
        free_result(base, size, stride, free.drop_last(), (base + free.last() * stride) as usize)
            == free,
{
    let i = free.last() as int;
    vstd::arithmetic::mul::lemma_mul_strict_inequality(i, count as int, stride as int);
    vstd::arithmetic::div_mod::lemma_mod_multiples_basic(i, stride as int);
    vstd::arithmetic::div_mod::lemma_div_multiples_vanish(i, stride as int);
    assert(i * stride == stride * i) by (nonlinear_arith);
    assert(free.drop_last().push(free.last()) =~= free);
}

/// A pool of DMA-capable buffers for SPDK operations: `count` buffers
/// `stride` bytes apart from `base`, handed out from a free list of slot
/// indices (last freed, first allocated).
pub struct DmaPool {
    base: usize,
    size: usize,
    stride: usize,
    count: usize,
    free_list: Vec<usize>,
}

impl DmaPool {
    /// The base address of the region.
    pub closed spec fn base_addr(&self) -> usize {
        self.base
    }

    /// The size of the region in bytes.
    pub closed spec fn region_size(&self) -> usize {
        self.size
    }

    /// The distance between buffers.
    pub closed spec fn stride_len(&self) -> usize {
        self.stride
    }

    /// The number of buffers.
    pub closed spec fn slot_count(&self) -> usize {
        self.count
    }

    /// The free slot indices; the last is allocated next.
    pub closed spec fn free_slots(&self) -> Seq<usize> {
        self.free_list@
    }

    /// Every slot's buffer address fits in the address space, and so does
    /// the address of every slot on the free list.
    pub open spec fn wf(&self) -> bool {
        &&& self.base_addr() + self.slot_count() * self.stride_len() <= usize::MAX
        &&& forall|k: int|
            0 <= k < self.free_slots().len() ==> self.base_addr() + #[trigger] self.free_slots()[k]
                * self.stride_len() <= usize::MAX
    }

    /// Create a new DMA buffer pool over `size` bytes at `base`, split into
    /// `count` buffers of `stride` bytes; every buffer starts free.
    pub fn new(base: usize, size: usize, stride: usize, count: usize) -> (p: Self)
        requires
            base + count * stride <= usize::MAX,
        ensures
            p.wf(),
            p.base_addr() == base,
            p.region_size() == size,
            p.stride_len() == stride,
            p.slot_count() == count,
            p.free_slots() == Seq::new(count as nat, |i: int| i as usize),
    {
        let mut free_list: Vec<usize> = Vec::with_capacity(count);
        let mut i: usize = 0;
        while i < count
            invariant
                i <= count,
                free_list@ == Seq::new(i as nat, |k: int| k as usize),
            decreases count - i,
        {
            free_list.push(i);
            i = i + 1;
            assert(free_list@ =~= Seq::new(i as nat, |k: int| k as usize));
        }
        assert forall|k: int| 0 <= k < free_list@.len() implies base + #[trigger] free_list@[k]
            * stride <= usize::MAX by {
            vstd::arithmetic::mul::lemma_mul_inequality(k, count as int, stride as int);
        }
        DmaPool { base, size, stride, count, free_list }
    }

    /// Allocate the most recently freed buffer, returning its address.
    pub fn allocate(&mut self) -> (r: Option<usize>)
        requires
            old(self).wf(),
        ensures
            final(self).wf(),
            final(self).base_addr() == old(self).base_addr(),
            final(self).region_size() == old(self).region_size(),
            final(self).stride_len() == old(self).stride_len(),
            final(self).slot_count() == old(self).slot_count(),
            old(self).free_slots().len() == 0 ==> r is None && final(self).free_slots() == old(
                self,
            ).free_slots(),
            old(self).free_slots().len() > 0 ==> r == Some(
                (old(self).base_addr() + old(self).free_slots().last() * old(self).stride_len())
                    as usize,
            ) && final(self).free_slots() == old(self).free_slots().drop_last(),
    {
        match self.free_list.pop() {
            Some(i) => {
                proof {
                    assert(old(self).free_list@[old(self).free_list@.len() - 1] == i);
                }
                Some(self.base + i * self.stride)
            },
            None => None,
        }
    }

    /// Return a buffer to the pool: an address inside the region at a
    /// whole number of strides from the base goes back on the free list;
    /// any other address is ignored.
    pub fn free(&mut self, buf: usize)
        requires
            old(self).wf(),
            buf >= old(self).base_addr(),
            old(self).stride_len() == 0 ==> buf - old(self).base_addr() >= old(self).region_size()
                || buf != old(self).base_addr(),
        ensures
            final(self).wf(),
            final(self).base_addr() == old(self).base_addr(),
            final(self).region_size() == old(self).region_size(),
            final(self).stride_len() == old(self).stride_len(),
            final(self).slot_count() == old(self).slot_count(),
            final(self).free_slots() == free_result(
                old(self).base_addr(),
                old(self).region_size(),
                old(self).stride_len(),
                old(self).free_slots(),
                buf,
            ),
    {
        let offset = buf - self.base;
        if offset < self.size && self.stride > 0 && offset % self.stride == 0 {
            let index = offset / self.stride;
            proof {
                vstd::arithmetic::div_mod::lemma_fundamental_div_mod(offset as int, self.stride as int);
                assert(index * self.stride == self.stride * index) by (nonlinear_arith);
                assert(index * self.stride == offset);
            }
            self.free_list.push(index);
            assert forall|k: int| 0 <= k < self.free_list@.len() implies self.base
                + #[trigger] self.free_list@[k] * self.stride <= usize::MAX by {
                if k < old(self).free_list@.len() {
                    assert(self.free_list@[k] == old(self).free_slots()[k]);
                } else {
                    assert(self.free_list@[k] == index);
                }
            }
        }
    }

    /// Number of available buffers.
    pub fn available(&self) -> (n: usize)
        ensures
            n == self.free_slots().len(),
    {
        self.free_list.len()
    }

    /// Total number of buffers.
    pub fn total(&self) -> (n: usize)
        ensures
            n == self.slot_count(),
    {
        self.count
    }
}

} // verus!
