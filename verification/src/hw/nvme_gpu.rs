//! GPU-Direct NVMe: reads from NVMe land in registered DMA pool buffers
//! through io_uring and are then copied to GPU memory by CUDA; writes go
//! the other way. The library decides each step (bounds, buffers,
//! transfer identifiers, the submission entries, what a completion means);
//! the embedding program opens the device, runs the ring and issues the
//! driver calls.
use crate::hw::dma_pool::{
    first_free_slot, lemma_first_free_slot, stats_after_alloc, stats_after_dealloc, BufferHandle,
    ZeroCopyDmaPool,
};
use crate::hw::gpu_direct::{
    driver_failure, driver_failure_error, invalid_param, AsyncCopy, CopyKind, GpuBuffer,
};
use crate::hw::{HwError, HwResult};
use crate::text::{decimal_chars, push_decimal, push_signed_decimal, signed_decimal_chars};
use std::collections::HashMap;
use vstd::prelude::*;

verus! {

broadcast use vstd::std_specs::hash::group_hash_axioms;

/// Opcode this driver uses for a fixed-buffer read.
pub const NVME_RING_OP_READ_FIXED: u8 = 28;

/// Opcode this driver uses for a fixed-buffer write.
pub const NVME_RING_OP_WRITE_FIXED: u8 = 29;

/// Submission flag: the descriptor is a registered (fixed) file.
pub const IOSQE_FIXED_FILE: u8 = 1;

/// Handle to an NVMe device opened for direct I/O.
pub struct NvmeDevice {
    fd: i32,
    name: String,
    ns_id: u32,
    block_size: u32,
    total_blocks: u64,
}

impl NvmeDevice {
    /// The open descriptor.
    pub closed spec fn descriptor(&self) -> i32 {
        self.fd
    }

    /// The device path.
    pub closed spec fn path(&self) -> Seq<char> {
        self.name@
    }

    /// The namespace.
    pub closed spec fn namespace(&self) -> u32 {
        self.ns_id
    }

    /// The block size in bytes.
    pub closed spec fn block_bytes(&self) -> u32 {
        self.block_size
    }

    /// The number of addressable blocks (0 until queried).
    pub closed spec fn blocks(&self) -> u64 {
        self.total_blocks
    }

    /// The device at `path`, opened as descriptor `fd`: 512-byte blocks,
    /// block count not yet queried.
    pub fn from_fd(fd: i32, path: &str, ns_id: u32) -> (d: Self)
        ensures
            d.descriptor() == fd,
            d.path() == path@,
            d.namespace() == ns_id,
            d.block_bytes() == 512,
            d.blocks() == 0,
    {
        NvmeDevice { fd, name: String::from_str(path), ns_id, block_size: 512, total_blocks: 0 }
    }

    /// The open descriptor.
    pub fn fd(&self) -> (fd: i32)
        ensures
            fd == self.descriptor(),
    {
        self.fd
    }

    /// The namespace.
    pub fn ns_id(&self) -> (n: u32)
        ensures
            n == self.namespace(),
    {
        self.ns_id
    }

    /// The block size in bytes.
    pub fn block_size(&self) -> (n: u32)
        ensures
            n == self.block_bytes(),
    {
        self.block_size
    }

    /// The device path.
    pub fn name(&self) -> (s: &str)
        ensures
            s@ == self.path(),
    {
        self.name.as_str()
    }

    /// Total number of addressable blocks (0 until queried from the device).
    pub fn total_blocks(&self) -> (n: u64)
        ensures
            n == self.blocks(),
    {
        self.total_blocks
    }
}

/// NVMe passthrough command: the 0-based block count in CDW12 and the
/// starting LBA split over CDW14 (low half) and CDW15 (high half).
pub struct NvmePassthroughCmd {
    /// NVMe opcode (`0x02` read, `0x01` write).
    pub opcode: u8,
    /// Namespace identifier.
    pub ns_id: u32,
    /// Command Dword 12 (NLB is 0-based: `num_blocks - 1`).
    pub cdw12: u32,
    /// Command Dword 14 (low 32 bits of the starting LBA).
    pub cdw14: u32,
    /// Command Dword 15 (high 32 bits of the starting LBA).
    pub cdw15: u32,
}

fn passthrough(opcode: u8, lba: u64, num_blocks: u32, ns_id: u32) -> (c: NvmePassthroughCmd)
    requires
        num_blocks >= 1,
    ensures
        c.opcode == opcode,
        c.ns_id == ns_id,
        c.cdw12 == num_blocks - 1,
        c.cdw14 == lba % 0x1_0000_0000,
        c.cdw15 == lba / 0x1_0000_0000,
{
    let lo = (lba & 0xFFFF_FFFF) as u32;
    let hi = (lba >> 32u64) as u32;
    assert((lba & 0xFFFF_FFFF) == lba % 0x1_0000_0000 && (lba >> 32u64) == lba / 0x1_0000_0000)
        by (bit_vector);
    NvmePassthroughCmd { opcode, ns_id, cdw12: num_blocks - 1, cdw14: lo, cdw15: hi }
}

impl NvmePassthroughCmd {
    /// Build a read command for `num_blocks` starting at `lba`.
    pub fn read(lba: u64, num_blocks: u32, ns_id: u32) -> (c: Self)
        requires
            num_blocks >= 1,
        ensures
            c.opcode == 0x02,
            c.ns_id == ns_id,
            c.cdw12 == num_blocks - 1,
            c.cdw14 == lba % 0x1_0000_0000,
            c.cdw15 == lba / 0x1_0000_0000,
    {
        passthrough(0x02, lba, num_blocks, ns_id)
    }

    /// Build a write command for `num_blocks` starting at `lba`.
    pub fn write(lba: u64, num_blocks: u32, ns_id: u32) -> (c: Self)
        requires
            num_blocks >= 1,
        ensures
            c.opcode == 0x01,
            c.ns_id == ns_id,
            c.cdw12 == num_blocks - 1,
            c.cdw14 == lba % 0x1_0000_0000,
            c.cdw15 == lba / 0x1_0000_0000,
    {
        passthrough(0x01, lba, num_blocks, ns_id)
    }
}

/// A 64-byte io_uring submission entry as this driver lays it out.
#[derive(Clone, Copy, Debug)]
pub struct IoUringSqe {
    pub opcode: u8,
    pub flags: u8,
    pub ioprio: u16,
    pub fd: i32,
    pub off_addr2: u64,
    pub addr_splice_off_in: u64,
    pub len: u32,
    pub op_flags: u32,
    pub user_data: u64,
    pub buf_group: u16,
    pub personality: u16,
    pub splice_fd_in: i32,
    pub addr3: u64,
    pub __pad2: u64,
}

/// An io_uring completion entry.
#[derive(Clone, Copy, Debug)]
pub struct IoUringCqe {
    pub user_data: u64,
    pub res: i32,
    pub flags: u32,
}

/// A transfer between NVMe and the GPU that is waiting for its NVMe
/// completion.
#[derive(Clone, Copy)]
pub struct PendingOp {
    /// The DMA pool slot carrying the data.
    pub pool_index: u32,
    /// The GPU buffer's device pointer.
    pub gpu_ptr: u64,
    /// Offset into the GPU buffer.
    pub gpu_offset: usize,
    /// Number of NVMe blocks.
    pub num_blocks: u32,
    /// Whether the transfer writes to NVMe.
    pub is_write: bool,
    /// Address of the DMA pool buffer.
    pub pool_buf_addr: u64,
    /// Block size in bytes.
    pub block_size: u32,
}

/// Tracks pending NVMe operations by transfer identifier; identifiers are
/// handed out in increasing order starting at 1.
pub struct CompletionTracker {
    pending: HashMap<u64, PendingOp>,
    next_id: u64,
}

impl CompletionTracker {
    /// The pending operations by identifier.
    pub closed spec fn pending_ops(&self) -> Map<u64, PendingOp> {
        self.pending@
    }

    /// The next identifier to hand out.
    pub closed spec fn upcoming(&self) -> u64 {
        self.next_id
    }

    /// An empty tracker whose first identifier is 1.
    pub fn new() -> (t: Self)
        ensures
            t.pending_ops() == Map::<u64, PendingOp>::empty(),
            t.upcoming() == 1,
    {
        CompletionTracker { pending: HashMap::new(), next_id: 1 }
    }

    /// Hand out the next identifier.
    pub fn next_id(&mut self) -> (id: u64)
        ensures
            id == old(self).upcoming(),
            final(self).upcoming() == old(self).upcoming().wrapping_add(1),
            final(self).pending_ops() == old(self).pending_ops(),
    {
        let id = self.next_id;
        self.next_id = self.next_id.wrapping_add(1);
        id
    }

    /// Track `op` under `id`.
    pub fn insert(&mut self, id: u64, op: PendingOp)
        ensures
            final(self).pending_ops() == old(self).pending_ops().insert(id, op),
            final(self).upcoming() == old(self).upcoming(),
    {
        self.pending.insert(id, op);
    }

    /// Stop tracking `id`, returning its operation if it was tracked.
    pub fn remove(&mut self, id: u64) -> (r: Option<PendingOp>)
        ensures
            old(self).pending_ops().contains_key(id) ==> r == Some(old(self).pending_ops()[id]),
            !old(self).pending_ops().contains_key(id) ==> r is None,
            final(self).pending_ops() == old(self).pending_ops().remove(id),
            final(self).upcoming() == old(self).upcoming(),
    {
        self.pending.remove(&id)
    }

    /// Number of pending operations.
    pub fn len(&self) -> (n: usize)
        ensures
            n == self.pending_ops().len(),
    {
        self.pending.len()
    }
}

/// What to do once a transfer's NVMe completion has been handled.
pub enum TransferCompletion {
    /// Copy the data that was read into the pool buffer to the GPU.
    CopyToGpu(AsyncCopy),
    /// Nothing more: a write reached the device.
    Done,
}

/// A write from GPU memory whose pool buffer is reserved: the data is to
/// be copied from the GPU into that buffer by [`StagedWrite::copy`] before
/// the buffer is written to the device.
pub struct StagedWrite {
    handle: BufferHandle,
    copy: AsyncCopy,
    gpu_ptr: u64,
    gpu_offset: usize,
    num_blocks: u32,
}

impl StagedWrite {
    /// The reserved pool buffer.
    pub closed spec fn buffer(&self) -> BufferHandle {
        self.handle
    }

    /// The copy from the GPU into the pool buffer.
    pub closed spec fn staging_copy(&self) -> AsyncCopy {
        self.copy
    }

    /// The GPU buffer's device pointer.
    pub closed spec fn source(&self) -> u64 {
        self.gpu_ptr
    }

    /// The offset into the GPU buffer.
    pub closed spec fn source_offset(&self) -> usize {
        self.gpu_offset
    }

    /// The number of blocks to write.
    pub closed spec fn blocks(&self) -> u32 {
        self.num_blocks
    }

    /// The copy from the GPU into the pool buffer, to issue on the stream.
    pub fn copy(&self) -> (c: AsyncCopy)
        ensures
            c == self.staging_copy(),
    {
        self.copy
    }
}

/// The size of each DMA pool buffer of a driver built with the defaults:
/// 64 KiB.
pub const DEFAULT_POOL_BUF_SIZE: usize = 65536;

/// The number of DMA pool buffers of a driver built with the defaults.
pub const DEFAULT_POOL_CAPACITY: usize = 64;

/// End-to-end GPU-Direct NVMe driver state: the device, the DMA pool, the
/// CUDA stream, the ring's descriptor and the pending transfers.
pub struct GpuDirectNvme {
    nvme: NvmeDevice,
    dma_pool: ZeroCopyDmaPool,
    stream: usize,
    fd: i32,
    tracker: CompletionTracker,
}

impl GpuDirectNvme {
    /// The device.
    pub closed spec fn device(&self) -> NvmeDevice {
        self.nvme
    }

    /// The DMA pool.
    pub closed spec fn buffers(&self) -> ZeroCopyDmaPool {
        self.dma_pool
    }

    /// The CUDA stream handle.
    pub closed spec fn stream_handle(&self) -> usize {
        self.stream
    }

    /// The pending transfers.
    pub closed spec fn transfers(&self) -> CompletionTracker {
        self.tracker
    }

    /// Every pending transfer holds a pool slot of its own: the slot is
    /// taken in the pool and no two pending transfers share it; the pool is
    /// well-formed and each slot's descriptor carries the slot's index.
    pub open spec fn wf(&self) -> bool {
        let ops = self.transfers().pending_ops();
        let pool = self.buffers();
        &&& pool.wf()
        &&& forall|i: int| 0 <= i < pool.slots().len() ==> #[trigger] pool.slots()[i].index == i
        &&& forall|id: u64|
            ops.contains_key(id) ==> (#[trigger] ops[id]).pool_index < pool.slots().len()
                && pool.taken_slots()[ops[id].pool_index as int]
        &&& forall|a: u64, b: u64|
            ops.contains_key(a) && ops.contains_key(b) && a != b ==> #[trigger] ops[a].pool_index
                != #[trigger] ops[b].pool_index
    }

    /// A driver over the opened parts, with no transfer pending.
    pub fn from_parts(nvme: NvmeDevice, dma_pool: ZeroCopyDmaPool, stream: usize, fd: i32) -> (g:
        Self)
        requires
            dma_pool.wf(),
            forall|i: int| 0 <= i < dma_pool.slots().len() ==> #[trigger] dma_pool.slots()[i].index == i,
        ensures
            g.wf(),
            g.device() == nvme,
            g.buffers() == dma_pool,
            g.stream_handle() == stream,
            g.transfers().pending_ops() == Map::<u64, PendingOp>::empty(),
            g.transfers().upcoming() == 1,
    {
        GpuDirectNvme { nvme, dma_pool, stream, fd, tracker: CompletionTracker::new() }
    }

    /// Start a read of `num_blocks` blocks at `lba` into `gpu_buf` at
    /// `gpu_offset`: `InvalidParam` when the data would overrun the GPU
    /// buffer, `QueueFull` when no pool buffer is free; otherwise a pool
    /// buffer is taken, the transfer is tracked under a fresh identifier,
    /// and the fixed-buffer read entry to submit is returned.
    pub fn read_to_gpu(&mut self, lba: u64, num_blocks: u32, gpu_buf: &GpuBuffer, gpu_offset: usize) -> (r:
        HwResult<IoUringSqe>)
        requires
            old(self).wf(),
            old(self).buffers().statistics().in_flight < u32::MAX,
            num_blocks * old(self).device().block_bytes() <= usize::MAX,
            gpu_offset + num_blocks * old(self).device().block_bytes() <= usize::MAX,
            lba * old(self).device().block_bytes() <= u64::MAX,
        ensures
            final(self).device() == old(self).device(),
            final(self).stream_handle() == old(self).stream_handle(),
            final(self).wf(),
            ({
                let size = num_blocks * old(self).device().block_bytes();
                if gpu_offset + size > gpu_buf.size {
                    &&& r is Err && invalid_param(r->Err_0, "GPU buffer overflow"@)
                    &&& final(self).buffers() == old(self).buffers()
                    &&& final(self).transfers() == old(self).transfers()
                } else {
                    match first_free_slot(old(self).buffers().taken_slots(), 0) {
                        None => {
                            &&& r matches Err(HwError::QueueFull)
                            &&& final(self).transfers() == old(self).transfers()
                            &&& final(self).buffers().taken_slots() == old(
                                self,
                            ).buffers().taken_slots()
                        },
                        Some(k) => {
                            let d = old(self).buffers().slots()[k];
                            let id = old(self).transfers().upcoming();
                            &&& final(self).buffers().taken_slots() == old(
                                self,
                            ).buffers().taken_slots().update(k, true)
                            &&& final(self).buffers().statistics() == stats_after_alloc(
                                old(self).buffers().statistics(),
                            )
                            &&& final(self).transfers().upcoming() == id.wrapping_add(1)
                            &&& final(self).transfers().pending_ops() == old(
                                self,
                            ).transfers().pending_ops().insert(
                                id,
                                PendingOp {
                                    pool_index: d.index,
                                    gpu_ptr: gpu_buf.dev_ptr,
                                    gpu_offset,
                                    num_blocks,
                                    is_write: false,
                                    pool_buf_addr: d.addr,
                                    block_size: old(self).device().block_bytes(),
                                },
                            )
                            &&& r matches Ok(sqe) && sqe == IoUringSqe {
                                opcode: NVME_RING_OP_READ_FIXED,
                                flags: IOSQE_FIXED_FILE,
                                ioprio: 0,
                                fd: old(self).device().descriptor(),
                                off_addr2: (lba * old(self).device().block_bytes()) as u64,
                                addr_splice_off_in: d.addr,
                                len: size as u32,
                                op_flags: 0,
                                user_data: id,
                                buf_group: d.index as u16,
                                personality: 0,
                                splice_fd_in: 0,
                                addr3: 0,
                                __pad2: 0,
                            }
                        },
                    }
                }
            }),
    {
        let block_size = self.nvme.block_size();
        let transfer_size = num_blocks as usize * block_size as usize;
        if !gpu_buf.can_fit(gpu_offset + transfer_size) {
            return Err(HwError::InvalidParam(String::from_str("GPU buffer overflow")));
        }
        proof {
            lemma_first_free_slot(self.dma_pool.taken_slots(), 0);
        }
        let pool_buf = match self.dma_pool.allocate() {
            Some(h) => h,
            None => return Err(HwError::QueueFull),
        };
        let id = self.tracker.next_id();
        self.tracker.insert(
            id,
            PendingOp {
                pool_index: pool_buf.index(),
                gpu_ptr: gpu_buf.dev_ptr,
                gpu_offset,
                num_blocks,
                is_write: false,
                pool_buf_addr: pool_buf.addr(),
                block_size,
            },
        );
        Ok(
            IoUringSqe {
                opcode: NVME_RING_OP_READ_FIXED,
                flags: IOSQE_FIXED_FILE,
                ioprio: 0,
                fd: self.nvme.fd(),
                off_addr2: lba * block_size as u64,
                addr_splice_off_in: pool_buf.addr(),
                len: #[verifier::truncate] (transfer_size as u32),
                op_flags: 0,
                user_data: id,
                buf_group: pool_buf.registered_index(),
                personality: 0,
                splice_fd_in: 0,
                addr3: 0,
                __pad2: 0,
            },
        )
    }

    /// Start a write of `num_blocks` blocks from `gpu_buf` at `gpu_offset`:
    /// `InvalidParam` when the data would overrun the GPU buffer,
    /// `QueueFull` when no pool buffer is free; otherwise the first free
    /// pool buffer is reserved and the device-to-host copy of the data into
    /// it is staged.
    pub fn stage_write_from_gpu(&mut self, gpu_buf: &GpuBuffer, gpu_offset: usize, num_blocks: u32) -> (r:
        HwResult<StagedWrite>)
        requires
            old(self).wf(),
            old(self).buffers().statistics().in_flight < u32::MAX,
            num_blocks * old(self).device().block_bytes() <= usize::MAX,
            gpu_offset + num_blocks * old(self).device().block_bytes() <= usize::MAX,
            gpu_buf.dev_ptr + gpu_offset <= u64::MAX,
        ensures
            final(self).device() == old(self).device(),
            final(self).stream_handle() == old(self).stream_handle(),
            final(self).transfers() == old(self).transfers(),
            final(self).wf(),
            final(self).buffers().slots() == old(self).buffers().slots(),
            ({
                let size = num_blocks * old(self).device().block_bytes();
                if gpu_offset + size > gpu_buf.size {
                    &&& r is Err && invalid_param(r->Err_0, "GPU buffer overflow"@)
                    &&& final(self).buffers() == old(self).buffers()
                } else {
                    match first_free_slot(old(self).buffers().taken_slots(), 0) {
                        None => {
                            &&& r matches Err(HwError::QueueFull)
                            &&& final(self).buffers().taken_slots() == old(
                                self,
                            ).buffers().taken_slots()
                            &&& final(self).buffers().statistics() == old(self).buffers().statistics()
                        },
                        Some(k) => {
                            let d = old(self).buffers().slots()[k];
                            &&& final(self).buffers().taken_slots() == old(
                                self,
                            ).buffers().taken_slots().update(k, true)
                            &&& final(self).buffers().statistics() == stats_after_alloc(
                                old(self).buffers().statistics(),
                            )
                            &&& !old(self).buffers().taken_slots()[k]
                            &&& r matches Ok(w)
                            &&& w.buffer().of_desc(d)
                            &&& w.buffer().slot() == k
                            &&& w.source() == gpu_buf.dev_ptr
                            &&& w.source_offset() == gpu_offset
                            &&& w.blocks() == num_blocks
                            &&& w.staging_copy() == (AsyncCopy {
                                kind: CopyKind::DeviceToHost,
                                src: (gpu_buf.dev_ptr + gpu_offset) as u64,
                                dst: d.addr,
                                len: size as usize,
                                stream: old(self).stream_handle(),
                            })
                        },
                    }
                }
            }),
    {
        let block_size = self.nvme.block_size();
        let transfer_size = num_blocks as usize * block_size as usize;
        if !gpu_buf.can_fit(gpu_offset + transfer_size) {
            return Err(HwError::InvalidParam(String::from_str("GPU buffer overflow")));
        }
        proof {
            lemma_first_free_slot(self.dma_pool.taken_slots(), 0);
        }
        let pool_buf = match self.dma_pool.allocate() {
            Some(h) => h,
            None => return Err(HwError::QueueFull),
        };
        proof {
            let k = first_free_slot(old(self).dma_pool.taken_slots(), 0)->0;
            let ops = old(self).transfers().pending_ops();
            assert(self.transfers() == old(self).transfers());
            assert forall|id: u64| ops.contains_key(id) implies (#[trigger] ops[id]).pool_index
                < self.buffers().slots().len() && self.buffers().taken_slots()[ops[id].pool_index as int] by {
                assert(old(self).buffers().taken_slots()[ops[id].pool_index as int]);
                assert(ops[id].pool_index != k);
            }
        }
        let copy = AsyncCopy {
            kind: CopyKind::DeviceToHost,
            src: gpu_buf.dev_ptr + gpu_offset as u64,
            dst: pool_buf.addr(),
            len: transfer_size,
            stream: self.stream,
        };
        Ok(StagedWrite { handle: pool_buf, copy, gpu_ptr: gpu_buf.dev_ptr, gpu_offset, num_blocks })
    }

    /// Finish a staged write once the driver answered `copied` to its copy
    /// from the GPU (`cuMemcpyDtoHAsync`): on failure the pool buffer goes
    /// back to the pool and the failure is reported against that call; on
    /// success the transfer is tracked under a fresh identifier and the
    /// fixed-buffer write entry to submit is returned.
    pub fn write_from_gpu(&mut self, staged: StagedWrite, lba: u64, copied: HwResult<()>) -> (r: HwResult<
        IoUringSqe,
    >)
        requires
            old(self).wf(),
            staged.buffer().slot() < old(self).buffers().slots().len(),
            old(self).buffers().taken_slots()[staged.buffer().slot() as int],
            forall|id: u64|
                old(self).transfers().pending_ops().contains_key(id) ==> #[trigger] old(
                    self,
                ).transfers().pending_ops()[id].pool_index != staged.buffer().slot(),
            lba * old(self).device().block_bytes() <= u64::MAX,
            staged.blocks() * old(self).device().block_bytes() <= usize::MAX,
        ensures
            final(self).device() == old(self).device(),
            final(self).stream_handle() == old(self).stream_handle(),
            final(self).wf(),
            final(self).buffers().slots() == old(self).buffers().slots(),
            copied is Err ==> {
                &&& r is Err && driver_failure(r->Err_0, "cuMemcpyDtoHAsync"@, copied->Err_0)
                &&& final(self).buffers().taken_slots() == old(self).buffers().taken_slots().update(
                    staged.buffer().slot() as int,
                    false,
                )
                &&& final(self).buffers().statistics() == stats_after_dealloc(
                    old(self).buffers().statistics(),
                )
                &&& final(self).transfers() == old(self).transfers()
            },
            copied is Ok ==> {
                let id = old(self).transfers().upcoming();
                let h = staged.buffer();
                let size = staged.blocks() * old(self).device().block_bytes();
                &&& final(self).buffers() == old(self).buffers()
                &&& final(self).transfers().upcoming() == id.wrapping_add(1)
                &&& final(self).transfers().pending_ops() == old(self).transfers().pending_ops().insert(
                    id,
                    PendingOp {
                        pool_index: h.slot(),
                        gpu_ptr: staged.source(),
                        gpu_offset: staged.source_offset(),
                        num_blocks: staged.blocks(),
                        is_write: true,
                        pool_buf_addr: h.address(),
                        block_size: old(self).device().block_bytes(),
                    },
                )
                &&& r == Ok::<IoUringSqe, HwError>(
                    IoUringSqe {
                        opcode: NVME_RING_OP_WRITE_FIXED,
                        flags: IOSQE_FIXED_FILE,
                        ioprio: 0,
                        fd: old(self).device().descriptor(),
                        off_addr2: (lba * old(self).device().block_bytes()) as u64,
                        addr_splice_off_in: h.address(),
                        len: size as u32,
                        op_flags: 0,
                        user_data: id,
                        buf_group: h.slot() as u16,
                        personality: 0,
                        splice_fd_in: 0,
                        addr3: 0,
                        __pad2: 0,
                    },
                )
            },
    {
        let StagedWrite { handle, copy: _, gpu_ptr, gpu_offset, num_blocks } = staged;
        if let Err(e) = copied {
            handle.free(&mut self.dma_pool);
            return Err(driver_failure_error("cuMemcpyDtoHAsync", &e));
        }
        let block_size = self.nvme.block_size();
        let transfer_size = num_blocks as usize * block_size as usize;
        let id = self.tracker.next_id();
        self.tracker.insert(
            id,
            PendingOp {
                pool_index: handle.index(),
                gpu_ptr,
                gpu_offset,
                num_blocks,
                is_write: true,
                pool_buf_addr: handle.addr(),
                block_size,
            },
        );
        Ok(
            IoUringSqe {
                opcode: NVME_RING_OP_WRITE_FIXED,
                flags: IOSQE_FIXED_FILE,
                ioprio: 0,
                fd: self.nvme.fd(),
                off_addr2: lba * block_size as u64,
                addr_splice_off_in: handle.addr(),
                len: #[verifier::truncate] (transfer_size as u32),
                op_flags: 0,
                user_data: id,
                buf_group: handle.registered_index(),
                personality: 0,
                splice_fd_in: 0,
                addr3: 0,
                __pad2: 0,
            },
        )
    }

    /// Handle the NVMe completion of transfer `user_data` with result
    /// `result`: an unknown identifier is an `InvalidParam` error; a failed
    /// I/O is reported with its errno; a finished read asks for the copy of
    /// the pool buffer to the GPU. The transfer stops being tracked and its
    /// pool buffer goes back to the pool.
    pub fn complete_transfer(&mut self, user_data: u64, result: i32) -> (r: HwResult<
        TransferCompletion,
    >)
        requires
            result != i32::MIN,
            old(self).wf(),
            ({
                let ops = old(self).transfers().pending_ops();
                ops.contains_key(user_data) && result >= 0 && !ops[user_data].is_write ==> {
                    &&& ops[user_data].num_blocks * ops[user_data].block_size <= usize::MAX
                    &&& ops[user_data].gpu_ptr + ops[user_data].gpu_offset <= u64::MAX
                }
            }),
        ensures
            final(self).device() == old(self).device(),
            final(self).stream_handle() == old(self).stream_handle(),
            final(self).wf(),
            final(self).buffers().slots() == old(self).buffers().slots(),
            final(self).buffers().geometry() == old(self).buffers().geometry(),
            final(self).buffers().registered_state() == old(self).buffers().registered_state(),
            !old(self).transfers().pending_ops().contains_key(user_data) ==> final(self).buffers()
                == old(self).buffers(),
            old(self).transfers().pending_ops().contains_key(user_data) ==> {
                let slot = old(self).transfers().pending_ops()[user_data].pool_index;
                &&& final(self).buffers().taken_slots() == old(self).buffers().taken_slots().update(
                    slot as int,
                    false,
                )
                &&& final(self).buffers().statistics() == stats_after_dealloc(
                    old(self).buffers().statistics(),
                )
            },
            final(self).transfers().pending_ops() == old(self).transfers().pending_ops().remove(
                user_data,
            ),
            final(self).transfers().upcoming() == old(self).transfers().upcoming(),
            !old(self).transfers().pending_ops().contains_key(user_data) ==> r is Err
                && invalid_param(r->Err_0, "unknown transfer ID: "@ + decimal_chars(user_data as nat)),
            old(self).transfers().pending_ops().contains_key(user_data) && result < 0 ==> r is Err
                && (r->Err_0 matches HwError::InitFailed(m) && m@ == "NVMe I/O failed: errno "@
                + signed_decimal_chars(-result)),
            old(self).transfers().pending_ops().contains_key(user_data) && result >= 0 ==> ({
                let op = old(self).transfers().pending_ops()[user_data];
                if op.is_write {
                    r matches Ok(TransferCompletion::Done)
                } else {
                    r == Ok::<TransferCompletion, HwError>(
                        TransferCompletion::CopyToGpu(
                            AsyncCopy {
                                kind: CopyKind::HostToDevice,
                                src: op.pool_buf_addr,
                                dst: (op.gpu_ptr + op.gpu_offset) as u64,
                                len: (op.num_blocks * op.block_size) as usize,
                                stream: old(self).stream_handle(),
                            },
                        ),
                    )
                }
            }),
    {
        let op = match self.tracker.remove(user_data) {
            Some(op) => op,
            None => {
                let mut m = String::from_str("unknown transfer ID: ");
                push_decimal(&mut m, user_data);
                return Err(HwError::InvalidParam(m));
            },
        };
        self.dma_pool.release(op.pool_index);
        if result < 0 {
            let mut m = String::from_str("NVMe I/O failed: errno ");
            push_signed_decimal(&mut m, -(result as i64));
            return Err(HwError::InitFailed(m));
        }
        if !op.is_write {
            let transfer_size = op.num_blocks as usize * op.block_size as usize;
            return Ok(
                TransferCompletion::CopyToGpu(
                    AsyncCopy {
                        kind: CopyKind::HostToDevice,
                        src: op.pool_buf_addr,
                        dst: op.gpu_ptr + op.gpu_offset as u64,
                        len: transfer_size,
                        stream: self.stream,
                    },
                ),
            );
        }
        Ok(TransferCompletion::Done)
    }

    /// Get a reference to the DMA pool.
    pub fn dma_pool(&self) -> (p: &ZeroCopyDmaPool)
        ensures
            *p == self.buffers(),
    {
        &self.dma_pool
    }

    /// Get a reference to the NVMe device.
    pub fn nvme(&self) -> (d: &NvmeDevice)
        ensures
            *d == self.device(),
    {
        &self.nvme
    }

    /// Get the CUDA stream handle.
    pub fn stream(&self) -> (s: usize)
        ensures
            s == self.stream_handle(),
    {
        self.stream
    }

    /// Get the number of pending operations.
    pub fn pending_count(&self) -> (n: usize)
        ensures
            n == self.transfers().pending_ops().len(),
    {
        self.tracker.len()
    }
}

} // verus!
