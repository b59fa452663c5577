//! GPU-Direct orchestration of DMA transfers between NVMe and GPU memory.
//!
//! A transfer is decided here and carried out by the CUDA driver: the
//! orchestrator checks the buffer bounds, picks the first DMA engine (CUDA
//! stream) with room and computes the device addresses; once the embedding
//! program has issued the asynchronous copy, the engine counts it.
use crate::hw::{hw_error_text, HwError, HwResult};
use vstd::prelude::*;

verus! {

/// Direction of a DMA transfer.
#[derive(Clone, Copy, PartialEq, Eq, Structural, Debug)]
pub enum TransferDirection {
    /// NVMe → GPU VRAM (storage read into GPU memory).
    NvmeToGpu,
    /// GPU VRAM → NVMe (GPU memory written to storage).
    GpuToNvme,
    /// GPU VRAM → GPU VRAM (device-to-device transfer).
    GpuToGpu,
}

/// How a transfer direction is displayed.
pub open spec fn direction_text(d: TransferDirection) -> Seq<char> {
    match d {
        TransferDirection::NvmeToGpu => "NVMe → GPU"@,
        TransferDirection::GpuToNvme => "GPU → NVMe"@,
        TransferDirection::GpuToGpu => "GPU → GPU"@,
    }
}

impl TransferDirection {
    /// The display form: source, an arrow, destination.
    pub fn display_string(&self) -> (s: String)
        ensures
            s@ == direction_text(*self),
    {
        match self {
            TransferDirection::NvmeToGpu => String::from_str("NVMe → GPU"),
            TransferDirection::GpuToNvme => String::from_str("GPU → NVMe"),
            TransferDirection::GpuToGpu => String::from_str("GPU → GPU"),
        }
    }
}

/// A DMA scatter-gather entry.
#[derive(Clone, Copy, Debug)]
pub struct DmaEntry {
    /// Source physical address.
    pub src: u64,
    /// Destination physical address.
    pub dst: u64,
    /// Transfer length in bytes.
    pub len: u32,
    /// Flags (e.g., end-of-transfer).
    pub flags: u32,
}

/// DMA transfer error codes.
#[derive(Clone, Copy, PartialEq, Eq, Structural, Debug)]
pub enum DmaError {
    /// Invalid source address.
    InvalidSource,
    /// Invalid destination address.
    InvalidDestination,
    /// Transfer size exceeds maximum.
    SizeExceeded,
    /// DMA engine is busy.
    EngineBusy,
    /// GPU device not available.
    GpuNotAvailable,
    /// NVMe device not available.
    NvmeNotAvailable,
    /// Permission denied.
    PermissionDenied,
    /// I/O error.
    IoError,
}

/// The description of a DMA error.
pub open spec fn dma_error_text(e: DmaError) -> Seq<char> {
    match e {
        DmaError::InvalidSource => "invalid source address"@,
        DmaError::InvalidDestination => "invalid destination address"@,
        DmaError::SizeExceeded => "transfer size exceeds maximum"@,
        DmaError::EngineBusy => "DMA engine is busy"@,
        DmaError::GpuNotAvailable => "GPU device not available"@,
        DmaError::NvmeNotAvailable => "NVMe device not available"@,
        DmaError::PermissionDenied => "permission denied"@,
        DmaError::IoError => "I/O error"@,
    }
}

impl DmaError {
    /// The description of this error.
    pub fn display_string(&self) -> (s: String)
        ensures
            s@ == dma_error_text(*self),
    {
        let t = match self {
            DmaError::InvalidSource => "invalid source address",
            DmaError::InvalidDestination => "invalid destination address",
            DmaError::SizeExceeded => "transfer size exceeds maximum",
            DmaError::EngineBusy => "DMA engine is busy",
            DmaError::GpuNotAvailable => "GPU device not available",
            DmaError::NvmeNotAvailable => "NVMe device not available",
            DmaError::PermissionDenied => "permission denied",
            DmaError::IoError => "I/O error",
        };
        String::from_str(t)
    }
}

/// DMA transfer completion status.
#[derive(Clone, Copy, Debug)]
pub enum DmaStatus {
    /// Transfer completed successfully.
    Completed,
    /// Transfer is in progress.
    InProgress,
    /// Transfer failed.
    Failed(DmaError),
    /// Transfer was cancelled.
    Cancelled,
}

/// Handle to a GPU memory region.
pub struct GpuBuffer {
    /// GPU device ID.
    pub device_id: i32,
    /// CUDA device pointer.
    pub dev_ptr: u64,
    /// Host-side address (if pinned).
    pub host_ptr: Option<usize>,
    /// Buffer size in bytes.
    pub size: usize,
    /// Whether the buffer is pinned (page-locked).
    pub pinned: bool,
}

/// `InvalidParam` with the given message.
pub open spec fn invalid_param(r: HwError, text: Seq<char>) -> bool {
    r matches HwError::InvalidParam(m) && m@ == text
}

fn invalid_param_error(text: &str) -> (e: HwError)
    ensures
        invalid_param(e, text@),
{
    HwError::InvalidParam(String::from_str(text))
}

impl GpuBuffer {
    /// Create a descriptor from an existing device pointer.
    pub fn from_raw(device_id: i32, dev_ptr: u64, size: usize) -> (b: Self)
        ensures
            b.device_id == device_id,
            b.dev_ptr == dev_ptr,
            b.size == size,
            b.host_ptr is None,
            !b.pinned,
    {
        GpuBuffer { device_id, dev_ptr, host_ptr: None, size, pinned: false }
    }

    /// Check if this buffer can hold the given transfer size.
    pub fn can_fit(&self, size: usize) -> (b: bool)
        ensures
            b == (size <= self.size),
    {
        size <= self.size
    }

    /// Allocate device memory for a buffer of `size` bytes on `device_id`,
    /// given the driver's answers in the order the calls are made:
    /// `initialized` from initialising the driver, then `allocated` from
    /// `cuMemAlloc` (asked only once the driver is up). A failure is
    /// reported against the call that failed.
    pub fn allocate(device_id: i32, size: usize, initialized: HwResult<()>, allocated: HwResult<u64>) -> (r:
        HwResult<Self>)
        ensures
            initialized is Err ==> r is Err && driver_failure(r->Err_0, "CUDA init"@, initialized->Err_0),
            initialized is Ok && allocated is Err ==> r is Err && driver_failure(
                r->Err_0,
                "cuMemAlloc"@,
                allocated->Err_0,
            ),
            initialized is Ok && allocated is Ok ==> r == Ok::<GpuBuffer, HwError>(
                (GpuBuffer {
                    device_id,
                    dev_ptr: allocated->Ok_0,
                    host_ptr: None,
                    size,
                    pinned: false,
                }),
            ),
    {
        if let Err(e) = initialized {
            return Err(driver_failure_error("CUDA init", &e));
        }
        match allocated {
            Err(e) => Err(driver_failure_error("cuMemAlloc", &e)),
            Ok(dev_ptr) => Ok(GpuBuffer { device_id, dev_ptr, host_ptr: None, size, pinned: false }),
        }
    }

    /// Allocate device memory and pinned (page-locked) host memory of
    /// `size` bytes each, given the driver's answers in call order:
    /// `initialized`, then `allocated` from `cuMemAlloc`, then `host` from
    /// `cuMemHostAlloc`. A failure is reported against the call that failed.
    pub fn alloc_pinned(
        device_id: i32,
        size: usize,
        initialized: HwResult<()>,
        allocated: HwResult<u64>,
        host: HwResult<usize>,
    ) -> (r: HwResult<Self>)
        ensures
            initialized is Err ==> r is Err && driver_failure(r->Err_0, "CUDA init"@, initialized->Err_0),
            initialized is Ok && allocated is Err ==> r is Err && driver_failure(
                r->Err_0,
                "cuMemAlloc"@,
                allocated->Err_0,
            ),
            initialized is Ok && allocated is Ok && host is Err ==> r is Err && driver_failure(
                r->Err_0,
                "cuMemHostAlloc"@,
                host->Err_0,
            ),
            initialized is Ok && allocated is Ok && host is Ok ==> r == Ok::<GpuBuffer, HwError>(
                (GpuBuffer {
                    device_id,
                    dev_ptr: allocated->Ok_0,
                    host_ptr: Some(host->Ok_0),
                    size,
                    pinned: true,
                }),
            ),
    {
        if let Err(e) = initialized {
            return Err(driver_failure_error("CUDA init", &e));
        }
        let dev_ptr = match allocated {
            Err(e) => return Err(driver_failure_error("cuMemAlloc", &e)),
            Ok(p) => p,
        };
        match host {
            Err(e) => Err(driver_failure_error("cuMemHostAlloc", &e)),
            Ok(h) => Ok(GpuBuffer { device_id, dev_ptr, host_ptr: Some(h), size, pinned: true }),
        }
    }

    /// Copy `size` bytes from the host into this buffer, where `copied` is
    /// the driver's answer to `cuMemcpyHtoD`, which is asked only when the
    /// copy fits ([`GpuBuffer::can_fit`]): a copy that would overrun the
    /// buffer is refused first.
    pub fn copy_from_host(&self, size: usize, copied: HwResult<()>) -> (r: HwResult<()>)
        ensures
            size > self.size ==> r is Err && invalid_param(r->Err_0, "transfer exceeds buffer size"@),
            size <= self.size && copied is Ok ==> r is Ok,
            size <= self.size && copied is Err ==> r is Err && driver_failure(
                r->Err_0,
                "cuMemcpyHtoD"@,
                copied->Err_0,
            ),
    {
        self.copy_outcome(size, "cuMemcpyHtoD", copied)
    }

    /// Copy `size` bytes of this buffer to the host, where `copied` is the
    /// driver's answer to `cuMemcpyDtoH`, which is asked only when the copy
    /// fits ([`GpuBuffer::can_fit`]): a copy that would overrun the buffer
    /// is refused first.
    pub fn copy_to_host(&self, size: usize, copied: HwResult<()>) -> (r: HwResult<()>)
        ensures
            size > self.size ==> r is Err && invalid_param(r->Err_0, "transfer exceeds buffer size"@),
            size <= self.size && copied is Ok ==> r is Ok,
            size <= self.size && copied is Err ==> r is Err && driver_failure(
                r->Err_0,
                "cuMemcpyDtoH"@,
                copied->Err_0,
            ),
    {
        self.copy_outcome(size, "cuMemcpyDtoH", copied)
    }

    fn copy_outcome(&self, size: usize, call: &str, copied: HwResult<()>) -> (r: HwResult<()>)
        ensures
            size > self.size ==> r is Err && invalid_param(r->Err_0, "transfer exceeds buffer size"@),
            size <= self.size && copied is Ok ==> r is Ok,
            size <= self.size && copied is Err ==> r is Err && driver_failure(r->Err_0, call@, copied->Err_0),
    {
        if size > self.size {
            return Err(invalid_param_error("transfer exceeds buffer size"));
        }
        match copied {
            Err(e) => Err(driver_failure_error(call, &e)),
            Ok(()) => Ok(()),
        }
    }
}

/// The kind of an asynchronous copy.
#[derive(Clone, Copy, PartialEq, Eq, Structural, Debug)]
pub enum CopyKind {
    /// Device to device (`cuMemcpyDtoDAsync`).
    DeviceToDevice,
    /// Host to device (`cuMemcpyHtoDAsync`).
    HostToDevice,
    /// Device to host (`cuMemcpyDtoHAsync`).
    DeviceToHost,
}

/// The driver call that carries out a copy of each kind.
pub open spec fn copy_call(kind: CopyKind) -> Seq<char> {
    match kind {
        CopyKind::DeviceToDevice => "cuMemcpyDtoDAsync"@,
        CopyKind::HostToDevice => "cuMemcpyHtoDAsync"@,
        CopyKind::DeviceToHost => "cuMemcpyDtoHAsync"@,
    }
}

fn copy_call_name(kind: CopyKind) -> (s: &'static str)
    ensures
        s@ == copy_call(kind),
{
    match kind {
        CopyKind::DeviceToDevice => "cuMemcpyDtoDAsync",
        CopyKind::HostToDevice => "cuMemcpyHtoDAsync",
        CopyKind::DeviceToHost => "cuMemcpyDtoHAsync",
    }
}

/// An asynchronous copy to issue on a stream: `len` bytes from `src` to
/// `dst` (device pointers or host addresses, by kind).
#[derive(Clone, Copy)]
pub struct AsyncCopy {
    pub kind: CopyKind,
    pub src: u64,
    pub dst: u64,
    pub len: usize,
    pub stream: usize,
}

/// The error reported when the driver call `call` failed with `cause`:
/// `InitFailed` with `<call>: <cause>`.
pub open spec fn driver_failure(r: HwError, call: Seq<char>, cause: HwError) -> bool {
    r matches HwError::InitFailed(m) && m@ == call + ": "@ + hw_error_text(&cause)
}

pub(crate) fn driver_failure_error(call: &str, cause: &HwError) -> (e: HwError)
    ensures
        driver_failure(e, call@, *cause),
{
    let mut m = String::from_str(call);
    m.append(": ");
    let t = cause.display_string();
    m.append(t.as_str());
    HwError::InitFailed(m)
}

/// Handle to a CUDA stream used as a DMA transfer engine, with a cap on
/// the transfers it carries at once.
pub struct DmaEngine {
    engine_id: u32,
    stream: usize,
    max_transfers: usize,
    active_transfers: usize,
}

impl DmaEngine {
    /// The engine's identifier.
    pub closed spec fn id(&self) -> u32 {
        self.engine_id
    }

    /// The engine's stream handle.
    pub closed spec fn stream_handle(&self) -> usize {
        self.stream
    }

    /// The cap on transfers carried at once.
    pub closed spec fn limit(&self) -> usize {
        self.max_transfers
    }

    /// The transfers issued and not yet synchronized.
    pub closed spec fn active(&self) -> usize {
        self.active_transfers
    }

    /// Whether another transfer may be issued.
    pub open spec fn free(&self) -> bool {
        self.active() < self.limit()
    }

    /// An engine on the created stream `stream`, carrying no transfers.
    pub fn from_stream(engine_id: u32, stream: usize, max_transfers: usize) -> (e: Self)
        ensures
            e.id() == engine_id,
            e.stream_handle() == stream,
            e.limit() == max_transfers,
            e.active() == 0,
    {
        DmaEngine { engine_id, stream, max_transfers, active_transfers: 0 }
    }

    /// A new engine, where `created` is the driver's answer to creating its
    /// stream (`cuStreamCreate`): a failure is reported against that call.
    pub fn new(engine_id: u32, max_transfers: usize, created: HwResult<usize>) -> (r: HwResult<Self>)
        ensures
            created is Err ==> r is Err && driver_failure(r->Err_0, "cuStreamCreate"@, created->Err_0),
            created is Ok ==> (r matches Ok(e) && e.id() == engine_id && e.stream_handle()
                == created->Ok_0 && e.limit() == max_transfers && e.active() == 0),
    {
        match created {
            Err(e) => Err(driver_failure_error("cuStreamCreate", &e)),
            Ok(stream) => Ok(DmaEngine::from_stream(engine_id, stream, max_transfers)),
        }
    }

    /// Get the engine ID.
    pub fn engine_id(&self) -> (id: u32)
        ensures
            id == self.id(),
    {
        self.engine_id
    }

    /// Get the stream handle.
    pub fn stream(&self) -> (s: usize)
        ensures
            s == self.stream_handle(),
    {
        self.stream
    }

    /// Check if the engine can accept more transfers.
    pub fn has_capacity(&self) -> (b: bool)
        ensures
            b == self.free(),
    {
        self.active_transfers < self.max_transfers
    }

    /// Number of active transfers.
    pub fn active_count(&self) -> (n: usize)
        ensures
            n == self.active(),
    {
        self.active_transfers
    }

    fn plan(&self, kind: CopyKind, src: u64, dst: u64, len: usize) -> (r: HwResult<AsyncCopy>)
        ensures
            !self.free() ==> r matches Err(HwError::QueueFull),
            self.free() ==> r == Ok::<AsyncCopy, HwError>(
                AsyncCopy { kind, src, dst, len, stream: self.stream_handle() },
            ),
    {
        if !self.has_capacity() {
            return Err(HwError::QueueFull);
        }
        Ok(AsyncCopy { kind, src, dst, len, stream: self.stream })
    }

    /// The device-to-device copy to issue on this engine, or `QueueFull`
    /// when the engine carries its maximum.
    pub fn submit_d2d(&self, src: u64, dst: u64, len: usize) -> (r: HwResult<AsyncCopy>)
        ensures
            !self.free() ==> r matches Err(HwError::QueueFull),
            self.free() ==> r == Ok::<AsyncCopy, HwError>(
                AsyncCopy {
                    kind: CopyKind::DeviceToDevice,
                    src,
                    dst,
                    len,
                    stream: self.stream_handle(),
                },
            ),
    {
        self.plan(CopyKind::DeviceToDevice, src, dst, len)
    }

    /// The host-to-device copy to issue on this engine, or `QueueFull`.
    pub fn submit_h2d(&self, dst: u64, src: usize, len: usize) -> (r: HwResult<AsyncCopy>)
        ensures
            !self.free() ==> r matches Err(HwError::QueueFull),
            self.free() ==> r == Ok::<AsyncCopy, HwError>(
                AsyncCopy {
                    kind: CopyKind::HostToDevice,
                    src: src as u64,
                    dst,
                    len,
                    stream: self.stream_handle(),
                },
            ),
    {
        self.plan(CopyKind::HostToDevice, src as u64, dst, len)
    }

    /// The device-to-host copy to issue on this engine, or `QueueFull`.
    pub fn submit_d2h(&self, dst: usize, src: u64, len: usize) -> (r: HwResult<AsyncCopy>)
        ensures
            !self.free() ==> r matches Err(HwError::QueueFull),
            self.free() ==> r == Ok::<AsyncCopy, HwError>(
                AsyncCopy {
                    kind: CopyKind::DeviceToHost,
                    src,
                    dst: dst as u64,
                    len,
                    stream: self.stream_handle(),
                },
            ),
    {
        self.plan(CopyKind::DeviceToHost, src, dst as u64, len)
    }

    /// Record the driver's answer to issuing `copy`: on success the engine
    /// carries one more transfer and its new count is the transfer's
    /// number; on failure nothing changes and the failure is reported
    /// against the driver call.
    pub fn issued(&mut self, kind: CopyKind, outcome: HwResult<()>) -> (r: HwResult<u64>)
        requires
            old(self).free(),
        ensures
            final(self).id() == old(self).id(),
            final(self).stream_handle() == old(self).stream_handle(),
            final(self).limit() == old(self).limit(),
            outcome is Ok ==> final(self).active() == old(self).active() + 1 && r == Ok::<
                u64,
                HwError,
            >(final(self).active() as u64),
            outcome is Err ==> final(self).active() == old(self).active() && r is Err
                && driver_failure(r->Err_0, copy_call(kind), outcome->Err_0),
    {
        match outcome {
            Err(e) => Err(driver_failure_error(copy_call_name(kind), &e)),
            Ok(()) => {
                self.active_transfers = self.active_transfers + 1;
                Ok(self.active_transfers as u64)
            },
        }
    }

    /// The outcome of synchronizing the engine's stream (waiting for all its
    /// transfers to complete), where `synchronized` is the driver's answer
    /// to `cuStreamSynchronize`: a failure is reported against that call.
    pub fn synchronize(&self, synchronized: HwResult<()>) -> (r: HwResult<()>)
        ensures
            synchronized is Ok ==> r is Ok,
            synchronized is Err ==> r is Err && driver_failure(
                r->Err_0,
                "cuStreamSynchronize"@,
                synchronized->Err_0,
            ),
    {
        match synchronized {
            Err(e) => Err(driver_failure_error("cuStreamSynchronize", &e)),
            Ok(()) => Ok(()),
        }
    }

    /// Cancel pending transfers once the stream has been synchronized:
    /// on success no transfer is active any more.
    pub fn cancel_all(&mut self, synchronized: HwResult<()>) -> (r: HwResult<()>)
        ensures
            final(self).id() == old(self).id(),
            final(self).stream_handle() == old(self).stream_handle(),
            final(self).limit() == old(self).limit(),
            synchronized is Ok ==> final(self).active() == 0 && r is Ok,
            synchronized is Err ==> final(self).active() == old(self).active() && r is Err
                && driver_failure(r->Err_0, "cuStreamSynchronize"@, synchronized->Err_0),
    {
        let r = self.synchronize(synchronized);
        if r.is_ok() {
            self.active_transfers = 0;
        }
        r
    }
}

/// The position of the first failed answer at or after `i`, if any.
pub open spec fn first_failure<T>(answers: Seq<HwResult<T>>, i: int) -> Option<int>
    decreases answers.len() - i,
{
    if i < 0 || i >= answers.len() {
        None
    } else if answers[i] is Err {
        Some(i)
    } else {
        first_failure(answers, i + 1)
    }
}

/// The position of the first engine at or after `i` that may take another
/// transfer, if any.
pub open spec fn first_free_engine(engines: Seq<DmaEngine>, i: int) -> Option<int>
    decreases engines.len() - i,
{
    if i < 0 || i >= engines.len() {
        None
    } else if engines[i].free() {
        Some(i)
    } else {
        first_free_engine(engines, i + 1)
    }
}

proof fn lemma_first_free_engine(engines: Seq<DmaEngine>, i: int)
    requires
        0 <= i,
    ensures
        first_free_engine(engines, i) matches Some(k) ==> i <= k < engines.len() && engines[k].free(),
    decreases engines.len() - i,
{
    if i < engines.len() && !engines[i].free() {
        lemma_first_free_engine(engines, i + 1);
    }
}

/// The sum of the active transfers of the first `n` engines.
pub open spec fn active_total(engines: Seq<DmaEngine>, n: int) -> int
    decreases n,
{
    if n <= 0 {
        0
    } else {
        active_total(engines, n - 1) + engines[n - 1].active()
    }
}

proof fn lemma_active_total_monotone(engines: Seq<DmaEngine>, j: int, k: int)
    requires
        0 <= j <= k <= engines.len(),
    ensures
        active_total(engines, j) <= active_total(engines, k),
    decreases k - j,
{
    if j < k {
        lemma_active_total_monotone(engines, j, k - 1);
    }
}

/// A transfer decided by the orchestrator: the engine to issue it on and
/// the copy itself.
#[derive(Clone, Copy)]
pub struct DmaTransfer {
    /// Position of the engine among the orchestrator's engines.
    pub engine: usize,
    /// The copy to issue.
    pub copy: AsyncCopy,
}

/// GPU-Direct transfer statistics.
#[derive(Clone, Copy, Debug)]
pub struct GpuDirectStats {
    /// Number of DMA engines.
    pub total_engines: usize,
    /// Number of active transfers across all engines.
    pub active_transfers: usize,
}

impl Default for GpuDirectStats {
    fn default() -> (s: Self)
        ensures
            s.total_engines == 0,
            s.active_transfers == 0,
    {
        GpuDirectStats { total_engines: 0, active_transfers: 0 }
    }
}

/// The bytes per NVMe sector, by which a logical block address becomes a
/// byte offset.
pub const NVME_SECTOR_BYTES: u64 = 512;

/// High-level orchestrator for GPU-Direct DMA transfers over several DMA
/// engines.
pub struct GpuDirect {
    device_id: i32,
    engines: Vec<DmaEngine>,
}

impl GpuDirect {
    /// The GPU device.
    pub closed spec fn device(&self) -> i32 {
        self.device_id
    }

    /// The DMA engines, in order.
    pub closed spec fn engine_list(&self) -> Seq<DmaEngine> {
        self.engines@
    }

    /// An orchestrator over one engine per created stream: engine `i` runs
    /// on `streams[i]` and carries at most 64 transfers at once.
    pub fn with_streams(device_id: i32, streams: &Vec<usize>) -> (g: Self)
        requires
            streams@.len() <= u32::MAX + 1,
        ensures
            g.device() == device_id,
            g.engine_list().len() == streams@.len(),
            forall|i: int|
                0 <= i < streams@.len() ==> {
                    let e = #[trigger] g.engine_list()[i];
                    &&& e.id() == i
                    &&& e.stream_handle() == streams@[i]
                    &&& e.limit() == 64
                    &&& e.active() == 0
                },
    {
        let mut engines: Vec<DmaEngine> = Vec::with_capacity(streams.len());
        let mut i: usize = 0;
        while i < streams.len()
            invariant
                i <= streams@.len(),
                streams@.len() <= u32::MAX + 1,
                engines@.len() == i,
                forall|k: int|
                    0 <= k < i ==> {
                        let e = #[trigger] engines@[k];
                        &&& e.id() == k
                        &&& e.stream_handle() == streams@[k]
                        &&& e.limit() == 64
                        &&& e.active() == 0
                    },
            decreases streams.len() - i,
        {
            engines.push(DmaEngine::from_stream(i as u32, streams[i], 64));
            i = i + 1;
        }
        GpuDirect { device_id, engines }
    }

    /// A new orchestrator with `num_engines` engines on device `device_id`,
    /// given the driver's answers in the order the calls are made:
    /// `initialized` from initialising the driver, `device` from
    /// `cuDeviceGet`, `context` from `cuCtxCreate` (a null context is a
    /// failure too), then `streams`, the answers to creating each engine's
    /// stream up to and including the first failure. A failure is reported
    /// against the call that failed; otherwise engine `i` runs on the `i`-th
    /// stream and carries at most 64 transfers at once.
    pub fn new(
        device_id: i32,
        num_engines: usize,
        initialized: HwResult<()>,
        device: HwResult<i32>,
        context: HwResult<usize>,
        streams: &Vec<HwResult<usize>>,
    ) -> (r: HwResult<Self>)
        requires
            num_engines <= u32::MAX + 1,
            initialized is Ok && device is Ok && context is Ok && context->Ok_0 != 0 ==> {
                &&& streams@.len() <= num_engines
                &&& streams@.len() < num_engines ==> first_failure(streams@, 0) == Some(
                    streams@.len() - 1,
                )
            },
        ensures
            initialized is Err ==> r is Err && driver_failure(
                r->Err_0,
                "CUDA init failed"@,
                initialized->Err_0,
            ),
            initialized is Ok && device is Err ==> r is Err && driver_failure(
                r->Err_0,
                "cuDeviceGet"@,
                device->Err_0,
            ),
            initialized is Ok && device is Ok && context is Err ==> r is Err && driver_failure(
                r->Err_0,
                "cuCtxCreate"@,
                context->Err_0,
            ),
            initialized is Ok && device is Ok && context == Ok::<usize, HwError>(0usize) ==> (r matches Err(
                HwError::InitFailed(m),
            ) && m@ == "cuCtxCreate returned null"@),
            initialized is Ok && device is Ok && context is Ok && context->Ok_0 != 0 ==> match first_failure(
                streams@,
                0,
            ) {
                Some(k) => r is Err && driver_failure(r->Err_0, "cuStreamCreate"@, streams@[k]->Err_0),
                None => (r matches Ok(g) && g.device() == device_id && g.engine_list().len()
                    == num_engines && forall|i: int|
                    0 <= i < num_engines ==> {
                        let e = #[trigger] g.engine_list()[i];
                        &&& e.id() == i
                        &&& e.stream_handle() == streams@[i]->Ok_0
                        &&& e.limit() == 64
                        &&& e.active() == 0
                    }),
            },
    {
        if let Err(e) = initialized {
            return Err(driver_failure_error("CUDA init failed", &e));
        }
        if let Err(e) = device {
            return Err(driver_failure_error("cuDeviceGet", &e));
        }
        match context {
            Err(e) => {
                return Err(driver_failure_error("cuCtxCreate", &e));
            },
            Ok(c) => {
                if c == 0 {
                    return Err(HwError::InitFailed(String::from_str("cuCtxCreate returned null")));
                }
            },
        }
        assert(streams@.len() <= num_engines);
        let mut created: Vec<usize> = Vec::with_capacity(streams.len());
        let mut i: usize = 0;
        while i < streams.len()
            invariant
                i <= streams@.len(),
                created@.len() == i,
                initialized is Ok && device is Ok && context is Ok && context->Ok_0 != 0,
                first_failure(streams@, i as int) == first_failure(streams@, 0),
                forall|k: int| 0 <= k < i ==> #[trigger] streams@[k] is Ok,
                forall|k: int| 0 <= k < i ==> #[trigger] created@[k] == streams@[k]->Ok_0,
            decreases streams.len() - i,
        {
            let stream: usize = match &streams[i] {
                Err(e) => {
                    return Err(driver_failure_error("cuStreamCreate", e));
                },
                Ok(s) => *s,
            };
            created.push(stream);
            i = i + 1;
        }
        Ok(GpuDirect::with_streams(device_id, &created))
    }

    /// Get the GPU device ID.
    pub fn device_id(&self) -> (d: i32)
        ensures
            d == self.device(),
    {
        self.device_id
    }

    /// Number of available DMA engines.
    pub fn engine_count(&self) -> (n: usize)
        ensures
            n == self.engine_list().len(),
    {
        self.engines.len()
    }

    /// The stream of each engine, in engine order.
    pub fn engine_streams(&self) -> (v: Vec<usize>)
        ensures
            v@.len() == self.engine_list().len(),
            forall|i: int| 0 <= i < v@.len() ==> #[trigger] v@[i] == self.engine_list()[i].stream_handle(),
    {
        let mut v: Vec<usize> = Vec::with_capacity(self.engines.len());
        let mut i: usize = 0;
        while i < self.engines.len()
            invariant
                i <= self.engines@.len(),
                v@.len() == i,
                forall|k: int| 0 <= k < i ==> #[trigger] v@[k] == self.engines@[k].stream_handle(),
            decreases self.engines.len() - i,
        {
            v.push(self.engines[i].stream());
            i = i + 1;
        }
        v
    }

    /// The first engine with room for another transfer, or `QueueFull`.
    fn find_engine(&self) -> (r: HwResult<usize>)
        ensures
            first_free_engine(self.engine_list(), 0) is None ==> r matches Err(HwError::QueueFull),
            r is Ok ==> first_free_engine(self.engine_list(), 0) == Some(r->Ok_0 as int),
            r is Err ==> first_free_engine(self.engine_list(), 0) is None,
    {
        let mut i: usize = 0;
        while i < self.engines.len()
            invariant
                i <= self.engines@.len(),
                first_free_engine(self.engines@, i as int) == first_free_engine(self.engines@, 0),
            decreases self.engines.len() - i,
        {
            if self.engines[i].has_capacity() {
                return Ok(i);
            }
            i = i + 1;
        }
        Err(HwError::QueueFull)
    }

    fn route(&self, src: u64, dst: u64, len: usize) -> (r: HwResult<DmaTransfer>)
        ensures
            first_free_engine(self.engine_list(), 0) is None ==> r matches Err(HwError::QueueFull),
            first_free_engine(self.engine_list(), 0) matches Some(k) ==> r == Ok::<
                DmaTransfer,
                HwError,
            >(
                DmaTransfer {
                    engine: k as usize,
                    copy: AsyncCopy {
                        kind: CopyKind::DeviceToDevice,
                        src,
                        dst,
                        len,
                        stream: self.engine_list()[k].stream_handle(),
                    },
                },
            ),
    {
        let k = match self.find_engine() {
            Ok(k) => k,
            Err(e) => return Err(e),
        };
        proof {
            lemma_first_free_engine(self.engines@, 0);
            assert(first_free_engine(self.engines@, 0) == Some(k as int));
            assert(self.engines@[k as int].free());
        }
        match self.engines[k].submit_d2d(src, dst, len) {
            Ok(copy) => Ok(DmaTransfer { engine: k, copy }),
            Err(e) => Err(e),
        }
    }

    /// Decide a transfer from NVMe (logical block `nvme_lba`, 512-byte
    /// sectors) into `gpu_buf` at `offset`: `InvalidParam` when it would
    /// overrun the buffer, `QueueFull` when no engine has room, else the
    /// device-to-device copy on the first engine with room.
    pub fn nvme_to_gpu(
        &self,
        nvme_lba: u64,
        nvme_ns_id: u32,
        gpu_buf: &GpuBuffer,
        offset: usize,
        len: usize,
    ) -> (r: HwResult<DmaTransfer>)
        requires
            offset + len <= usize::MAX,
            offset + len <= gpu_buf.size ==> gpu_buf.dev_ptr + offset <= u64::MAX
                && nvme_lba * 512 <= u64::MAX,
        ensures
            offset + len > gpu_buf.size ==> r is Err && invalid_param(
                r->Err_0,
                "transfer exceeds GPU buffer size"@,
            ),
            offset + len <= gpu_buf.size && first_free_engine(self.engine_list(), 0) is None
                ==> r matches Err(HwError::QueueFull),
            offset + len <= gpu_buf.size ==> (first_free_engine(self.engine_list(), 0) matches Some(
                k,
            ) ==> r == Ok::<DmaTransfer, HwError>(
                DmaTransfer {
                    engine: k as usize,
                    copy: AsyncCopy {
                        kind: CopyKind::DeviceToDevice,
                        src: (nvme_lba * 512) as u64,
                        dst: (gpu_buf.dev_ptr + offset) as u64,
                        len,
                        stream: self.engine_list()[k].stream_handle(),
                    },
                },
            )),
    {
        if !gpu_buf.can_fit(offset + len) {
            return Err(invalid_param_error("transfer exceeds GPU buffer size"));
        }
        let dst = gpu_buf.dev_ptr + offset as u64;
        let src = nvme_lba * NVME_SECTOR_BYTES;
        self.route(src, dst, len)
    }

    /// Decide a transfer from `gpu_buf` at `offset` to NVMe (logical block
    /// `nvme_lba`, 512-byte sectors), as for [`GpuDirect::nvme_to_gpu`].
    pub fn gpu_to_nvme(
        &self,
        gpu_buf: &GpuBuffer,
        offset: usize,
        len: usize,
        nvme_lba: u64,
        nvme_ns_id: u32,
    ) -> (r: HwResult<DmaTransfer>)
        requires
            offset + len <= usize::MAX,
            offset + len <= gpu_buf.size ==> gpu_buf.dev_ptr + offset <= u64::MAX
                && nvme_lba * 512 <= u64::MAX,
        ensures
            offset + len > gpu_buf.size ==> r is Err && invalid_param(
                r->Err_0,
                "transfer exceeds GPU buffer size"@,
            ),
            offset + len <= gpu_buf.size && first_free_engine(self.engine_list(), 0) is None
                ==> r matches Err(HwError::QueueFull),
            offset + len <= gpu_buf.size ==> (first_free_engine(self.engine_list(), 0) matches Some(
                k,
            ) ==> r == Ok::<DmaTransfer, HwError>(
                DmaTransfer {
                    engine: k as usize,
                    copy: AsyncCopy {
                        kind: CopyKind::DeviceToDevice,
                        src: (gpu_buf.dev_ptr + offset) as u64,
                        dst: (nvme_lba * 512) as u64,
                        len,
                        stream: self.engine_list()[k].stream_handle(),
                    },
                },
            )),
    {
        if !gpu_buf.can_fit(offset + len) {
            return Err(invalid_param_error("transfer exceeds GPU buffer size"));
        }
        let src = gpu_buf.dev_ptr + offset as u64;
        let dst = nvme_lba * NVME_SECTOR_BYTES;
        self.route(src, dst, len)
    }

    /// Decide a device-to-device transfer between two GPU buffers: the
    /// source range is checked first, then the destination range.
    pub fn gpu_to_gpu(
        &self,
        src_buf: &GpuBuffer,
        src_offset: usize,
        dst_buf: &GpuBuffer,
        dst_offset: usize,
        len: usize,
    ) -> (r: HwResult<DmaTransfer>)
        requires
            src_offset + len <= usize::MAX,
            src_offset + len <= src_buf.size ==> dst_offset + len <= usize::MAX,
            src_offset + len <= src_buf.size && dst_offset + len <= dst_buf.size ==> src_buf.dev_ptr
                + src_offset <= u64::MAX && dst_buf.dev_ptr + dst_offset <= u64::MAX,
        ensures
            src_offset + len > src_buf.size ==> r is Err && invalid_param(
                r->Err_0,
                "source transfer exceeds buffer size"@,
            ),
            src_offset + len <= src_buf.size && dst_offset + len > dst_buf.size ==> r is Err
                && invalid_param(r->Err_0, "destination transfer exceeds buffer size"@),
            src_offset + len <= src_buf.size && dst_offset + len <= dst_buf.size
                && first_free_engine(self.engine_list(), 0) is None ==> r matches Err(
                HwError::QueueFull,
            ),
            src_offset + len <= src_buf.size && dst_offset + len <= dst_buf.size ==> (
            first_free_engine(self.engine_list(), 0) matches Some(k) ==> r == Ok::<
                DmaTransfer,
                HwError,
            >(
                DmaTransfer {
                    engine: k as usize,
                    copy: AsyncCopy {
                        kind: CopyKind::DeviceToDevice,
                        src: (src_buf.dev_ptr + src_offset) as u64,
                        dst: (dst_buf.dev_ptr + dst_offset) as u64,
                        len,
                        stream: self.engine_list()[k].stream_handle(),
                    },
                },
            )),
    {
        if !src_buf.can_fit(src_offset + len) {
            return Err(invalid_param_error("source transfer exceeds buffer size"));
        }
        if !dst_buf.can_fit(dst_offset + len) {
            return Err(invalid_param_error("destination transfer exceeds buffer size"));
        }
        let src = src_buf.dev_ptr + src_offset as u64;
        let dst = dst_buf.dev_ptr + dst_offset as u64;
        self.route(src, dst, len)
    }

    /// Record the driver's answer to issuing a decided transfer on its
    /// engine (see [`DmaEngine::issued`]); the other engines are untouched.
    pub fn start_transfer(&mut self, transfer: &DmaTransfer, outcome: HwResult<()>) -> (r: HwResult<u64>)
        requires
            transfer.engine < old(self).engine_list().len(),
            old(self).engine_list()[transfer.engine as int].free(),
        ensures
            final(self).device() == old(self).device(),
            final(self).engine_list().len() == old(self).engine_list().len(),
            forall|i: int|
                0 <= i < old(self).engine_list().len() && i != transfer.engine
                    ==> #[trigger] final(self).engine_list()[i] == old(self).engine_list()[i],
            ({
                let before = old(self).engine_list()[transfer.engine as int];
                let after = final(self).engine_list()[transfer.engine as int];
                &&& after.id() == before.id()
                &&& after.stream_handle() == before.stream_handle()
                &&& after.limit() == before.limit()
                &&& outcome is Ok ==> after.active() == before.active() + 1 && r == Ok::<
                    u64,
                    HwError,
                >(after.active() as u64)
                &&& outcome is Err ==> after.active() == before.active() && r is Err
                    && driver_failure(r->Err_0, copy_call(transfer.copy.kind), outcome->Err_0)
            }),
    {
        let i = transfer.engine;
        let mut e = DmaEngine::from_stream(0, 0, 0);
        self.engines.set_and_swap(i, &mut e);
        let r = e.issued(transfer.copy.kind, outcome);
        self.engines.set_and_swap(i, &mut e);
        r
    }

    /// Copy `size` bytes from the host into `gpu_buf` (synchronously), where
    /// `copied` is the driver's answer to the copy (see
    /// [`GpuBuffer::copy_from_host`]).
    pub fn host_to_gpu(&self, gpu_buf: &GpuBuffer, size: usize, copied: HwResult<()>) -> (r: HwResult<()>)
        ensures
            size > gpu_buf.size ==> r is Err && invalid_param(r->Err_0, "transfer exceeds buffer size"@),
            size <= gpu_buf.size && copied is Ok ==> r is Ok,
            size <= gpu_buf.size && copied is Err ==> r is Err && driver_failure(
                r->Err_0,
                "cuMemcpyHtoD"@,
                copied->Err_0,
            ),
    {
        gpu_buf.copy_from_host(size, copied)
    }

    /// Copy `size` bytes of `gpu_buf` to the host (synchronously), where
    /// `copied` is the driver's answer to the copy (see
    /// [`GpuBuffer::copy_to_host`]).
    pub fn gpu_to_host(&self, gpu_buf: &GpuBuffer, size: usize, copied: HwResult<()>) -> (r: HwResult<()>)
        ensures
            size > gpu_buf.size ==> r is Err && invalid_param(r->Err_0, "transfer exceeds buffer size"@),
            size <= gpu_buf.size && copied is Ok ==> r is Ok,
            size <= gpu_buf.size && copied is Err ==> r is Err && driver_failure(
                r->Err_0,
                "cuMemcpyDtoH"@,
                copied->Err_0,
            ),
    {
        gpu_buf.copy_to_host(size, copied)
    }

    /// Wait for the transfers on all engines, given the answers to
    /// synchronizing each engine's stream in engine order, up to and
    /// including the first failure: the first failure is reported (see
    /// [`DmaEngine::synchronize`]) and the engines are left as they were;
    /// when every engine synchronized, all their transfers are complete and
    /// no engine carries an active transfer any more.
    pub fn sync_all(&mut self, synchronized: &Vec<HwResult<()>>) -> (r: HwResult<()>)
        requires
            synchronized@.len() <= old(self).engine_list().len(),
            synchronized@.len() < old(self).engine_list().len() ==> first_failure(synchronized@, 0)
                == Some(synchronized@.len() - 1),
        ensures
            final(self).device() == old(self).device(),
            final(self).engine_list().len() == old(self).engine_list().len(),
            first_failure(synchronized@, 0) is None ==> r is Ok && forall|i: int|
                0 <= i < old(self).engine_list().len() ==> {
                    let before = old(self).engine_list()[i];
                    let after = #[trigger] final(self).engine_list()[i];
                    &&& after.id() == before.id()
                    &&& after.stream_handle() == before.stream_handle()
                    &&& after.limit() == before.limit()
                    &&& after.active() == 0
                },
            first_failure(synchronized@, 0) matches Some(k) ==> r is Err && driver_failure(
                r->Err_0,
                "cuStreamSynchronize"@,
                synchronized@[k]->Err_0,
            ) && final(self).engine_list() == old(self).engine_list(),
    {
        let mut i: usize = 0;
        while i < synchronized.len()
            invariant
                i <= synchronized@.len(),
                first_failure(synchronized@, i as int) == first_failure(synchronized@, 0),
            decreases synchronized.len() - i,
        {
            match &synchronized[i] {
                Err(e) => {
                    return Err(driver_failure_error("cuStreamSynchronize", e));
                },
                Ok(()) => {},
            }
            i = i + 1;
        }
        let mut j: usize = 0;
        while j < self.engines.len()
            invariant
                j <= self.engines@.len(),
                self.device_id == old(self).device_id,
                self.engines@.len() == old(self).engines@.len(),
                forall|k: int|
                    0 <= k < self.engines@.len() ==> {
                        let before = old(self).engines@[k];
                        let after = #[trigger] self.engines@[k];
                        &&& after.id() == before.id()
                        &&& after.stream_handle() == before.stream_handle()
                        &&& after.limit() == before.limit()
                        &&& k < j ==> after.active() == 0
                        &&& k >= j ==> after == before
                    },
            decreases self.engines.len() - j,
        {
            let mut e = DmaEngine::from_stream(0, 0, 0);
            self.engines.set_and_swap(j, &mut e);
            e.active_transfers = 0;
            self.engines.set_and_swap(j, &mut e);
            j = j + 1;
        }
        Ok(())
    }

    /// Get transfer statistics: the number of engines and the transfers
    /// active across them.
    pub fn stats(&self) -> (s: GpuDirectStats)
        requires
            active_total(self.engine_list(), self.engine_list().len() as int) <= usize::MAX,
        ensures
            s.total_engines == self.engine_list().len(),
            s.active_transfers == active_total(self.engine_list(), self.engine_list().len() as int),
    {
        let mut total: usize = 0;
        let mut i: usize = 0;
        while i < self.engines.len()
            invariant
                i <= self.engines@.len(),
                total == active_total(self.engines@, i as int),
                active_total(self.engines@, self.engines@.len() as int) <= usize::MAX,
            decreases self.engines.len() - i,
        {
            proof {
                lemma_active_total_monotone(self.engines@, i as int + 1, self.engines@.len() as int);
            }
            total = total + self.engines[i].active_count();
            i = i + 1;
        }
        GpuDirectStats { total_engines: self.engines.len(), active_transfers: total }
    }
}

} // verus!
