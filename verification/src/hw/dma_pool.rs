//! Zero-copy DMA buffer pool for io_uring submissions.
//!
//! The pool splits one mapped region into equal buffer slots that are
//! registered with io_uring, so the kernel reads and writes them directly.
//! The library keeps the slots, their allocation state and the statistics;
//! the mapping and the registration system call are made by the embedding
//! program, which hands their results in.
use crate::backend::RegisterBuffer;
use crate::hw::gpu_direct::{driver_failure, driver_failure_error};
use crate::hw::{hw_error_text, HwError, HwResult};
use crate::text::{push_signed_decimal, signed_decimal_chars};
use std::collections::HashMap;
use vstd::prelude::*;

verus! {

broadcast use vstd::std_specs::hash::group_hash_axioms;

/// Default buffer size: 4KB (single page).
pub const DEFAULT_BUF_SIZE: usize = 4096;

/// Minimum buffer size: 4KB.
pub const MIN_BUF_SIZE: usize = 4096;

/// Maximum buffer size: 2MB (huge page).
pub const MAX_BUF_SIZE: usize = 2097152;

/// Default pool capacity.
pub const DEFAULT_CAPACITY: usize = 256;

/// Descriptor for a DMA buffer in the pool.
#[derive(Clone, Copy, Debug)]
pub struct BufferDesc {
    /// Slot index in the pool.
    pub index: u32,
    /// Virtual address of the buffer.
    pub addr: u64,
    /// Physical/DMA address (for io_uring registration).
    pub dma_addr: u64,
    /// Buffer size in bytes.
    pub size: u32,
    /// Whether this buffer is currently allocated.
    pub allocated: bool,
}

/// Pool allocation statistics.
#[derive(Debug)]
pub struct PoolStats {
    /// Total allocations.
    pub allocations: u64,
    /// Total deallocations.
    pub deallocations: u64,
    /// Current in-flight count.
    pub in_flight: u32,
    /// Peak in-flight count.
    pub peak_in_flight: u32,
}

/// The statistics after one more allocation.
pub open spec fn stats_after_alloc(s: PoolStats) -> PoolStats {
    PoolStats {
        allocations: s.allocations.wrapping_add(1),
        deallocations: s.deallocations,
        in_flight: (s.in_flight + 1) as u32,
        peak_in_flight: if s.in_flight + 1 > s.peak_in_flight {
            (s.in_flight + 1) as u32
        } else {
            s.peak_in_flight
        },
    }
}

/// The statistics after one more deallocation (the in-flight count wraps
/// below zero, as an atomic counter does).
pub open spec fn stats_after_dealloc(s: PoolStats) -> PoolStats {
    PoolStats {
        allocations: s.allocations,
        deallocations: s.deallocations.wrapping_add(1),
        in_flight: s.in_flight.wrapping_sub(1),
        peak_in_flight: s.peak_in_flight,
    }
}

impl Default for PoolStats {
    fn default() -> (s: Self)
        ensures
            s.allocations == 0 && s.deallocations == 0 && s.in_flight == 0 && s.peak_in_flight
                == 0,
    {
        PoolStats { allocations: 0, deallocations: 0, in_flight: 0, peak_in_flight: 0 }
    }
}

impl PoolStats {
    /// Record a new allocation: one more allocation and one more in flight,
    /// raising the peak when the in-flight count passes it.
    pub fn record_alloc(&mut self)
        requires
            old(self).in_flight < u32::MAX,
        ensures
            *final(self) == stats_after_alloc(*old(self)),
    {
        self.allocations = self.allocations.wrapping_add(1);
        let current = self.in_flight + 1;
        self.in_flight = current;
        if current > self.peak_in_flight {
            self.peak_in_flight = current;
        }
    }

    /// Record a deallocation.
    pub fn record_dealloc(&mut self)
        ensures
            *final(self) == stats_after_dealloc(*old(self)),
    {
        self.deallocations = self.deallocations.wrapping_add(1);
        self.in_flight = self.in_flight.wrapping_sub(1);
    }

    /// Get current in-flight count.
    pub fn in_flight(&self) -> (n: u32)
        ensures
            n == self.in_flight,
    {
        self.in_flight
    }

    /// Get peak in-flight count.
    pub fn peak_in_flight(&self) -> (n: u32)
        ensures
            n == self.peak_in_flight,
    {
        self.peak_in_flight
    }

    /// Get total allocations.
    pub fn total_allocs(&self) -> (n: u64)
        ensures
            n == self.allocations,
    {
        self.allocations
    }
}

/// The peak never falls below the in-flight count: recording an allocation
/// or a deallocation (of an operation in flight) keeps it at or above it,
/// and the peak never decreases.
pub proof fn law_peak_bounds_in_flight(s: PoolStats)
    requires
        s.in_flight <= s.peak_in_flight,
    ensures
        s.in_flight < u32::MAX ==> stats_after_alloc(s).in_flight <= stats_after_alloc(
            s,
        ).peak_in_flight,
        s.in_flight < u32::MAX ==> stats_after_alloc(s).peak_in_flight >= s.peak_in_flight,
        s.in_flight > 0 ==> stats_after_dealloc(s).in_flight <= stats_after_dealloc(
            s,
        ).peak_in_flight,
        stats_after_dealloc(s).peak_in_flight == s.peak_in_flight,
{
}

/// Freeing a buffer right after allocating it leaves the pool as it was:
/// the slot is free again, and the in-flight count is back where it was
/// (the allocation and deallocation totals each grow by one).
pub proof fn law_free_undoes_allocate(taken: Seq<bool>, k: int, s: PoolStats)
    requires
        0 <= k < taken.len(),
        !taken[k],
        s.in_flight < u32::MAX,
    ensures
        taken.update(k, true).update(k, false) == taken,
        stats_after_dealloc(stats_after_alloc(s)).in_flight == s.in_flight,
        stats_after_dealloc(stats_after_alloc(s)).allocations == s.allocations.wrapping_add(1),
        stats_after_dealloc(stats_after_alloc(s)).deallocations == s.deallocations.wrapping_add(
            1,
        ),
{
    assert(taken.update(k, true).update(k, false) =~= taken);
    let a = stats_after_alloc(s).in_flight;
    let f = s.in_flight;
    assert(a.wrapping_sub(1) == f) by (bit_vector)
        requires
            a == f + 1,
    ;
}

/// The position of the first free slot at or after `i`.
pub open spec fn first_free_slot(taken: Seq<bool>, i: int) -> Option<int>
    decreases taken.len() - i,
{
    if i < 0 || i >= taken.len() {
        None
    } else if !taken[i] {
        Some(i)
    } else {
        first_free_slot(taken, i + 1)
    }
}

/// The position of the first free slot at or after `i` whose address is a
/// multiple of `alignment`.
pub open spec fn first_free_aligned_slot(
    taken: Seq<bool>,
    descs: Seq<BufferDesc>,
    alignment: usize,
    i: int,
) -> Option<int>
    decreases taken.len() - i,
{
    if i < 0 || i >= taken.len() {
        None
    } else if !taken[i] && (descs[i].addr as usize) % alignment == 0 {
        Some(i)
    } else {
        first_free_aligned_slot(taken, descs, alignment, i + 1)
    }
}

/// The first free slot at or after `i`, when there is one, is a free slot
/// in range.
pub proof fn lemma_first_free_slot(taken: Seq<bool>, i: int)
    requires
        0 <= i,
    ensures
        first_free_slot(taken, i) matches Some(k) ==> i <= k < taken.len() && !taken[k],
    decreases taken.len() - i,
{
    if i < taken.len() && taken[i] {
        lemma_first_free_slot(taken, i + 1);
    }
}

proof fn lemma_first_free_aligned_slot(
    taken: Seq<bool>,
    descs: Seq<BufferDesc>,
    alignment: usize,
    i: int,
)
    requires
        0 <= i,
    ensures
        first_free_aligned_slot(taken, descs, alignment, i) matches Some(k) ==> i <= k
            < taken.len() && !taken[k],
    decreases taken.len() - i,
{
    if i < taken.len() && !(!taken[i] && (descs[i].addr as usize) % alignment == 0) {
        lemma_first_free_aligned_slot(taken, descs, alignment, i + 1);
    }
}

/// The number of free slots among the first `n`.
pub open spec fn free_count(taken: Seq<bool>, n: int) -> int
    decreases n,
{
    if n <= 0 {
        0
    } else {
        free_count(taken, n - 1) + if taken[n - 1] {
            0int
        } else {
            1int
        }
    }
}

proof fn lemma_free_count_bound(taken: Seq<bool>, n: int)
    requires
        0 <= n,
    ensures
        0 <= free_count(taken, n) <= n,
    decreases n,
{
    if n > 0 {
        lemma_free_count_bound(taken, n - 1);
    }
}

proof fn lemma_free_count_all_free(taken: Seq<bool>, n: int)
    requires
        0 <= n <= taken.len(),
        forall|i: int| 0 <= i < taken.len() ==> !#[trigger] taken[i],
    ensures
        free_count(taken, n) == n,
    decreases n,
{
    if n > 0 {
        lemma_free_count_all_free(taken, n - 1);
    }
}

proof fn lemma_free_count_update(taken: Seq<bool>, k: int, v: bool, n: int)
    requires
        0 <= k < taken.len(),
        0 <= n <= taken.len(),
    ensures
        free_count(taken.update(k, v), n) == free_count(taken, n) + (if k < n {
            (if v {
                0int
            } else {
                1int
            }) - (if taken[k] {
                0int
            } else {
                1int
            })
        } else {
            0int
        }),
    decreases n,
{
    if n > 0 {
        lemma_free_count_update(taken, k, v, n - 1);
    }
}

/// The steps of the pool's accounting: with every slot free, all are
/// counted free; taking a free slot or releasing a taken one keeps the free
/// slots plus the in-flight count at the number of slots.
proof fn lemma_conservation_steps(taken: Seq<bool>, k: int, s: PoolStats)
    ensures
        (forall|i: int| 0 <= i < taken.len() ==> !#[trigger] taken[i]) ==> free_count(
            taken,
            taken.len() as int,
        ) == taken.len(),
        0 <= k < taken.len() && !taken[k] && s.in_flight < u32::MAX && free_count(
            taken,
            taken.len() as int,
        ) + s.in_flight == taken.len() ==> free_count(
            taken.update(k, true),
            taken.len() as int,
        ) + stats_after_alloc(s).in_flight == taken.len(),
        0 <= k < taken.len() && taken[k] && free_count(taken, taken.len() as int) + s.in_flight
            == taken.len() ==> free_count(taken.update(k, false), taken.len() as int)
            + stats_after_dealloc(s).in_flight == taken.len(),
{
    if forall|i: int| 0 <= i < taken.len() ==> !#[trigger] taken[i] {
        lemma_free_count_all_free(taken, taken.len() as int);
    }
    if 0 <= k < taken.len() {
        lemma_free_count_update(taken, k, true, taken.len() as int);
        lemma_free_count_update(taken, k, false, taken.len() as int);
        if taken[k] && free_count(taken, taken.len() as int) + s.in_flight == taken.len() {
            lemma_free_count_bound(taken, taken.len() as int);
            if free_count(taken, taken.len() as int) == taken.len() {
                lemma_all_free_when_count_full(taken, taken.len() as int, k);
            }
            let f = s.in_flight;
            assert(f > 0);
            assert(f.wrapping_sub(1) == f - 1) by (bit_vector)
                requires
                    f > 0,
            ;
        }
    }
}

proof fn lemma_all_free_when_count_full(taken: Seq<bool>, n: int, k: int)
    requires
        0 <= n <= taken.len(),
        0 <= k < n,
        free_count(taken, n) == n,
    ensures
        !taken[k],
    decreases n,
{
    lemma_free_count_bound(taken, n - 1);
    if k < n - 1 {
        if taken[n - 1] {
        } else {
            lemma_all_free_when_count_full(taken, n - 1, k);
        }
    }
}

/// The descriptor of slot `i` of a pool at `base` with buffers of
/// `buf_size` bytes.
pub open spec fn slot_desc(base: u64, buf_size: usize, i: int) -> BufferDesc {
    BufferDesc {
        index: i as u32,
        addr: (base + i * buf_size) as u64,
        dma_addr: (base + i * buf_size) as u64,
        size: buf_size as u32,
        allocated: false,
    }
}

/// The error of a failed registration system call: `prefix` and the
/// negated return value as a 32-bit errno.
pub open spec fn registration_failure(r: HwError, prefix: Seq<char>, ret: i64) -> bool {
    r matches HwError::InitFailed(m) && m@ == prefix + signed_decimal_chars(
        ((-ret) as i32) as int,
    )
}

/// A zero-copy DMA buffer pool for io_uring submissions.
pub struct ZeroCopyDmaPool {
    base: u64,
    region_size: usize,
    buf_size: usize,
    capacity: u32,
    descs: Vec<BufferDesc>,
    taken: Vec<bool>,
    uring_fd: i32,
    registered: bool,
    stats: PoolStats,
}

/// A handle to an allocated buffer in the pool; it goes back to the pool
/// through [`BufferHandle::free`].
pub struct BufferHandle {
    index: u32,
    addr: u64,
    dma_addr: u64,
    size: u32,
}

impl BufferHandle {
    /// The slot of the buffer.
    pub closed spec fn slot(&self) -> u32 {
        self.index
    }

    /// The buffer's virtual address.
    pub closed spec fn address(&self) -> u64 {
        self.addr
    }

    /// The buffer's DMA address.
    pub closed spec fn dma_address(&self) -> u64 {
        self.dma_addr
    }

    /// The buffer's size.
    pub closed spec fn len(&self) -> u32 {
        self.size
    }

    /// The handle to the buffer of descriptor `d`.
    pub open spec fn of_desc(&self, d: BufferDesc) -> bool {
        self.slot() == d.index && self.address() == d.addr && self.dma_address() == d.dma_addr
            && self.len() == d.size
    }

    fn from_desc(d: BufferDesc) -> (h: Self)
        ensures
            h.of_desc(d),
    {
        BufferHandle { index: d.index, addr: d.addr, dma_addr: d.dma_addr, size: d.size }
    }

    /// Get the virtual address of the buffer.
    pub fn addr(&self) -> (a: u64)
        ensures
            a == self.address(),
    {
        self.addr
    }

    /// Get the DMA address of the buffer (for io_uring submissions).
    pub fn dma_addr(&self) -> (a: u64)
        ensures
            a == self.dma_address(),
    {
        self.dma_addr
    }

    /// Get the buffer size.
    pub fn size(&self) -> (n: usize)
        ensures
            n == self.len(),
    {
        self.size as usize
    }

    /// Get the slot index.
    pub fn index(&self) -> (i: u32)
        ensures
            i == self.slot(),
    {
        self.index
    }

    /// Get the registered buffer index for io_uring fixed-buffer I/O (the
    /// slot index, truncated to 16 bits).
    pub fn registered_index(&self) -> (i: u16)
        ensures
            i == self.slot() as u16,
    {
        #[verifier::truncate] (self.index as u16)
    }

    /// Release the buffer back to `pool`: its slot becomes free and the
    /// deallocation is counted.
    pub fn free(self, pool: &mut ZeroCopyDmaPool)
        requires
            self.slot() < old(pool).slots().len(),
            old(pool).taken_slots()[self.slot() as int],
            old(pool).wf(),
        ensures
            final(pool).wf(),
            final(pool).slots() == old(pool).slots(),
            final(pool).taken_slots() == old(pool).taken_slots().update(self.slot() as int, false),
            final(pool).statistics() == stats_after_dealloc(old(pool).statistics()),
            final(pool).geometry() == old(pool).geometry(),
            final(pool).registered_state() == old(pool).registered_state(),
    {
        pool.release(self.index);
    }
}

impl ZeroCopyDmaPool {
    /// The slot descriptors.
    pub closed spec fn slots(&self) -> Seq<BufferDesc> {
        self.descs@
    }

    /// Which slots are allocated.
    pub closed spec fn taken_slots(&self) -> Seq<bool> {
        self.taken@
    }

    /// The allocation statistics.
    pub closed spec fn statistics(&self) -> PoolStats {
        self.stats
    }

    /// `(base, region size, buffer size, capacity, io_uring descriptor)`.
    pub closed spec fn geometry(&self) -> (u64, usize, usize, u32, i32) {
        (self.base, self.region_size, self.buf_size, self.capacity, self.uring_fd)
    }

    /// Whether the buffers are registered with io_uring.
    pub closed spec fn registered_state(&self) -> bool {
        self.registered
    }

    /// One allocation flag per slot, and every slot either free or counted
    /// in flight: the free slots plus the in-flight count make the number
    /// of slots. Slot `i` is the buffer at `base + i * buf_size`, and the
    /// capacity is the number of slots (as a 32-bit count).
    pub open spec fn wf(&self) -> bool {
        &&& self.taken_slots().len() == self.slots().len()
        &&& self.geometry().3 == self.slots().len() as u32
        &&& forall|i: int|
            0 <= i < self.slots().len() ==> #[trigger] self.slots()[i] == slot_desc(
                self.geometry().0,
                self.geometry().2,
                i,
            )
        &&& free_count(self.taken_slots(), self.taken_slots().len() as int)
            + self.statistics().in_flight == self.slots().len()
    }

    /// The mapping length for `capacity` buffers of `buf_size` bytes on a
    /// system with `page_size`-byte pages, or `InvalidParam` when the
    /// buffer size is not a power of two between 4 KiB and 2 MiB.
    pub fn region_size_for(buf_size: usize, capacity: usize, page_size: usize) -> (r: HwResult<
        usize,
    >)
        requires
            page_size != 0,
            page_size & ((page_size - 1) as usize) == 0,
            buf_size * capacity + page_size - 1 <= usize::MAX,
        ensures
            !(buf_size != 0 && buf_size & ((buf_size - 1) as usize) == 0 && MIN_BUF_SIZE <= buf_size
                <= MAX_BUF_SIZE) ==> r is Err && invalid_buf_size(r->Err_0),
            (buf_size != 0 && buf_size & ((buf_size - 1) as usize) == 0 && MIN_BUF_SIZE <= buf_size
                <= MAX_BUF_SIZE) ==> r is Ok && crate::uring::rounded_to_page(
                buf_size * capacity,
                page_size,
                r->Ok_0,
            ),
    {
        let pow2 = buf_size != 0 && (buf_size & (buf_size - 1)) == 0;
        if !pow2 || buf_size < MIN_BUF_SIZE || buf_size > MAX_BUF_SIZE {
            return Err(invalid_buf_size_error());
        }
        let total = buf_size * capacity;
        let y = total + (page_size - 1);
        let r = y & !(page_size - 1);
        assert(r & ((page_size - 1) as usize) == 0 && r <= y && y - r < page_size) by (bit_vector)
            requires
                page_size != 0,
                page_size & ((page_size - 1) as usize) == 0,
                r == y & !((page_size - 1) as usize),
        ;
        Ok(r)
    }

    /// A pool over the mapped region of `region_size` bytes at `base`:
    /// `capacity` slots of `buf_size` bytes, slot `i` at `base + i *
    /// buf_size`, all free, not yet registered, with empty statistics.
    pub fn from_region(
        base: u64,
        region_size: usize,
        buf_size: usize,
        capacity: usize,
        uring_fd: i32,
    ) -> (p: Self)
        requires
            base + capacity * buf_size <= u64::MAX,
        ensures
            p.wf(),
            p.slots().len() == capacity,
            forall|i: int| 0 <= i < capacity ==> #[trigger] p.slots()[i] == slot_desc(base, buf_size, i),
            forall|i: int| 0 <= i < capacity ==> !#[trigger] p.taken_slots()[i],
            p.geometry() == (base, region_size, buf_size, capacity as u32, uring_fd),
            !p.registered_state(),
            p.statistics() == (PoolStats {
                allocations: 0,
                deallocations: 0,
                in_flight: 0,
                peak_in_flight: 0,
            }),
    {
        let mut descs: Vec<BufferDesc> = Vec::with_capacity(capacity);
        let mut taken: Vec<bool> = Vec::with_capacity(capacity);
        let mut i: usize = 0;
        while i < capacity
            invariant
                i <= capacity,
                base + capacity * buf_size <= u64::MAX,
                descs@.len() == i,
                taken@.len() == i,
                forall|k: int| 0 <= k < i ==> #[trigger] descs@[k] == slot_desc(base, buf_size, k),
                forall|k: int| 0 <= k < i ==> !#[trigger] taken@[k],
            decreases capacity - i,
        {
            proof {
                vstd::arithmetic::mul::lemma_mul_inequality(i as int, capacity as int, buf_size as int);
            }
            let addr = base + (i as u64) * (buf_size as u64);
            descs.push(
                BufferDesc {
                    index: #[verifier::truncate] (i as u32),
                    addr,
                    dma_addr: addr,
                    size: #[verifier::truncate] (buf_size as u32),
                    allocated: false,
                },
            );
            taken.push(false);
            i = i + 1;
        }
        proof {
            lemma_free_count_all_free(taken@, capacity as int);
        }
        ZeroCopyDmaPool {
            base,
            region_size,
            buf_size,
            capacity: #[verifier::truncate] (capacity as u32),
            descs,
            taken,
            uring_fd,
            registered: false,
            stats: PoolStats::default(),
        }
    }

    /// The regions to register with io_uring: every slot's buffer, in slot
    /// order.
    pub fn registration_buffers(&self) -> (v: Vec<RegisterBuffer>)
        ensures
            v@.len() == self.slots().len(),
            forall|i: int|
                0 <= i < v@.len() ==> (#[trigger] v@[i]).ptr == self.slots()[i].addr as usize
                    && v@[i].len == self.geometry().2,
    {
        let mut v: Vec<RegisterBuffer> = Vec::with_capacity(self.descs.len());
        let mut i: usize = 0;
        while i < self.descs.len()
            invariant
                i <= self.descs@.len(),
                v@.len() == i,
                forall|k: int|
                    0 <= k < i ==> (#[trigger] v@[k]).ptr == self.descs@[k].addr as usize
                        && v@[k].len == self.buf_size,
            decreases self.descs.len() - i,
        {
            v.push(
                RegisterBuffer {
                    ptr: #[verifier::truncate] (self.descs[i].addr as usize),
                    len: self.buf_size,
                },
            );
            i = i + 1;
        }
        v
    }

    /// Apply the kernel's answer `ret` to the registration of the pool's
    /// buffers: on success the pool is registered.
    pub fn register_outcome(&mut self, ret: i64) -> (r: HwResult<()>)
        requires
            ret != i64::MIN,
        ensures
            ret < 0 ==> r is Err && registration_failure(
                r->Err_0,
                "io_uring_register_buffers failed: errno "@,
                ret,
            ) && final(self).registered_state() == old(self).registered_state(),
            ret >= 0 ==> r is Ok && final(self).registered_state(),
            final(self).slots() == old(self).slots(),
            final(self).taken_slots() == old(self).taken_slots(),
            final(self).statistics() == old(self).statistics(),
            final(self).geometry() == old(self).geometry(),
    {
        if ret < 0 {
            return Err(registration_error("io_uring_register_buffers failed: errno ", ret));
        }
        self.registered = true;
        Ok(())
    }

    /// Apply the kernel's answer `ret` to the unregistration of the pool's
    /// buffers: on success the pool is no longer registered.
    pub fn unregister_outcome(&mut self, ret: i64) -> (r: HwResult<()>)
        requires
            ret != i64::MIN,
        ensures
            ret < 0 ==> r is Err && registration_failure(
                r->Err_0,
                "io_uring_unregister_buffers failed: errno "@,
                ret,
            ) && final(self).registered_state() == old(self).registered_state(),
            ret >= 0 ==> r is Ok && !final(self).registered_state(),
            final(self).slots() == old(self).slots(),
            final(self).taken_slots() == old(self).taken_slots(),
            final(self).statistics() == old(self).statistics(),
            final(self).geometry() == old(self).geometry(),
    {
        if ret < 0 {
            return Err(registration_error("io_uring_unregister_buffers failed: errno ", ret));
        }
        self.registered = false;
        Ok(())
    }

    fn take(&mut self, i: usize) -> (h: BufferHandle)
        requires
            old(self).wf(),
            i < old(self).slots().len(),
            !old(self).taken_slots()[i as int],
            old(self).statistics().in_flight < u32::MAX,
        ensures
            final(self).wf(),
            h.of_desc(old(self).slots()[i as int]),
            final(self).slots() == old(self).slots(),
            final(self).taken_slots() == old(self).taken_slots().update(i as int, true),
            final(self).statistics() == stats_after_alloc(old(self).statistics()),
            final(self).geometry() == old(self).geometry(),
            final(self).registered_state() == old(self).registered_state(),
    {
        proof {
            lemma_conservation_steps(self.taken@, i as int, self.stats);
        }
        self.taken.set(i, true);
        self.stats.record_alloc();
        BufferHandle::from_desc(self.descs[i])
    }

    pub(crate) fn release(&mut self, i: u32)
        requires
            old(self).wf(),
            i < old(self).slots().len(),
            old(self).taken_slots()[i as int],
        ensures
            final(self).wf(),
            final(self).slots() == old(self).slots(),
            final(self).taken_slots() == old(self).taken_slots().update(i as int, false),
            final(self).statistics() == stats_after_dealloc(old(self).statistics()),
            final(self).geometry() == old(self).geometry(),
            final(self).registered_state() == old(self).registered_state(),
    {
        proof {
            lemma_conservation_steps(self.taken@, i as int, self.stats);
        }
        self.taken.set(i as usize, false);
        self.stats.record_dealloc();
    }

    /// Allocate the first free buffer of the pool, if any.
    pub fn allocate(&mut self) -> (r: Option<BufferHandle>)
        requires
            old(self).wf(),
            old(self).statistics().in_flight < u32::MAX,
        ensures
            final(self).wf(),
            final(self).slots() == old(self).slots(),
            final(self).geometry() == old(self).geometry(),
            final(self).registered_state() == old(self).registered_state(),
            match first_free_slot(old(self).taken_slots(), 0) {
                Some(k) => r matches Some(h) && h.of_desc(old(self).slots()[k])
                    && final(self).taken_slots() == old(self).taken_slots().update(k, true)
                    && final(self).statistics() == stats_after_alloc(old(self).statistics()),
                None => r is None && final(self).taken_slots() == old(self).taken_slots()
                    && final(self).statistics() == old(self).statistics(),
            },
    {
        let mut i: usize = 0;
        while i < self.taken.len()
            invariant
                i <= self.taken@.len(),
                *self == *old(self),
                self.wf(),
                self.statistics().in_flight < u32::MAX,
                first_free_slot(self.taken@, i as int) == first_free_slot(self.taken@, 0),
            decreases self.taken.len() - i,
        {
            if !self.taken[i] {
                return Some(self.take(i));
            }
            i = i + 1;
        }
        None
    }

    /// Allocate the first free buffer whose address is a multiple of
    /// `alignment`; nothing when `alignment` is not a power of two.
    pub fn alloc_aligned(&mut self, alignment: usize) -> (r: Option<BufferHandle>)
        requires
            old(self).wf(),
            old(self).statistics().in_flight < u32::MAX,
        ensures
            final(self).wf(),
            final(self).slots() == old(self).slots(),
            final(self).geometry() == old(self).geometry(),
            final(self).registered_state() == old(self).registered_state(),
            !(alignment != 0 && alignment & ((alignment - 1) as usize) == 0) ==> r is None
                && final(self).taken_slots() == old(self).taken_slots() && final(self).statistics()
                == old(self).statistics(),
            (alignment != 0 && alignment & ((alignment - 1) as usize) == 0) ==> match first_free_aligned_slot(
                old(self).taken_slots(),
                old(self).slots(),
                alignment,
                0,
            ) {
                Some(k) => r matches Some(h) && h.of_desc(old(self).slots()[k])
                    && final(self).taken_slots() == old(self).taken_slots().update(k, true)
                    && final(self).statistics() == stats_after_alloc(old(self).statistics()),
                None => r is None && final(self).taken_slots() == old(self).taken_slots()
                    && final(self).statistics() == old(self).statistics(),
            },
    {
        if !(alignment != 0 && (alignment & (alignment - 1)) == 0) {
            return None;
        }
        let mut i: usize = 0;
        while i < self.taken.len()
            invariant
                i <= self.taken@.len(),
                *self == *old(self),
                self.wf(),
                self.statistics().in_flight < u32::MAX,
                alignment != 0 && alignment & ((alignment - 1) as usize) == 0,
                first_free_aligned_slot(self.taken@, self.descs@, alignment, i as int)
                    == first_free_aligned_slot(self.taken@, self.descs@, alignment, 0),
            decreases self.taken.len() - i,
        {
            let addr = #[verifier::truncate] (self.descs[i].addr as usize);
            if !self.taken[i] && addr % alignment == 0 {
                return Some(self.take(i));
            }
            i = i + 1;
        }
        None
    }

    /// Get a buffer descriptor by index, its `allocated` flag telling
    /// whether the buffer is currently allocated.
    pub fn descriptor(&self, index: u32) -> (r: Option<BufferDesc>)
        requires
            self.wf(),
        ensures
            index < self.slots().len() ==> r == Some(
                (BufferDesc { allocated: self.taken_slots()[index as int], ..self.slots()[index as int] }),
            ),
            index >= self.slots().len() ==> r is None,
    {
        if (index as usize) < self.descs.len() {
            let d = self.descs[index as usize];
            Some(BufferDesc { allocated: self.taken[index as usize], ..d })
        } else {
            None
        }
    }

    /// Number of available buffers.
    pub fn available(&self) -> (n: usize)
        ensures
            n == free_count(self.taken_slots(), self.taken_slots().len() as int),
            self.wf() ==> n + self.statistics().in_flight == self.slots().len(),
    {
        let mut n: usize = 0;
        let mut i: usize = 0;
        while i < self.taken.len()
            invariant
                i <= self.taken@.len(),
                n == free_count(self.taken@, i as int),
            decreases self.taken.len() - i,
        {
            proof {
                lemma_free_count_bound(self.taken@, i as int);
            }
            if !self.taken[i] {
                n = n + 1;
            }
            i = i + 1;
        }
        n
    }

    /// Total number of buffers.
    pub fn capacity(&self) -> (n: usize)
        ensures
            n == self.geometry().3,
    {
        self.capacity as usize
    }

    /// Size of each buffer.
    pub fn buf_size(&self) -> (n: usize)
        ensures
            n == self.geometry().2,
    {
        self.buf_size
    }

    /// Get allocation statistics.
    pub fn stats(&self) -> (s: &PoolStats)
        ensures
            *s == self.statistics(),
    {
        &self.stats
    }

    /// Check if buffers are registered with io_uring.
    pub fn is_registered(&self) -> (b: bool)
        ensures
            b == self.registered_state(),
    {
        self.registered
    }
}

/// In every state the pool's operations reach (each keeps `wf`), the
/// available buffers plus the in-flight count make the capacity, one slot
/// per buffer, and the available buffers number at most the capacity
/// (for a capacity that a 32-bit count holds).
pub proof fn law_available_plus_in_flight_is_capacity(pool: ZeroCopyDmaPool)
    requires
        pool.wf(),
        pool.slots().len() <= u32::MAX,
    ensures
        free_count(pool.taken_slots(), pool.slots().len() as int) + pool.statistics().in_flight
            == pool.geometry().3,
        0 <= free_count(pool.taken_slots(), pool.slots().len() as int) <= pool.geometry().3,
{
    lemma_free_count_bound(pool.taken_slots(), pool.slots().len() as int);
}

/// The error for a buffer size outside the accepted range.
pub open spec fn invalid_buf_size(r: HwError) -> bool {
    r matches HwError::InvalidParam(m) && m@
        == "buf_size must be power of 2 between 4096 and 2097152 bytes"@
}

fn invalid_buf_size_error() -> (e: HwError)
    ensures
        invalid_buf_size(e),
{
    HwError::InvalidParam(
        String::from_str("buf_size must be power of 2 between 4096 and 2097152 bytes"),
    )
}

fn registration_error(prefix: &str, ret: i64) -> (e: HwError)
    requires
        ret < 0,
        ret != i64::MIN,
    ensures
        registration_failure(e, prefix@, ret),
{
    let errno = #[verifier::truncate] ((-ret) as i32);
    let mut m = String::from_str(prefix);
    push_signed_decimal(&mut m, errno as i64);
    HwError::InitFailed(m)
}

/// Builder for creating `ZeroCopyDmaPool` instances.
pub struct DmaPoolBuilder {
    /// Buffer size (must be power of 2, 4KB-2MB).
    pub buf_size: usize,
    /// Number of buffers.
    pub capacity: usize,
    /// io_uring file descriptor the buffers are registered with.
    pub uring_fd: i32,
    /// Whether huge pages are requested.
    pub use_hugepages: bool,
}

impl DmaPoolBuilder {
    /// Create a new builder: 4 KiB buffers, 256 of them, no huge pages.
    pub fn new(uring_fd: i32) -> (b: Self)
        ensures
            b.buf_size == DEFAULT_BUF_SIZE,
            b.capacity == DEFAULT_CAPACITY,
            b.uring_fd == uring_fd,
            !b.use_hugepages,
    {
        DmaPoolBuilder {
            buf_size: DEFAULT_BUF_SIZE,
            capacity: DEFAULT_CAPACITY,
            uring_fd,
            use_hugepages: false,
        }
    }

    /// Set the buffer size (must be power of 2, 4KB-2MB).
    pub fn buf_size(self, size: usize) -> (b: Self)
        ensures
            b.buf_size == size,
            b.capacity == self.capacity,
            b.uring_fd == self.uring_fd,
            b.use_hugepages == self.use_hugepages,
    {
        DmaPoolBuilder { buf_size: size, ..self }
    }

    /// Set the pool capacity (number of buffers).
    pub fn capacity(self, count: usize) -> (b: Self)
        ensures
            b.buf_size == self.buf_size,
            b.capacity == count,
            b.uring_fd == self.uring_fd,
            b.use_hugepages == self.use_hugepages,
    {
        DmaPoolBuilder { capacity: count, ..self }
    }

    /// Enable huge page allocation.
    pub fn use_hugepages(self) -> (b: Self)
        ensures
            b.buf_size == self.buf_size,
            b.capacity == self.capacity,
            b.uring_fd == self.uring_fd,
            b.use_hugepages,
    {
        DmaPoolBuilder { use_hugepages: true, ..self }
    }
}

/// GPU-Direct aware DMA buffer pool whose buffers are paired with GPU
/// device memory.
pub struct GpuDmaPool {
    pool: ZeroCopyDmaPool,
    device_id: i32,
    gpu_bufs: HashMap<u32, u64>,
}

impl GpuDmaPool {
    /// The underlying pool.
    pub closed spec fn inner(&self) -> ZeroCopyDmaPool {
        self.pool
    }

    /// The GPU device.
    pub closed spec fn device(&self) -> i32 {
        self.device_id
    }

    /// Slot index to GPU device pointer.
    pub closed spec fn gpu_map(&self) -> Map<u32, u64> {
        self.gpu_bufs@
    }

    /// A GPU-Direct pool over `pool` for device `device_id`, with no GPU
    /// memory paired yet.
    pub fn new(pool: ZeroCopyDmaPool, device_id: i32) -> (g: Self)
        ensures
            g.inner() == pool,
            g.device() == device_id,
            g.gpu_map() == Map::<u32, u64>::empty(),
    {
        GpuDmaPool { pool, device_id, gpu_bufs: HashMap::new() }
    }

    /// First step of allocating a buffer for the GPU: take a free buffer of
    /// the pool, or fail with `QueueFull`.
    pub fn reserve_for_gpu(&mut self) -> (r: HwResult<BufferHandle>)
        requires
            old(self).inner().wf(),
            old(self).inner().statistics().in_flight < u32::MAX,
        ensures
            final(self).inner().wf(),
            final(self).device() == old(self).device(),
            final(self).gpu_map() == old(self).gpu_map(),
            final(self).inner().slots() == old(self).inner().slots(),
            final(self).inner().geometry() == old(self).inner().geometry(),
            final(self).inner().registered_state() == old(self).inner().registered_state(),
            match first_free_slot(old(self).inner().taken_slots(), 0) {
                Some(k) => r matches Ok(h) && h.of_desc(old(self).inner().slots()[k])
                    && final(self).inner().taken_slots() == old(self).inner().taken_slots().update(
                    k,
                    true,
                ) && final(self).inner().statistics() == stats_after_alloc(
                    old(self).inner().statistics(),
                ),
                None => r matches Err(HwError::QueueFull) && final(self).inner().taken_slots() == old(
                    self,
                ).inner().taken_slots() && final(self).inner().statistics() == old(
                    self,
                ).inner().statistics(),
            },
    {
        match self.pool.allocate() {
            Some(h) => Ok(h),
            None => Err(HwError::QueueFull),
        }
    }

    /// Second step: pair the reserved buffer with the GPU memory the driver
    /// allocated for it. When the driver failed, the buffer goes back to
    /// the pool and the failure is reported against `cuMemAlloc`.
    pub fn alloc_for_gpu(&mut self, handle: BufferHandle, gpu_alloc: HwResult<u64>) -> (r:
        HwResult<BufferHandle>)
        requires
            old(self).inner().wf(),
            handle.slot() < old(self).inner().slots().len(),
            old(self).inner().taken_slots()[handle.slot() as int],
        ensures
            final(self).inner().wf(),
            final(self).device() == old(self).device(),
            final(self).inner().slots() == old(self).inner().slots(),
            final(self).inner().geometry() == old(self).inner().geometry(),
            gpu_alloc is Ok ==> r == Ok::<BufferHandle, HwError>(handle) && final(self).gpu_map()
                == old(self).gpu_map().insert(handle.slot(), gpu_alloc->Ok_0) && final(self).inner()
                == old(self).inner(),
            gpu_alloc is Err ==> r is Err && driver_failure(
                r->Err_0,
                "cuMemAlloc"@,
                gpu_alloc->Err_0,
            ) && final(self).gpu_map() == old(self).gpu_map() && final(self).inner().taken_slots()
                == old(self).inner().taken_slots().update(handle.slot() as int, false)
                && final(self).inner().statistics() == stats_after_dealloc(
                old(self).inner().statistics(),
            ),
    {
        match gpu_alloc {
            Ok(gpu_ptr) => {
                self.gpu_bufs.insert(handle.index(), gpu_ptr);
                Ok(handle)
            },
            Err(e) => {
                handle.free(&mut self.pool);
                Err(driver_failure_error("cuMemAlloc", &e))
            },
        }
    }

    /// Get the GPU pointer paired with buffer `index`.
    pub fn gpu_ptr(&self, index: u32) -> (r: Option<u64>)
        ensures
            self.gpu_map().contains_key(index) ==> r == Some(self.gpu_map()[index]),
            !self.gpu_map().contains_key(index) ==> r is None,
    {
        match self.gpu_bufs.get(&index) {
            Some(p) => Some(*p),
            None => None,
        }
    }

    /// Access the underlying pool.
    pub fn pool(&self) -> (p: &ZeroCopyDmaPool)
        ensures
            *p == self.inner(),
    {
        &self.pool
    }
}

} // verus!
