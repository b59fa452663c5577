//! Virtual submission and completion rings: power-of-two sized, with
//! free-running 32-bit head and tail counters whose wrapping difference is
//! the ring's occupancy; a slot is found by masking a counter with the size.
use crate::result::TorusResult;
use crate::sys::{io_uring_cqe, io_uring_sqe};
use vstd::prelude::*;

verus! {

/// `n` is a power of two (exactly one bit set).
pub open spec fn pow2_u32(n: u32) -> bool {
    n != 0 && n & ((n - 1) as u32) == 0
}

/// Returns whether `n` is a power of two.
pub fn is_power_of_two(n: u32) -> (b: bool)
    ensures
        b == pow2_u32(n),
{
    n != 0 && (n & (n - 1)) == 0
}

/// Number of entries between `head` and `tail`: the 32-bit wrapping
/// distance from the head to the tail.
pub open spec fn occupancy(head: u32, tail: u32) -> u32 {
    tail.wrapping_sub(head)
}

proof fn lemma_wrapping_sub_is_truncation(x: u32, y: u32)
    ensures
        x.wrapping_sub(y) == ((x - y) as u32),
{
    assert(x.wrapping_sub(y) == ((x - y) as u32)) by (bit_vector);
}

proof fn lemma_wrapping_add_is_truncation(x: u32, y: u32)
    ensures
        x.wrapping_add(y) == ((x + y) as u32),
{
    assert(x.wrapping_add(y) == ((x + y) as u32)) by (bit_vector);
}

/// A masked value never exceeds its mask.
proof fn lemma_mask_le(x: u32, m: u32)
    ensures
        x & m <= m,
{
    assert(x & m <= m) by (bit_vector);
}

/// Publishing `k` entries into a ring that keeps at most `e` entries
/// adds exactly `k` to the occupancy, so the free slots drop by exactly `k`.
pub proof fn lemma_occupancy_after_publish(head: u32, tail: u32, e: u32, k: u32)
    requires
        occupancy(head, tail) + k <= e,
    ensures
        occupancy(head, tail.wrapping_add(k)) == occupancy(head, tail) + k,
{
    lemma_wrapping_sub_is_truncation(tail, head);
    lemma_wrapping_add_is_truncation(tail, k);
    let t2 = tail.wrapping_add(k);
    lemma_wrapping_sub_is_truncation(t2, head);
    assert(((((tail + k) as u32) - head) as u32) == (((tail - head) as u32) + k)) by (bit_vector)
        requires
            ((tail - head) as u32) + k <= e,
    ;
}

/// Advancing the head by one removes one entry from a non-empty ring.
proof fn lemma_occupancy_after_consume(head: u32, tail: u32)
    requires
        occupancy(head, tail) > 0,
    ensures
        occupancy(head.wrapping_add(1), tail) == occupancy(head, tail) - 1,
{
    lemma_wrapping_sub_is_truncation(tail, head);
    lemma_wrapping_add_is_truncation(head, 1);
    let h2 = head.wrapping_add(1);
    lemma_wrapping_sub_is_truncation(tail, h2);
    assert(((tail - ((head + 1) as u32)) as u32) == ((((tail - head) as u32) - 1) as u32)) by (bit_vector)
        requires
            ((tail - head) as u32) > 0,
    ;
}

/// Virtual submission queue: the user-space abstraction over an io_uring SQ.
pub struct SubmissionRing {
    /// Ring size (a power of two).
    pub entries: u32,
    /// Slot index array.
    pub sq: Vec<u32>,
    /// Submission entries, one per slot.
    pub sqe: Vec<io_uring_sqe>,
    /// Head counter, advanced by the consumer (kernel or reactor).
    pub head: u32,
    /// Tail counter, advanced by the application when publishing entries.
    pub tail: u32,
}

impl SubmissionRing {
    /// The ring size.
    pub open spec fn size(&self) -> u32 {
        self.entries
    }

    /// Well-formedness: the size is a power of two and the slot arrays
    /// have one element per entry.
    pub open spec fn wf(&self) -> bool {
        &&& pow2_u32(self.entries)
        &&& self.sq.len() == self.entries
        &&& self.sqe.len() == self.entries
    }

    /// The entries published and not yet consumed: at most the ring size
    /// while producer and consumer keep to the ring.
    pub open spec fn pending(&self) -> u32 {
        occupancy(self.head, self.tail)
    }

    /// The ring size of a well-formed ring is a power of two.
    pub proof fn lemma_size_pow2(&self)
        requires
            self.wf(),
        ensures
            pow2_u32(self.size()),
    {
    }

    /// Create a new virtual submission ring with the given capacity.
    pub fn new(entries: u32) -> (r: Self)
        requires
            pow2_u32(entries),
        ensures
            r.wf(),
            r.size() == entries,
            r.head == 0,
            r.tail == 0,
    {
        let mut sq: Vec<u32> = Vec::with_capacity(entries as usize);
        let mut i: u32 = 0;
        while i < entries
            invariant
                i <= entries,
                sq.len() == i,
            decreases entries - i,
        {
            sq.push(0);
            i = i + 1;
        }
        let mut sqe: Vec<io_uring_sqe> = Vec::with_capacity(entries as usize);
        let mut j: u32 = 0;
        while j < entries
            invariant
                j <= entries,
                sqe.len() == j,
            decreases entries - j,
        {
            sqe.push(io_uring_sqe::zeroed());
            j = j + 1;
        }
        SubmissionRing { entries, sq, sqe, head: 0, tail: 0 }
    }

    /// Number of entries in the ring.
    pub fn entries(&self) -> (n: u32)
        ensures
            n == self.size(),
    {
        self.entries
    }

    /// How many entries are currently available for submission: the size
    /// less the entries published and not yet consumed.
    pub fn free_slots(&self) -> (n: u32)
        requires
            self.pending() <= self.size(),
        ensures
            n == self.size() - self.pending(),
    {
        self.entries - self.tail.wrapping_sub(self.head)
    }

    /// Returns `true` if the ring has room for at least one more entry.
    pub fn has_room(&self) -> (b: bool)
        requires
            self.pending() <= self.size(),
        ensures
            b == (self.pending() < self.size()),
    {
        self.free_slots() > 0
    }

    /// Publish `count` new entries: advance the tail (wrapping) and return
    /// its previous value.
    pub fn publish(&mut self, count: u32) -> (prev: u32)
        ensures
            prev == old(self).tail,
            final(self).tail == old(self).tail.wrapping_add(count),
            final(self).head == old(self).head,
            final(self).size() == old(self).size(),
            final(self).wf() == old(self).wf(),
    {
        let prev = self.tail;
        self.tail = self.tail.wrapping_add(count);
        prev
    }
}

/// Whether every field of a completion entry is zero.
pub open spec fn cqe_is_zero(c: io_uring_cqe) -> bool {
    c.user_data == 0 && c.res == 0 && c.flags == 0
}

/// The completion a completion-queue entry stands for.
pub open spec fn cqe_completion(c: io_uring_cqe) -> TorusResult {
    TorusResult { result: c.res as i64, user_data: c.user_data }
}

/// Virtual completion queue: the user-space abstraction over an io_uring CQ.
pub struct CompletionRing {
    /// Ring size (a power of two).
    pub entries: u32,
    /// Completion entries, one per slot.
    pub cqes: Vec<io_uring_cqe>,
    /// Head counter, advanced by the application when consuming completions.
    pub head: u32,
    /// Tail counter, advanced by the producer (kernel or reactor).
    pub tail: u32,
}

impl CompletionRing {
    /// The ring size.
    pub open spec fn size(&self) -> u32 {
        self.entries
    }

    /// The completion entries, indexed by slot.
    pub open spec fn slots(&self) -> Seq<io_uring_cqe> {
        self.cqes@
    }

    /// Well-formedness: the size is a power of two and there is one entry
    /// slot per ring entry.
    pub open spec fn wf(&self) -> bool {
        &&& pow2_u32(self.entries)
        &&& self.cqes.len() == self.entries
    }

    /// The ring size of a well-formed ring is a power of two, and there is
    /// one slot per entry.
    pub proof fn lemma_wf_facts(&self)
        requires
            self.wf(),
        ensures
            pow2_u32(self.size()),
            self.slots().len() == self.size(),
    {
    }

    /// Number of completions ready to be consumed: those published and not
    /// yet consumed (at most the ring size while the producer keeps to the
    /// ring).
    pub open spec fn ready(&self) -> u32 {
        occupancy(self.head, self.tail)
    }

    /// The slot that the next completion is read from.
    pub open spec fn head_slot(&self) -> int {
        (self.head & ((self.size() - 1) as u32)) as int
    }

    /// Create a new virtual completion ring with the given capacity.
    pub fn new(entries: u32) -> (r: Self)
        requires
            pow2_u32(entries),
        ensures
            r.wf(),
            r.size() == entries,
            r.head == 0,
            r.tail == 0,
            forall|i: int| 0 <= i < entries ==> cqe_is_zero(#[trigger] r.slots()[i]),
    {
        let mut cqes: Vec<io_uring_cqe> = Vec::with_capacity(entries as usize);
        let mut i: u32 = 0;
        while i < entries
            invariant
                i <= entries,
                cqes.len() == i,
                forall|k: int| 0 <= k < i ==> cqe_is_zero(#[trigger] cqes@[k]),
            decreases entries - i,
        {
            cqes.push(io_uring_cqe::zeroed());
            i = i + 1;
        }
        CompletionRing { entries, cqes, head: 0, tail: 0 }
    }

    /// Number of entries in the ring.
    pub fn entries(&self) -> (n: u32)
        ensures
            n == self.size(),
    {
        self.entries
    }

    /// How many completed entries are available to consume.
    pub fn available(&self) -> (n: u32)
        ensures
            n == self.ready(),
    {
        self.tail.wrapping_sub(self.head)
    }

    /// Returns `true` if there are completions ready to be consumed.
    pub fn has_completions(&self) -> (b: bool)
        ensures
            b == (self.ready() > 0),
    {
        self.available() > 0
    }

    fn slot_index(&self) -> (i: usize)
        requires
            self.wf(),
        ensures
            i == self.head_slot(),
            i < self.cqes.len(),
    {
        proof {
            lemma_mask_le(self.head, (self.entries - 1) as u32);
        }
        (self.head & (self.entries - 1)) as usize
    }

    /// Peek at the next completion without consuming it.
    pub fn peek(&self) -> (r: Option<TorusResult>)
        requires
            self.wf(),
        ensures
            r == (if self.ready() > 0 {
                Some(cqe_completion(self.slots()[self.head_slot()]))
            } else {
                None::<TorusResult>
            }),
    {
        if !self.has_completions() {
            return None;
        }
        let index = self.slot_index();
        let cqe = &self.cqes[index];
        Some(TorusResult::new(cqe.res as i64, cqe.user_data))
    }

    /// Consume the next completion from the ring: advance the head by one
    /// and return the completion it passed over.
    pub fn consume(&mut self) -> (r: Option<TorusResult>)
        requires
            old(self).wf(),
        ensures
            final(self).wf(),
            final(self).size() == old(self).size(),
            final(self).slots() == old(self).slots(),
            final(self).tail == old(self).tail,
            old(self).ready() == 0 ==> r.is_none() && final(self).head == old(self).head,
            old(self).ready() > 0 ==> {
                &&& r == Some(cqe_completion(old(self).slots()[old(self).head_slot()]))
                &&& final(self).head == old(self).head.wrapping_add(1)
                &&& final(self).ready() == old(self).ready() - 1
            },
    {
        if !self.has_completions() {
            return None;
        }
        let index = self.slot_index();
        let res = self.cqes[index].res;
        let ud = self.cqes[index].user_data;
        proof {
            lemma_occupancy_after_consume(self.head, self.tail);
        }
        self.head = self.head.wrapping_add(1);
        Some(TorusResult::new(res as i64, ud))
    }

    /// Drain all available completions, in ring order.
    pub fn drain(&mut self) -> (results: Vec<TorusResult>)
        requires
            old(self).wf(),
        ensures
            final(self).wf(),
            final(self).ready() == 0,
            final(self).head == old(self).head.wrapping_add(old(self).ready()),
            final(self).head == old(self).tail,
            final(self).tail == old(self).tail,
            final(self).size() == old(self).size(),
            final(self).slots() == old(self).slots(),
            results.len() == old(self).ready(),
            forall|i: int|
                0 <= i < results.len() ==> #[trigger] results@[i] == cqe_completion(
                    old(self).slots()[(((old(self).head + i) as u32) & ((old(self).size()
                        - 1) as u32)) as int],
                ),
    {
        let mut results: Vec<TorusResult> = Vec::new();
        let ghost h0 = self.head;
        loop
            invariant
                self.wf(),
                self.tail == old(self).tail,
                self.size() == old(self).size(),
                self.slots() == old(self).slots(),
                results.len() + self.ready() == old(self).ready(),
                self.head == ((h0 + results.len()) as u32),
                h0 == old(self).head,
                forall|i: int|
                    0 <= i < results.len() ==> #[trigger] results@[i] == cqe_completion(
                        old(self).slots()[(((h0 + i) as u32) & ((old(self).size() - 1) as u32)) as int],
                    ),
            ensures
                self.wf(),
                self.ready() == 0,
                self.head == ((h0 + results.len()) as u32),
                self.tail == old(self).tail,
                self.size() == old(self).size(),
                self.slots() == old(self).slots(),
                results.len() == old(self).ready(),
                forall|i: int|
                    0 <= i < results.len() ==> #[trigger] results@[i] == cqe_completion(
                        old(self).slots()[(((h0 + i) as u32) & ((old(self).size() - 1) as u32)) as int],
                    ),
            decreases self.ready(),
        {
            let ghost before = self.head;
            let ghost n = results.len();
            match self.consume() {
                Some(r) => {
                    proof {
                        lemma_wrapping_add_is_truncation(before, 1);
                        assert(before == ((h0 + n) as u32));
                        assert(((((h0 + n) as u32) + 1) as u32) == ((h0 + n + 1) as u32)) by (bit_vector);
                    }
                    results.push(r);
                },
                None => {
                    break ;
                },
            }
        }
        results
    }
}

} // verus!
