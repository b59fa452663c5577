//! Buffer leasing: the registry of memory regions that I/O operations may
//! use. Regions are keyed by their start address and never overlap; each
//! carries a count of in-flight operations.
use crate::backend::RegisterBuffer;
use crate::text::{decimal_chars, hex_prefixed, push_decimal, push_hex};
use std::collections::BTreeMap;
use vstd::prelude::*;

verus! {

broadcast use {vstd::std_specs::btree::group_btree_axioms, vstd::laws_cmp::group_laws_cmp};

/// A registered memory region that can be used with I/O operations.
#[derive(Clone, Copy, Debug)]
pub struct LeaseRegion {
    /// Start address of the region.
    pub start: usize,
    /// Length in bytes.
    pub len: usize,
    /// Reference count of in-flight operations using this region.
    pub in_flight: u32,
}

impl LeaseRegion {
    /// One past the last address of the region.
    pub open spec fn end(&self) -> int {
        self.start + self.len
    }

    /// Whether `addr` lies inside the region.
    pub open spec fn covers(&self, addr: int) -> bool {
        self.start <= addr < self.end()
    }

    /// Returns true if the given address falls within this region.
    pub fn contains(&self, addr: usize) -> (b: bool)
        requires
            self.end() <= usize::MAX,
        ensures
            b == self.covers(addr as int),
    {
        addr >= self.start && addr < self.start + self.len
    }

    /// Returns true if this region is currently in use by I/O operations.
    pub fn is_in_flight(&self) -> (b: bool)
        ensures
            b == (self.in_flight > 0),
    {
        self.in_flight > 0
    }
}

/// Errors that can occur during buffer leasing operations.
#[derive(Debug)]
pub enum LeaseError {
    /// The buffer overlaps with an already-registered region.
    Overlap { existing_start: usize, existing_len: usize },
    /// The buffer is not registered.
    NotRegistered,
    /// The buffer is currently in-flight and cannot be unregistered.
    InFlight { count: u32 },
    /// The buffer access goes out of the registered region bounds.
    OutOfBounds { requested_end: usize, region_end: usize },
    /// Buffer lease violation detected.
    Violation { addr: usize, msg: String },
}

/// The human-readable description of a lease error.
pub open spec fn lease_error_text(e: &LeaseError) -> Seq<char> {
    match e {
        LeaseError::Overlap { existing_start, existing_len } => "buffer overlaps with registered region at "@
            + hex_prefixed(*existing_start as nat) + " (len="@ + decimal_chars(*existing_len as nat)
            + ")"@,
        LeaseError::NotRegistered => "buffer is not registered with the lease registry"@,
        LeaseError::InFlight { count } => "buffer is in-flight ("@ + decimal_chars(*count as nat)
            + " operations) and cannot be unregistered"@,
        LeaseError::OutOfBounds { requested_end, region_end } =>
            "buffer access extends past registered region (requested end="@ + hex_prefixed(
            *requested_end as nat,
        ) + ", region end="@ + hex_prefixed(*region_end as nat) + ")"@,
        LeaseError::Violation { addr, msg } => "Torus Panic at "@ + hex_prefixed(*addr as nat)
            + ": "@ + msg@,
    }
}

impl LeaseError {
    /// The human-readable description of this error.
    pub fn display_string(&self) -> (s: String)
        ensures
            s@ == lease_error_text(self),
    {
        match self {
            LeaseError::Overlap { existing_start, existing_len } => {
                let mut s = String::from_str("buffer overlaps with registered region at ");
                push_hex(&mut s, *existing_start as u64);
                s.append(" (len=");
                push_decimal(&mut s, *existing_len as u64);
                s.append(")");
                s
            },
            LeaseError::NotRegistered => String::from_str(
                "buffer is not registered with the lease registry",
            ),
            LeaseError::InFlight { count } => {
                let mut s = String::from_str("buffer is in-flight (");
                push_decimal(&mut s, *count as u64);
                s.append(" operations) and cannot be unregistered");
                s
            },
            LeaseError::OutOfBounds { requested_end, region_end } => {
                let mut s = String::from_str(
                    "buffer access extends past registered region (requested end=",
                );
                push_hex(&mut s, *requested_end as u64);
                s.append(", region end=");
                push_hex(&mut s, *region_end as u64);
                s.append(")");
                s
            },
            LeaseError::Violation { addr, msg } => {
                let mut s = String::from_str("Torus Panic at ");
                push_hex(&mut s, *addr as u64);
                s.append(": ");
                s.append(msg.as_str());
                s
            },
        }
    }
}

/// `k` is the largest registered start strictly below `bound`.
pub open spec fn is_last_below(m: Map<usize, LeaseRegion>, bound: int, k: usize) -> bool {
    &&& m.contains_key(k)
    &&& k < bound
    &&& forall|j: usize| #[trigger] m.contains_key(j) && j < bound ==> j <= k
}

/// Some registered start lies strictly below `bound`.
pub open spec fn any_below(m: Map<usize, LeaseRegion>, bound: int) -> bool {
    exists|j: usize| #[trigger] m.contains_key(j) && j < bound
}

/// The largest registered start strictly below `bound` (meaningful when
/// `any_below(m, bound)`).
pub open spec fn last_key_below(m: Map<usize, LeaseRegion>, bound: int) -> usize {
    choose|k: usize| #[trigger] is_last_below(m, bound, k)
}

/// The registered start that a lookup of `addr` lands on: the largest
/// start at or below `addr`.
pub open spec fn region_key_at(m: Map<usize, LeaseRegion>, addr: int) -> usize {
    last_key_below(m, addr + 1)
}

/// Registering `[start, start + len)` is refused: the region with the
/// largest start below `start + len` reaches past `start`.
pub open spec fn register_blocked(m: Map<usize, LeaseRegion>, start: int, len: int) -> bool {
    has_last_below(m, start + len) && m[last_key_below(m, start + len)].end() > start
}

/// The region that registering `[start, start + len)` stores.
pub open spec fn fresh_region(start: usize, len: usize) -> LeaseRegion {
    LeaseRegion { start, len, in_flight: 0 }
}

/// Only one registered start can be the largest below a bound.
proof fn lemma_last_below_unique(m: Map<usize, LeaseRegion>, bound: int, k: usize)
    requires
        is_last_below(m, bound, k),
    ensures
        any_below(m, bound),
        has_last_below(m, bound),
        last_key_below(m, bound) == k,
{
    assert(m.contains_key(k) && k < bound);
    let c = last_key_below(m, bound);
    assert(is_last_below(m, bound, c));
    assert(c <= k && k <= c);
}

/// Changing the in-flight count of a registered region keeps the regions
/// well formed.
proof fn lemma_update_keeps_wf(m: Map<usize, LeaseRegion>, k: usize, v: LeaseRegion)
    requires
        regions_wf(m),
        m.contains_key(k),
        v.start == m[k].start,
        v.len == m[k].len,
    ensures
        regions_wf(m.insert(k, v)),
{
    let n = m.insert(k, v);
    assert forall|a: usize, b: usize|
        #![trigger n.contains_key(a), n.contains_key(b)]
        n.contains_key(a) && n.contains_key(b) && a < b implies n[a].end() <= b by {
        assert(m.contains_key(a) && m.contains_key(b));
    }
}

/// Registering a region that is not blocked keeps the regions well formed.
proof fn lemma_register_keeps_wf(
    m: Map<usize, LeaseRegion>,
    start: usize,
    len: usize,
    found: Option<usize>,
)
    requires
        regions_wf(m),
        start + len <= usize::MAX,
        match found {
            Some(l) => is_last_below(m, start + len, l) && m[l].end() <= start,
            None => !any_below(m, start + len),
        },
    ensures
        regions_wf(m.insert(start, fresh_region(start, len))),
{
    let n = m.insert(start, fresh_region(start, len));
    let end = start + len;
    if let Some(l) = found {
        assert forall|a: usize, b: usize|
            #![trigger n.contains_key(a), n.contains_key(b)]
            n.contains_key(a) && n.contains_key(b) && a < b implies n[a].end() <= b by {
            if a == start {
                assert(b >= end) by {
                    if b < end {
                        assert(m.contains_key(b));
                        assert(b <= l);
                    }
                }
            } else if b == start {
                assert(m.contains_key(a) && a < end);
                assert(a <= l);
                if a < l {
                    assert(m.contains_key(l));
                }
            } else {
                assert(m.contains_key(a) && m.contains_key(b));
            }
        }
    } else {
        assert forall|a: usize, b: usize|
            #![trigger n.contains_key(a), n.contains_key(b)]
            n.contains_key(a) && n.contains_key(b) && a < b implies n[a].end() <= b by {
            if a == start {
                assert(b >= end) by {
                    if b < end {
                        assert(m.contains_key(b));
                    }
                }
            } else if b == start {
                assert(m.contains_key(a) && a < end);
            } else {
                assert(m.contains_key(a) && m.contains_key(b));
            }
        }
    }
}

/// The map of regions is well formed: every region is stored under its
/// own start, ends within the address space, and ends at or before the
/// start of any region registered above it.
pub open spec fn regions_wf(m: Map<usize, LeaseRegion>) -> bool {
    &&& forall|k: usize| #[trigger] m.contains_key(k) ==> m[k].start == k && m[k].end() <= usize::MAX
    &&& forall|a: usize, b: usize|
        #![trigger m.contains_key(a), m.contains_key(b)]
        m.contains_key(a) && m.contains_key(b) && a < b ==> m[a].end() <= b
}

/// There is a largest registered start strictly below `bound`.
pub open spec fn has_last_below(m: Map<usize, LeaseRegion>, bound: int) -> bool {
    exists|k: usize| #[trigger] is_last_below(m, bound, k)
}

/// A lookup of `addr` lands on a region that covers it.
pub open spec fn lookup_hits(m: Map<usize, LeaseRegion>, addr: int) -> bool {
    has_last_below(m, addr + 1) && m[region_key_at(m, addr)].covers(addr)
}

/// The regions after checking out `addr` (which must hit): the region it
/// lands on gains one in-flight operation.
pub open spec fn checked_out(m: Map<usize, LeaseRegion>, addr: int) -> Map<usize, LeaseRegion> {
    let k = region_key_at(m, addr);
    m.insert(k, LeaseRegion { in_flight: (m[k].in_flight + 1) as u32, ..m[k] })
}

/// The regions after checking in `addr`: the region it lands on loses
/// one in-flight operation, if it covers `addr` and has any.
pub open spec fn checked_in(m: Map<usize, LeaseRegion>, addr: int) -> Map<usize, LeaseRegion> {
    let k = region_key_at(m, addr);
    if lookup_hits(m, addr) && m[k].in_flight > 0 {
        m.insert(k, LeaseRegion { in_flight: (m[k].in_flight - 1) as u32, ..m[k] })
    } else {
        m
    }
}

/// Some registered region has operations in flight.
pub open spec fn any_in_flight(m: Map<usize, LeaseRegion>) -> bool {
    exists|k: usize| #[trigger] m.contains_key(k) && m[k].in_flight > 0
}

/// Checking in an address right after a successful checkout of it
/// restores the regions exactly.
pub proof fn law_checkin_undoes_checkout(m: Map<usize, LeaseRegion>, addr: int)
    requires
        regions_wf(m),
        lookup_hits(m, addr),
        m[region_key_at(m, addr)].in_flight < u32::MAX,
    ensures
        checked_in(checked_out(m, addr), addr) == m,
{
    let k = region_key_at(m, addr);
    let m2 = checked_out(m, addr);
    assert(is_last_below(m, addr + 1, k));
    assert(is_last_below(m2, addr + 1, k)) by {
        assert forall|j: usize| #[trigger] m2.contains_key(j) && j < addr + 1 implies j <= k by {
            assert(m.contains_key(j));
        }
    }
    lemma_last_below_unique(m2, addr + 1, k);
    assert(checked_in(m2, addr) =~= m);
}

/// After a successful checkout the address is covered by a region with an
/// operation in flight, so `verify` reports it in flight and
/// `has_in_flight` holds.
pub proof fn law_checkout_marks_in_flight(m: Map<usize, LeaseRegion>, addr: int)
    requires
        regions_wf(m),
        lookup_hits(m, addr),
        m[region_key_at(m, addr)].in_flight < u32::MAX,
    ensures
        lookup_hits(checked_out(m, addr), addr),
        checked_out(m, addr)[region_key_at(checked_out(m, addr), addr)].in_flight > 0,
        any_in_flight(checked_out(m, addr)),
{
    let k = region_key_at(m, addr);
    let m2 = checked_out(m, addr);
    assert(is_last_below(m, addr + 1, k));
    assert(is_last_below(m2, addr + 1, k)) by {
        assert forall|j: usize| #[trigger] m2.contains_key(j) && j < addr + 1 implies j <= k by {
            assert(m.contains_key(j));
        }
    }
    lemma_last_below_unique(m2, addr + 1, k);
    assert(m2.contains_key(k) && m2[k].in_flight > 0);
}

/// Unregistering a region right after registering it at a fresh start
/// succeeds (nothing is in flight on it) and restores the regions exactly.
pub proof fn law_unregister_undoes_register(m: Map<usize, LeaseRegion>, start: usize, len: usize)
    requires
        !m.contains_key(start),
    ensures
        m.insert(start, fresh_region(start, len)).contains_key(start),
        m.insert(start, fresh_region(start, len))[start].in_flight == 0,
        m.insert(start, fresh_region(start, len)).remove(start) == m,
{
    assert(m.insert(start, fresh_region(start, len)).remove(start) =~= m);
}

/// Registry of memory regions that have been leased to the I/O engine.
pub struct LeaseRegistry {
    regions: BTreeMap<usize, LeaseRegion>,
}

impl View for LeaseRegistry {
    type V = Map<usize, LeaseRegion>;

    closed spec fn view(&self) -> Map<usize, LeaseRegion> {
        self.regions@
    }
}

impl LeaseRegistry {
    #[verifier::type_invariant]
    spec fn inv(self) -> bool {
        regions_wf(self.regions@)
    }

    /// Create a new empty lease registry.
    pub fn new() -> (r: Self)
        ensures
            r@ == Map::<usize, LeaseRegion>::empty(),
    {
        LeaseRegistry { regions: BTreeMap::new() }
    }

    /// Register the memory region `[ptr, ptr + len)` for use with I/O
    /// operations. It is refused with `Overlap` when the region with the
    /// largest start below `ptr + len` reaches past `ptr`; otherwise the
    /// region is stored under `ptr` with no operation in flight.
    pub fn register(&mut self, ptr: usize, len: usize) -> (r: Result<(), LeaseError>)
        requires
            ptr + len <= usize::MAX,
        ensures
            regions_wf(final(self)@),
            match r {
                Ok(()) => {
                    &&& !register_blocked(old(self)@, ptr as int, len as int)
                    &&& final(self)@ == old(self)@.insert(ptr, fresh_region(ptr, len))
                },
                Err(LeaseError::Overlap { existing_start, existing_len }) => {
                    &&& register_blocked(old(self)@, ptr as int, len as int)
                    &&& existing_start == last_key_below(old(self)@, ptr + len)
                    &&& existing_len == old(self)@[existing_start].len
                    &&& final(self)@ == old(self)@
                },
                Err(_) => false,
            },
    {
        proof {
            use_type_invariant(&*self);
        }
        let end = ptr + len;
        let found = self.last_below(end);
        match found {
            Some(existing) => {
                proof {
                    lemma_last_below_unique(self@, end as int, existing.start);
                }
                if existing.start + existing.len > ptr {
                    return Err(
                        LeaseError::Overlap {
                            existing_start: existing.start,
                            existing_len: existing.len,
                        },
                    );
                }
                proof {
                    lemma_register_keeps_wf(self@, ptr, len, Some(existing.start));
                }
            },
            None => {
                proof {
                    lemma_register_keeps_wf(self@, ptr, len, None);
                }
            },
        }
        let mut regions = BTreeMap::new();
        std::mem::swap(&mut regions, &mut self.regions);
        regions.insert(ptr, LeaseRegion { start: ptr, len, in_flight: 0 });
        self.regions = regions;
        proof {
            use_type_invariant(&*self);
        }
        Ok(())
    }

    /// Register a mutable memory region; the same as [`Self::register`].
    pub fn register_mut(&mut self, ptr: usize, len: usize) -> (r: Result<(), LeaseError>)
        requires
            ptr + len <= usize::MAX,
        ensures
            regions_wf(final(self)@),
            match r {
                Ok(()) => {
                    &&& !register_blocked(old(self)@, ptr as int, len as int)
                    &&& final(self)@ == old(self)@.insert(ptr, fresh_region(ptr, len))
                },
                Err(LeaseError::Overlap { existing_start, existing_len }) => {
                    &&& register_blocked(old(self)@, ptr as int, len as int)
                    &&& existing_start == last_key_below(old(self)@, ptr + len)
                    &&& existing_len == old(self)@[existing_start].len
                    &&& final(self)@ == old(self)@
                },
                Err(_) => false,
            },
    {
        self.register(ptr, len)
    }

    /// Unregister the region registered at `ptr`. Refused with
    /// `NotRegistered` when no region starts there and with `InFlight`
    /// while operations are in flight on it.
    pub fn unregister(&mut self, ptr: usize) -> (r: Result<(), LeaseError>)
        ensures
            regions_wf(final(self)@),
            match r {
                Ok(()) => {
                    &&& old(self)@.contains_key(ptr)
                    &&& old(self)@[ptr].in_flight == 0
                    &&& final(self)@ == old(self)@.remove(ptr)
                },
                Err(LeaseError::NotRegistered) => {
                    &&& !old(self)@.contains_key(ptr)
                    &&& final(self)@ == old(self)@
                },
                Err(LeaseError::InFlight { count }) => {
                    &&& old(self)@.contains_key(ptr)
                    &&& count == old(self)@[ptr].in_flight
                    &&& count > 0
                    &&& final(self)@ == old(self)@
                },
                Err(_) => false,
            },
    {
        proof {
            use_type_invariant(&*self);
        }
        let count = match self.regions.get(&ptr) {
            Some(region) => region.in_flight,
            None => {
                return Err(LeaseError::NotRegistered);
            },
        };
        if count > 0 {
            return Err(LeaseError::InFlight { count });
        }
        let mut regions = BTreeMap::new();
        std::mem::swap(&mut regions, &mut self.regions);
        regions.remove(&ptr);
        self.regions = regions;
        proof {
            use_type_invariant(&*self);
        }
        Ok(())
    }

    /// Find the region a lookup of `addr` lands on and check that
    /// `[addr, addr + len)` lies inside it.
    fn find_for_access(&self, addr: usize, len: usize) -> (r: Result<LeaseRegion, LeaseError>)
        requires
            addr < usize::MAX,
            addr + len <= usize::MAX,
        ensures
            match r {
                Ok(reg) => {
                    &&& lookup_hits(self@, addr as int)
                    &&& reg == self@[region_key_at(self@, addr as int)]
                    &&& addr + len <= reg.end()
                },
                Err(LeaseError::NotRegistered) => !lookup_hits(self@, addr as int),
                Err(LeaseError::OutOfBounds { requested_end, region_end }) => {
                    &&& lookup_hits(self@, addr as int)
                    &&& requested_end == addr + len
                    &&& region_end == self@[region_key_at(self@, addr as int)].end()
                    &&& addr + len > region_end
                },
                Err(_) => false,
            },
    {
        proof {
            use_type_invariant(self);
        }
        let region = match self.last_below(addr + 1) {
            Some(reg) => reg,
            None => {
                return Err(LeaseError::NotRegistered);
            },
        };
        proof {
            lemma_last_below_unique(self@, addr + 1, region.start);
        }
        if !region.contains(addr) {
            return Err(LeaseError::NotRegistered);
        }
        if addr + len > region.start + region.len {
            return Err(
                LeaseError::OutOfBounds {
                    requested_end: addr + len,
                    region_end: region.start + region.len,
                },
            );
        }
        Ok(region)
    }

    /// Check that `[addr, addr + len)` lies inside a registered region and
    /// mark that region as having one more operation in flight.
    pub fn checkout(&mut self, addr: usize, len: usize) -> (r: Result<(), LeaseError>)
        requires
            addr < usize::MAX,
            addr + len <= usize::MAX,
            forall|k: usize|
                #[trigger] old(self)@.contains_key(k) && old(self)@[k].covers(addr as int)
                    ==> old(self)@[k].in_flight < u32::MAX,
        ensures
            regions_wf(final(self)@),
            match r {
                Ok(()) => {
                    &&& lookup_hits(old(self)@, addr as int)
                    &&& addr + len <= old(self)@[region_key_at(old(self)@, addr as int)].end()
                    &&& final(self)@ == checked_out(old(self)@, addr as int)
                },
                Err(LeaseError::NotRegistered) => {
                    &&& !lookup_hits(old(self)@, addr as int)
                    &&& final(self)@ == old(self)@
                },
                Err(LeaseError::OutOfBounds { requested_end, region_end }) => {
                    &&& lookup_hits(old(self)@, addr as int)
                    &&& requested_end == addr + len
                    &&& region_end == old(self)@[region_key_at(old(self)@, addr as int)].end()
                    &&& addr + len > region_end
                    &&& final(self)@ == old(self)@
                },
                Err(_) => false,
            },
    {
        proof {
            use_type_invariant(&*self);
        }
        let region = match self.find_for_access(addr, len) {
            Ok(reg) => reg,
            Err(e) => {
                return Err(e);
            },
        };
        proof {
            assert(self@.contains_key(region.start));
        }
        let updated = LeaseRegion {
            start: region.start,
            len: region.len,
            in_flight: region.in_flight + 1,
        };
        proof {
            lemma_update_keeps_wf(self@, region.start, updated);
        }
        let mut regions = BTreeMap::new();
        std::mem::swap(&mut regions, &mut self.regions);
        regions.insert(region.start, updated);
        self.regions = regions;
        proof {
            use_type_invariant(&*self);
        }
        Ok(())
    }

    /// Mark a buffer as no longer in flight after I/O completion: the
    /// region a lookup of `addr` lands on, if it covers `addr` and has
    /// operations in flight, loses one.
    pub fn checkin(&mut self, addr: usize)
        requires
            addr < usize::MAX,
        ensures
            regions_wf(final(self)@),
            final(self)@ == checked_in(old(self)@, addr as int),
    {
        proof {
            use_type_invariant(&*self);
        }
        if let Some(region) = self.last_below(addr + 1) {
            proof {
                lemma_last_below_unique(self@, addr + 1, region.start);
            }
            if region.contains(addr) && region.in_flight > 0 {
                let updated = LeaseRegion {
                    start: region.start,
                    len: region.len,
                    in_flight: region.in_flight - 1,
                };
                let mut regions = BTreeMap::new();
                std::mem::swap(&mut regions, &mut self.regions);
                regions.insert(region.start, updated);
                self.regions = regions;
            }
        }
        proof {
            use_type_invariant(&*self);
        }
    }

    /// Verify that `[addr, addr + len)` lies inside a registered region;
    /// `Ok(true)` when that region has operations in flight.
    pub fn verify(&self, addr: usize, len: usize) -> (r: Result<bool, LeaseError>)
        requires
            addr < usize::MAX,
            addr + len <= usize::MAX,
        ensures
            match r {
                Ok(b) => {
                    &&& lookup_hits(self@, addr as int)
                    &&& addr + len <= self@[region_key_at(self@, addr as int)].end()
                    &&& b == (self@[region_key_at(self@, addr as int)].in_flight > 0)
                },
                Err(LeaseError::NotRegistered) => !lookup_hits(self@, addr as int),
                Err(LeaseError::OutOfBounds { requested_end, region_end }) => {
                    &&& lookup_hits(self@, addr as int)
                    &&& requested_end == addr + len
                    &&& region_end == self@[region_key_at(self@, addr as int)].end()
                    &&& addr + len > region_end
                },
                Err(_) => false,
            },
    {
        match self.find_for_access(addr, len) {
            Ok(region) => Ok(region.in_flight > 0),
            Err(e) => Err(e),
        }
    }

    /// Number of registered regions.
    pub fn region_count(&self) -> (n: usize)
        ensures
            n == self@.len(),
    {
        self.regions.len()
    }

    /// The registered regions as buffers to register with a backend: one
    /// per region, its start and length.
    pub fn as_register_buffers(&self) -> (v: Vec<RegisterBuffer>)
        ensures
            v@.len() == self@.len(),
            forall|i: int|
                0 <= i < v@.len() ==> self@.contains_key((#[trigger] v@[i]).ptr) && self@[v@[i].ptr].len
                    == v@[i].len,
            forall|k: usize|
                #[trigger] self@.contains_key(k) ==> exists|i: int| 0 <= i < v@.len() && v@[i].ptr == k,
    {
        proof {
            use_type_invariant(self);
        }
        let ghost m = self.regions@;
        let ghost s = vstd::std_specs::iter::IteratorSpec::remaining(
            &vstd::std_specs::btree::spec_btree_map_iter(&self.regions),
        );
        let ghost mut done: int = 0;
        let mut v: Vec<RegisterBuffer> = Vec::new();
        for kv in it: self.regions.iter()
            invariant
                self.regions@ == m,
                regions_wf(m),
                it.seq() == s,
                done == it.index(),
                s.len() == m.len(),
                forall|k: usize| #[trigger] m.contains_key(k) ==> s.contains((&k, &m[k])),
                forall|i: int|
                    0 <= i < s.len() ==> m.contains_key(*s[i].0) && m[*s[i].0] == *s[i].1,
                v@.len() == done,
                forall|j: int|
                    0 <= j < done ==> (#[trigger] v@[j]).ptr == *s[j].0 && v@[j].len == s[j].1.len,
        {
            let (k, r) = kv;
            proof {
                assert(kv == s[done]);
                assert(m.contains_key(*s[done].0) && m[*s[done].0] == *s[done].1);
                done = done + 1;
            }
            v.push(RegisterBuffer { ptr: *k, len: r.len });
        }
        proof {
            assert forall|k: usize| #[trigger] m.contains_key(k) implies exists|i: int|
                0 <= i < v@.len() && v@[i].ptr == k by {
                assert(s.contains((&k, &m[k])));
                let i = choose|i: int| 0 <= i < s.len() && s[i] == (&k, &m[k]);
                assert(v@[i].ptr == k);
            }
        }
        v
    }

    /// Check if any regions are currently in flight.
    pub fn has_in_flight(&self) -> (b: bool)
        ensures
            b == any_in_flight(self@),
    {
        let ghost m = self.regions@;
        let ghost s = vstd::std_specs::iter::IteratorSpec::remaining(
            &vstd::std_specs::btree::spec_btree_map_iter(&self.regions),
        );
        let ghost mut done: int = 0;
        let mut found = false;
        for kv in it: self.regions.iter()
            invariant
                self.regions@ == m,
                it.seq() == s,
                done == it.index(),
                s.len() == m.len(),
                forall|k: usize| #[trigger] m.contains_key(k) ==> s.contains((&k, &m[k])),
                forall|i: int|
                    0 <= i < s.len() ==> m.contains_key(*s[i].0) && m[*s[i].0] == *s[i].1,
                found ==> any_in_flight(m),
                !found ==> forall|j: int| 0 <= j < done ==> s[j].1.in_flight == 0,
        {
            let (k, v) = kv;
            proof {
                assert(kv == s[done]);
                assert(m.contains_key(*s[done].0) && m[*s[done].0] == *s[done].1);
                done = done + 1;
            }
            if v.in_flight > 0 {
                found = true;
            }
        }
        proof {
            if !found {
                assert forall|k: usize| #[trigger] m.contains_key(k) implies m[k].in_flight == 0 by {
                    assert(s.contains((&k, &m[k])));
                    let i = choose|i: int| 0 <= i < s.len() && s[i] == (&k, &m[k]);
                }
            }
        }
        found
    }

    /// The region with the largest start strictly below `bound`, if any.
    fn last_below(&self, bound: usize) -> (r: Option<LeaseRegion>)
        ensures
            match r {
                Some(reg) => is_last_below(self@, bound as int, reg.start) && self@[reg.start] == reg,
                None => !any_below(self@, bound as int),
            },
    {
        proof {
            use_type_invariant(self);
        }
        let ghost m = self.regions@;
        let mut best: Option<LeaseRegion> = None;
        let ghost s = vstd::std_specs::iter::IteratorSpec::remaining(&vstd::std_specs::btree::spec_btree_map_iter(&self.regions));
        let ghost mut done: int = 0;
        for kv in it: self.regions.iter()
            invariant
                self.regions@ == m,
                regions_wf(m),
                it.seq() == s,
                done == it.index(),
                s.len() == m.len(),
                forall|k: usize| #[trigger] m.contains_key(k) ==> s.contains((&k, &m[k])),
                match best {
                    Some(reg) => {
                        &&& is_last_below_upto(m, bound as int, reg.start)
                        &&& m[reg.start] == reg
                        &&& forall|j: int|
                            0 <= j < done && *s[j].0 < bound ==> *s[j].0 <= reg.start
                    },
                    None => forall|j: int| 0 <= j < done ==> *s[j].0 >= bound,
                },
        {
            let (k, v) = kv;
            proof {
                assert(kv == s[done]);
                assert(m.contains_key(*s[done].0) && m[*s[done].0] == *s[done].1);
                assert(v.start == *k);
                done = done + 1;
            }
            if *k < bound {
                match best {
                    Some(reg) => {
                        if *k > reg.start {
                            best = Some(*v);
                        }
                    },
                    None => {
                        best = Some(*v);
                    },
                }
            }
        }
        proof {
            assert forall|j: usize| #[trigger] m.contains_key(j) && j < bound implies (match best {
                Some(reg) => j <= reg.start,
                None => false,
            }) by {
                assert(s.contains((&j, &m[j])));
                let i = choose|i: int| 0 <= i < s.len() && s[i] == (&j, &m[j]);
                assert(*s[i].0 == j);
            }
        }
        best
    }
}

/// `k` is a registered start below `bound` (helper for the lookup loop).
pub open spec fn is_last_below_upto(m: Map<usize, LeaseRegion>, bound: int, k: usize) -> bool {
    m.contains_key(k) && k < bound
}

impl Default for LeaseRegistry {
    /// An empty registry.
    fn default() -> (r: Self)
        ensures
            r@ == Map::<usize, LeaseRegion>::empty(),
    {
        Self::new()
    }
}

} // verus!
