//! Cgroup-aware resource limiting: ring sizes and in-flight caps derived
//! from the memory available to the process.
use crate::rings::pow2_u32;
use crate::text::{
    chars_of, find_line_end, has_prefix, line_end, parse_u64, parse_u64_spec, second_field,
    second_field_of, slice_chars, starts_with_chars, trim, trim_chars,
};
use vstd::prelude::*;

verus! {

/// `r` is the smallest power of two that is at least `x`.
pub open spec fn is_next_power_of_two(x: u32, r: u32) -> bool {
    pow2_u32(r) && r >= x && (r == 1 || r / 2 < x)
}

/// `v` limited to the range `[lo, hi]`.
pub open spec fn clamp_spec(v: u32, lo: u32, hi: u32) -> u32 {
    if v < lo {
        lo
    } else if v > hi {
        hi
    } else {
        v
    }
}

/// The ring size granted for `available` bytes of usable memory: 1% of it
/// at 80 bytes per SQ/CQ entry pair (truncated to 32 bits), clamped to
/// `[256, 4096]`, rounded up to a power of two.
pub open spec fn ring_entries_for(available: u64) -> u32 {
    clamp_spec(((available / 100) / 80) as u32, 256, 4096)
}

/// The in-flight cap granted for `available` bytes of usable memory: 5% of
/// it at 128 bytes per tracked operation (truncated to 32 bits), clamped to
/// `[64, 16384]`.
pub open spec fn max_in_flight_for(available: u64) -> u32 {
    clamp_spec(((available / 20) / 128) as u32, 64, 16384)
}

fn clamp_u32(v: u32, lo: u32, hi: u32) -> (r: u32)
    requires
        lo <= hi,
    ensures
        r == clamp_spec(v, lo, hi),
{
    if v < lo {
        lo
    } else if v > hi {
        hi
    } else {
        v
    }
}

/// The smallest power of two that is at least `x`.
pub fn next_power_of_two(x: u32) -> (r: u32)
    requires
        x <= 0x8000_0000,
    ensures
        is_next_power_of_two(x, r),
{
    let mut p: u32 = 1;
    assert(pow2_u32(1u32)) by (bit_vector);
    while p < x
        invariant
            pow2_u32(p),
            p == 1 || p / 2 < x,
            x <= 0x8000_0000,
            p <= 0x8000_0000,
        decreases 0x1_0000_0000 - p,
    {
        assert(p < 0x8000_0000);
        assert(((p * 2) as u32) & ((((p * 2) as u32) - 1) as u32) == 0 && p * 2 <= 0x8000_0000)
            by (bit_vector)
            requires
                p != 0 && p & ((p - 1) as u32) == 0 && p < 0x8000_0000,
        ;
        p = p * 2;
    }
    p
}

/// The contents of the files that memory detection reads, each `None`
/// when the file could not be read: the cgroup v2 `memory.max`, the cgroup
/// v1 `memory.limit_in_bytes`, and `/proc/meminfo`.
pub struct MemoryProbe {
    /// Contents of `/sys/fs/cgroup/memory.max`.
    pub memory_max: Option<String>,
    /// Contents of `/sys/fs/cgroup/memory/memory.limit_in_bytes`.
    pub v1_limit_in_bytes: Option<String>,
    /// Contents of `/proc/meminfo`.
    pub meminfo: Option<String>,
}

impl MemoryProbe {
    /// A probe on a system where none of the files can be read.
    pub fn unavailable() -> (p: Self)
        ensures
            p.memory_max is None,
            p.v1_limit_in_bytes is None,
            p.meminfo is None,
    {
        MemoryProbe { memory_max: None, v1_limit_in_bytes: None, meminfo: None }
    }
}

/// The cgroup v2 limit: the trimmed contents of `memory.max`, unless they
/// are `max`, parsed as a number.
pub open spec fn v2_limit(probe: &MemoryProbe) -> Option<u64> {
    match probe.memory_max {
        Some(c) => parse_u64_spec(trim(c@)),
        None => None,
    }
}

/// The cgroup v1 limit: the trimmed contents of `memory.limit_in_bytes`
/// parsed as a number, counted only below half the 64-bit range.
pub open spec fn v1_limit(probe: &MemoryProbe) -> Option<u64> {
    match probe.v1_limit_in_bytes {
        Some(c) => match parse_u64_spec(trim(c@)) {
            Some(l) => if l < u64::MAX / 2 {
                Some(l)
            } else {
                None
            },
            None => None,
        },
        None => None,
    }
}

/// The prefix of the `/proc/meminfo` line that reports available memory.
pub open spec fn mem_available_key() -> Seq<char> {
    seq!['M', 'e', 'm', 'A', 'v', 'a', 'i', 'l', 'a', 'b', 'l', 'e', ':']
}

/// The kilobytes a meminfo line reports, if it is a `MemAvailable:` line
/// whose second field is a number.
pub open spec fn mem_available_line(line: Seq<char>) -> Option<u64> {
    if has_prefix(line, mem_available_key()) {
        match second_field(line) {
            Some(f) => parse_u64_spec(f),
            None => None,
        }
    } else {
        None
    }
}

/// The kilobytes reported by the first `MemAvailable:` line at or after
/// the line that starts at `i`.
pub open spec fn mem_available_from(s: Seq<char>, i: int) -> Option<u64>
    decreases s.len() - i,
{
    if 0 <= i <= s.len() {
        let e = line_end(s, i);
        match mem_available_line(s.subrange(i, e)) {
            Some(kb) => Some(kb),
            None => if i <= e < s.len() {
                mem_available_from(s, e + 1)
            } else {
                None
            },
        }
    } else {
        None
    }
}

/// The available kilobytes that `/proc/meminfo` reports, if any.
pub open spec fn meminfo_kb(probe: &MemoryProbe) -> Option<u64> {
    match probe.meminfo {
        Some(c) => mem_available_from(c@, 0),
        None => None,
    }
}

/// The meminfo figure is consulted (no cgroup limit applies) and is too
/// large to express in bytes.
pub open spec fn meminfo_overflows(probe: &MemoryProbe) -> bool {
    &&& v2_limit(probe) is None
    &&& v1_limit(probe) is None
    &&& meminfo_kb(probe) matches Some(kb) && kb > u64::MAX / 1024
}

/// `(limit, usable memory)` that detection derives from the probe: a cgroup
/// limit with half of it usable, else a tenth of the available system
/// memory with no limit, else nothing.
pub open spec fn cgroup_memory(probe: &MemoryProbe) -> (Option<u64>, Option<u64>) {
    match v2_limit(probe) {
        Some(l) => (Some(l), Some((l / 2) as u64)),
        None => match v1_limit(probe) {
            Some(l) => (Some(l), Some((l / 2) as u64)),
            None => match meminfo_kb(probe) {
                Some(kb) => (None, Some(((kb * 1024) / 10) as u64)),
                None => (None, None),
            },
        },
    }
}

fn is_max_literal(t: &Vec<char>) -> (b: bool)
    ensures
        b == (t@ == seq!['m', 'a', 'x']),
{
    let b = t.len() == 3 && t[0] == 'm' && t[1] == 'a' && t[2] == 'x';
    proof {
        if b {
            assert(t@ =~= seq!['m', 'a', 'x']);
        }
    }
    b
}

fn mem_available_key_chars() -> (v: Vec<char>)
    ensures
        v@ == mem_available_key(),
{
    let v = vec!['M', 'e', 'm', 'A', 'v', 'a', 'i', 'l', 'a', 'b', 'l', 'e', ':'];
    assert(v@ =~= mem_available_key());
    v
}

fn meminfo_available(s: &Vec<char>) -> (r: Option<u64>)
    ensures
        r == mem_available_from(s@, 0),
{
    let key = mem_available_key_chars();
    let mut i: usize = 0;
    loop
        invariant
            i <= s.len(),
            key@ == mem_available_key(),
            mem_available_from(s@, i as int) == mem_available_from(s@, 0),
        decreases s.len() - i,
    {
        let e = find_line_end(s, i);
        let line = slice_chars(s, i, e);
        let found = if starts_with_chars(&line, &key) {
            match second_field_of(&line) {
                Some(f) => parse_u64(&f),
                None => None,
            }
        } else {
            None
        };
        assert(found == mem_available_line(s@.subrange(i as int, e as int)));
        match found {
            Some(kb) => {
                return Some(kb);
            },
            None => {
                if e < s.len() {
                    i = e + 1;
                } else {
                    return None;
                }
            },
        }
    }
}

/// Whether the probe's figures would overflow detection: no cgroup limit
/// applies and `/proc/meminfo` reports more kilobytes than fit in 64 bits
/// as bytes.
pub fn meminfo_too_large(probe: &MemoryProbe) -> (b: bool)
    ensures
        b == meminfo_overflows(probe),
{
    if let Some(contents) = &probe.memory_max {
        let chars = chars_of(contents.as_str());
        let trimmed = trim_chars(&chars);
        if parse_u64(&trimmed).is_some() {
            return false;
        }
    }
    if let Some(contents) = &probe.v1_limit_in_bytes {
        let chars = chars_of(contents.as_str());
        let trimmed = trim_chars(&chars);
        if let Some(limit) = parse_u64(&trimmed) {
            if limit < u64::MAX / 2 {
                return false;
            }
        }
    }
    if let Some(contents) = &probe.meminfo {
        let chars = chars_of(contents.as_str());
        if let Some(kb) = meminfo_available(&chars) {
            return kb > u64::MAX / 1024;
        }
    }
    false
}

/// Read the memory figures `(limit, usable memory)` from the probe.
pub fn read_cgroup_memory_limit(probe: &MemoryProbe) -> (r: (Option<u64>, Option<u64>))
    requires
        !meminfo_overflows(probe),
    ensures
        r == cgroup_memory(probe),
{
    if let Some(contents) = &probe.memory_max {
        let chars = chars_of(contents.as_str());
        let trimmed = trim_chars(&chars);
        if !is_max_literal(&trimmed) {
            if let Some(limit) = parse_u64(&trimmed) {
                return (Some(limit), Some(limit / 2));
            }
        } else {
            assert(parse_u64_spec(trimmed@) is None) by {
                assert(trimmed@[0] == 'm');
            }
        }
    }
    if let Some(contents) = &probe.v1_limit_in_bytes {
        let chars = chars_of(contents.as_str());
        let trimmed = trim_chars(&chars);
        if let Some(limit) = parse_u64(&trimmed) {
            if limit < u64::MAX / 2 {
                return (Some(limit), Some(limit / 2));
            }
        }
    }
    if let Some(contents) = &probe.meminfo {
        let chars = chars_of(contents.as_str());
        if let Some(kb) = meminfo_available(&chars) {
            let bytes = kb * 1024;
            return (None, Some(bytes / 10));
        }
    }
    (None, None)
}

/// `r` is what the limits are for the given memory figures: with usable
/// memory known, the ring size is the power of two at or above
/// `ring_entries_for` and the in-flight cap is `max_in_flight_for`; without
/// it both are 1024. The limit is carried over unchanged.
pub open spec fn limits_derived_from(
    r: ResourceLimits,
    memory_limit: Option<u64>,
    memory_available: Option<u64>,
) -> bool {
    &&& r.memory_limit == memory_limit
    &&& match memory_available {
        Some(a) => is_next_power_of_two(ring_entries_for(a), r.ring_entries)
            && r.max_in_flight == max_in_flight_for(a),
        None => r.ring_entries == 1024 && r.max_in_flight == 1024,
    }
    &&& pow2_u32(r.ring_entries)
    &&& 256 <= r.ring_entries <= 4096
    &&& 64 <= r.max_in_flight <= 16384
}

/// Resource limits derived from cgroup quotas.
#[derive(Debug)]
pub struct ResourceLimits {
    /// Maximum number of SQ/CQ entries.
    pub ring_entries: u32,
    /// Maximum number of in-flight operations.
    pub max_in_flight: u32,
    /// Memory limit in bytes (from cgroup), or None if unlimited.
    pub memory_limit: Option<u64>,
}

impl ResourceLimits {
    /// Detect resource limits from the memory figures of the probe.
    pub fn detect(probe: &MemoryProbe) -> (r: Self)
        requires
            !meminfo_overflows(probe),
        ensures
            limits_derived_from(r, cgroup_memory(probe).0, cgroup_memory(probe).1),
    {
        let (memory_limit, memory_available) = read_cgroup_memory_limit(probe);
        Self::from_memory(memory_limit, memory_available)
    }

    /// Compute the limits from the detected memory figures: the cgroup
    /// limit (if any) and the usable memory (if known).
    pub fn from_memory(memory_limit: Option<u64>, memory_available: Option<u64>) -> (r: Self)
        ensures
            limits_derived_from(r, memory_limit, memory_available),
    {
        let ring_entries = match memory_available {
            Some(available) => {
                let ring_memory = available / 100;
                let entries = #[verifier::truncate] ((ring_memory / 80) as u32);
                let clamped = clamp_u32(entries, 256, 4096);
                let r = next_power_of_two(clamped);
                assert(r <= 4096) by {
                    if r > 4096 {
                        assert(r >= 8192) by (bit_vector)
                            requires
                                r != 0 && r & ((r - 1) as u32) == 0 && r > 4096,
                        ;
                        assert(r / 2 < clamped);
                    }
                }
                r
            },
            None => {
                assert(pow2_u32(1024u32)) by (bit_vector);
                1024
            },
        };
        let max_in_flight = match memory_available {
            Some(available) => {
                let tracking_memory = available / 20;
                let count = #[verifier::truncate] ((tracking_memory / 128) as u32);
                clamp_u32(count, 64, 16384)
            },
            None => 1024,
        };
        ResourceLimits { ring_entries, max_in_flight, memory_limit }
    }
}

/// Runtime resource limiter that enforces cgroup-aware limits.
pub struct ResourceLimiter {
    limits: ResourceLimits,
    in_flight: u32,
}

impl ResourceLimiter {
    /// The configured maximum number of in-flight operations.
    pub open spec fn max(&self) -> u32 {
        self.configured().max_in_flight
    }

    /// The current number of reserved slots.
    pub closed spec fn reserved(&self) -> u32 {
        self.in_flight
    }

    /// The configured limits.
    pub closed spec fn configured(&self) -> ResourceLimits {
        self.limits
    }

    /// Create a new resource limiter with the limits detected from the probe.
    pub fn new(probe: &MemoryProbe) -> (r: Self)
        requires
            !meminfo_overflows(probe),
        ensures
            limits_derived_from(r.configured(), cgroup_memory(probe).0, cgroup_memory(probe).1),
            r.max() == r.configured().max_in_flight,
            r.reserved() == 0,
    {
        Self::with_limits(ResourceLimits::detect(probe))
    }

    /// Create a new resource limiter with custom limits.
    pub fn with_limits(limits: ResourceLimits) -> (r: Self)
        ensures
            r.configured() == limits,
            r.max() == limits.max_in_flight,
            r.reserved() == 0,
    {
        ResourceLimiter { limits, in_flight: 0 }
    }

    /// Check if a new operation can be submitted without exceeding limits.
    pub fn can_submit(&self) -> (b: bool)
        ensures
            b == (self.reserved() < self.configured().max_in_flight),
    {
        self.in_flight < self.limits.max_in_flight
    }

    /// Try to reserve a slot for a new operation: succeeds exactly when
    /// fewer than the maximum are reserved, and then reserves one more.
    pub fn try_reserve(&mut self) -> (b: bool)
        ensures
            b == (old(self).reserved() < old(self).configured().max_in_flight),
            final(self).reserved() == (if b {
                old(self).reserved() + 1
            } else {
                old(self).reserved() as int
            }),
            final(self).max() == old(self).max(),
            final(self).configured() == old(self).configured(),
    {
        let current = self.in_flight;
        if current >= self.limits.max_in_flight {
            return false;
        }
        let prev = self.in_flight;
        self.in_flight = self.in_flight.wrapping_add(1);
        prev < self.limits.max_in_flight
    }

    /// Release a slot after an operation completes (wrapping below zero,
    /// as an atomic decrement does).
    pub fn release(&mut self)
        ensures
            final(self).reserved() == old(self).reserved().wrapping_sub(1),
            final(self).max() == old(self).max(),
            final(self).configured() == old(self).configured(),
    {
        self.in_flight = self.in_flight.wrapping_sub(1);
    }

    /// Number of in-flight operations.
    pub fn in_flight(&self) -> (n: u32)
        ensures
            n == self.reserved(),
    {
        self.in_flight
    }

    /// Get the configured limits.
    pub fn limits(&self) -> (l: &ResourceLimits)
        ensures
            *l == self.configured(),
    {
        &self.limits
    }

    /// Get the recommended ring size for these limits.
    pub fn recommended_ring_entries(&self) -> (n: u32)
        ensures
            n == self.configured().ring_entries,
    {
        self.limits.ring_entries
    }
}

/// Reservations never push the reserved count past the maximum, and
/// releasing right after a successful reservation restores the count.
pub proof fn law_reserve_bounded_and_release_undoes(reserved: u32, max: u32)
    requires
        reserved <= max,
    ensures
        (if reserved < max {
            reserved + 1
        } else {
            reserved as int
        }) <= max,
        reserved < max ==> ((reserved + 1) as u32).wrapping_sub(1) == reserved,
{
}

} // verus!
