//! The Virtual Torus context: the virtual rings in front of a platform
//! backend, and a pool of contexts that spreads submissions round-robin.
use crate::backend::{Backend, RegisterBuffer};
use crate::error::Error;
use crate::flow::Flow;
use crate::lease::{LeaseRegion, LeaseRegistry};
use crate::operation::{IoSlice, Operation};
use crate::result::TorusResult;
use crate::rings::{is_power_of_two, pow2_u32, CompletionRing, SubmissionRing};
use vstd::prelude::*;

verus! {

/// A slice holding exactly `flow` (`std::slice::from_ref`, which converts
/// a reference into a one-element slice without copying).
#[verifier::external_body]
fn one_flow(flow: &Flow) -> (s: &[Flow])
    ensures
        s@ == seq![*flow],
{
    std::slice::from_ref(flow)
}

/// What submitting one flow reports for the backend's answer `n`: nothing
/// enqueued means the submission queue is full.
pub open spec fn single_submit_result(n: Result<usize, Error>) -> Result<(), Error> {
    match n {
        Ok(count) => if count == 0 {
            Err(Error::SubmissionFull)
        } else {
            Ok(())
        },
        Err(e) => Err(e),
    }
}

/// What submitting one flow reports for the backend's answer `n`.
pub fn single_submit_outcome(n: Result<usize, Error>) -> (r: Result<(), Error>)
    ensures
        r == single_submit_result(n),
{
    match n {
        Ok(count) => if count == 0 {
            Err(Error::SubmissionFull)
        } else {
            Ok(())
        },
        Err(e) => Err(e),
    }
}

/// Whether `f` is the vectored flow with caller data `user_data` that reads
/// (`read`) or writes `fd` at `offset` with the buffers `bufs`.
pub open spec fn vectored(f: Flow, read: bool, fd: i32, bufs: Seq<IoSlice>, offset: u64, user_data: u64) -> bool {
    &&& f.user_data_of() == user_data
    &&& read ==> (f.op_of() matches Operation::Readv { fd: d, bufs: b, offset: o } && d == fd
        && b@ == bufs && o == offset)
    &&& !read ==> (f.op_of() matches Operation::Writev { fd: d, bufs: b, offset: o } && d == fd
        && b@ == bufs && o == offset)
}

/// Whether `bufs` lists the regions of a lease registry with regions
/// `regions` (start to region): one buffer per region, its start and
/// length.
pub open spec fn lease_buffers(regions: Map<usize, LeaseRegion>, bufs: Seq<RegisterBuffer>) -> bool {
    &&& bufs.len() == regions.len()
    &&& forall|i: int|
        0 <= i < bufs.len() ==> regions.contains_key((#[trigger] bufs[i]).ptr) && regions[bufs[i].ptr].len
            == bufs[i].len
    &&& forall|k: usize| #[trigger] regions.contains_key(k) ==> exists|i: int| 0 <= i < bufs.len() && bufs[i].ptr == k
}

/// The error `Torus::new` reports for a ring size that is not a power of
/// two.
pub open spec fn bad_ring_size(e: Error) -> bool {
    e matches Error::InvalidParam(p) && p@ == "ring_entries must be a power of two"@
}

/// The main context object for the Virtual Torus: the virtual submission
/// and completion rings, and the platform backend that carries out I/O.
pub struct Torus<B: Backend> {
    sq: SubmissionRing,
    cq: CompletionRing,
    backend: B,
}

impl<B: Backend> Torus<B> {
    /// The virtual submission ring.
    pub closed spec fn sq_ring(&self) -> SubmissionRing {
        self.sq
    }

    /// The virtual completion ring.
    pub closed spec fn cq_ring(&self) -> CompletionRing {
        self.cq
    }

    /// The backend.
    pub closed spec fn backend_of(&self) -> B {
        self.backend
    }

    /// Create a Torus with `ring_entries` entries per ring over `backend`;
    /// `ring_entries` must be a power of two.
    pub fn new(ring_entries: u32, backend: B) -> (r: Result<Self, Error>)
        ensures
            !pow2_u32(ring_entries) ==> r is Err && bad_ring_size(r->Err_0),
            pow2_u32(ring_entries) ==> (r matches Ok(t) && t.sq_ring().wf() && t.sq_ring().size()
                == ring_entries && t.cq_ring().wf() && t.cq_ring().size() == ring_entries
                && t.backend_of() == backend),
    {
        if !is_power_of_two(ring_entries) {
            return Err(Error::InvalidParam("ring_entries must be a power of two"));
        }
        Ok(
            Torus {
                sq: SubmissionRing::new(ring_entries),
                cq: CompletionRing::new(ring_entries),
                backend,
            },
        )
    }

    /// Submit a single flow: the backend is handed exactly `flow`, and its
    /// count of enqueued flows is reported, zero being a full submission
    /// queue.
    pub fn submit(&mut self, flow: &Flow) -> (r: Result<(), Error>)
        ensures
            exists|n: Result<usize, Error>|
                #[trigger] B::submits(old(self).backend_of(), seq![*flow], final(self).backend_of(), n)
                    && r == single_submit_result(n),
            final(self).sq_ring() == old(self).sq_ring(),
            final(self).cq_ring() == old(self).cq_ring(),
    {
        let one = one_flow(flow);
        let n = self.backend.submit(one);
        assert(B::submits(old(self).backend_of(), seq![*flow], self.backend_of(), n));
        single_submit_outcome(n)
    }

    /// Submit a batch of flows: the backend is handed exactly `flows`, and
    /// its answer is returned.
    pub fn submit_batch(&mut self, flows: &[Flow]) -> (r: Result<usize, Error>)
        ensures
            B::submits(old(self).backend_of(), flows@, final(self).backend_of(), r),
            final(self).sq_ring() == old(self).sq_ring(),
            final(self).cq_ring() == old(self).cq_ring(),
    {
        self.backend.submit(flows)
    }

    fn vectored_flow(read: bool, fd: i32, bufs: &[IoSlice], offset: u64, user_data: u64) -> (f:
        Flow)
        ensures
            vectored(f, read, fd, bufs@, offset, user_data),
    {
        let mut v: Vec<IoSlice> = Vec::with_capacity(bufs.len());
        let mut i: usize = 0;
        while i < bufs.len()
            invariant
                i <= bufs@.len(),
                v@ == bufs@.subrange(0, i as int),
            decreases bufs.len() - i,
        {
            v.push(bufs[i]);
            i = i + 1;
        }
        assert(v@ =~= bufs@);
        let op = if read {
            Operation::Readv { fd, bufs: v, offset }
        } else {
            Operation::Writev { fd, bufs: v, offset }
        };
        Flow::with_user_data(op, user_data)
    }

    /// Submit a vectored read from `fd` at `offset` into the buffers
    /// `bufs`, as one flow with `user_data`.
    pub fn readv(&mut self, fd: i32, bufs: &[IoSlice], offset: u64, user_data: u64) -> (r: Result<
        (),
        Error,
    >)
        ensures
            exists|f: Flow, n: Result<usize, Error>|
                vectored(f, true, fd, bufs@, offset, user_data) && #[trigger] B::submits(
                    old(self).backend_of(),
                    seq![f],
                    final(self).backend_of(),
                    n,
                ) && r == single_submit_result(n),
            final(self).sq_ring() == old(self).sq_ring(),
            final(self).cq_ring() == old(self).cq_ring(),
    {
        let flow = Self::vectored_flow(true, fd, bufs, offset, user_data);
        self.submit(&flow)
    }

    /// Submit a vectored write to `fd` at `offset` from the buffers `bufs`,
    /// as one flow with `user_data`.
    pub fn writev(&mut self, fd: i32, bufs: &[IoSlice], offset: u64, user_data: u64) -> (r:
        Result<(), Error>)
        ensures
            exists|f: Flow, n: Result<usize, Error>|
                vectored(f, false, fd, bufs@, offset, user_data) && #[trigger] B::submits(
                    old(self).backend_of(),
                    seq![f],
                    final(self).backend_of(),
                    n,
                ) && r == single_submit_result(n),
            final(self).sq_ring() == old(self).sq_ring(),
            final(self).cq_ring() == old(self).cq_ring(),
    {
        let flow = Self::vectored_flow(false, fd, bufs, offset, user_data);
        self.submit(&flow)
    }

    /// Reap all available completions into `results`: the backend reaps
    /// into `results` and its answer is returned; the virtual rings are
    /// untouched.
    pub fn reap(&mut self, results: &mut Vec<TorusResult>) -> (r: Result<usize, Error>)
        ensures
            B::reaps(old(self).backend_of(), old(results)@, final(self).backend_of(), final(results)@, r),
            final(self).sq_ring() == old(self).sq_ring(),
            final(self).cq_ring() == old(self).cq_ring(),
    {
        self.backend.reap(results)
    }

    /// Block until at least one completion is available: the backend waits
    /// up to `timeout_us` and its answer is returned; the virtual rings are
    /// untouched.
    pub fn wait(&mut self, timeout_us: u64) -> (r: Result<(), Error>)
        ensures
            B::waits(old(self).backend_of(), timeout_us, final(self).backend_of(), r),
            final(self).sq_ring() == old(self).sq_ring(),
            final(self).cq_ring() == old(self).cq_ring(),
    {
        self.backend.wait(timeout_us)
    }

    /// Number of in-flight operations: the backend's count.
    pub fn in_flight(&self) -> (n: u32)
        ensures
            B::counts(self.backend_of(), n),
    {
        self.backend.in_flight()
    }

    /// Access the virtual submission ring.
    pub fn submission_ring(&self) -> (r: &SubmissionRing)
        ensures
            *r == self.sq_ring(),
    {
        &self.sq
    }

    /// Access the virtual completion ring.
    pub fn completion_ring(&self) -> (r: &CompletionRing)
        ensures
            *r == self.cq_ring(),
    {
        &self.cq
    }

    /// Register every region of `registry` with the backend for fixed-buffer
    /// I/O: the backend is handed one buffer per region, the region's start
    /// and length, and its answer is returned; with no region registered,
    /// the backend is not asked.
    pub fn register_leases(&mut self, registry: &LeaseRegistry) -> (r: Result<(), Error>)
        ensures
            registry@.len() == 0 ==> r is Ok && *final(self) == *old(self),
            registry@.len() > 0 ==> exists|bufs: Seq<RegisterBuffer>|
                lease_buffers(registry@, bufs) && #[trigger] B::registers(
                    old(self).backend_of(),
                    bufs,
                    final(self).backend_of(),
                    r,
                ),
            final(self).sq_ring() == old(self).sq_ring(),
            final(self).cq_ring() == old(self).cq_ring(),
    {
        let buffers = registry.as_register_buffers();
        if buffers.len() == 0 {
            return Ok(());
        }
        let r = self.backend.register_buffers(buffers.as_slice());
        assert(B::registers(old(self).backend_of(), buffers@, self.backend_of(), r));
        r
    }
}

/// A pool of Torus instances that spreads submissions round-robin, so that
/// submissions on different members run concurrently.
pub struct TorusPool<B: Backend> {
    instances: Vec<Torus<B>>,
    next: u32,
}

/// The round-robin counter after the submissions of flows `0..=k`,
/// starting from `start` (wrapping).
pub open spec fn counter_after(start: u32, k: int) -> int {
    (start + k + 1) % 0x1_0000_0000
}

/// The member a round-robin submission goes to when the counter is `next`.
pub open spec fn round_robin_slot(next: u32, len: nat) -> int {
    (next as int) % (len as int)
}

/// The counter after `j` submissions starting from `start` (wrapping).
pub open spec fn counter_at(start: u32, j: int) -> u32 {
    ((start + j) % 0x1_0000_0000) as u32
}

/// The backends of the members `ms`.
pub open spec fn backends<B: Backend>(ms: Seq<Torus<B>>) -> Seq<B> {
    ms.map_values(|t: Torus<B>| t.backend_of())
}

/// One round-robin submission of `flow` with the counter at `counter`: the
/// member it goes to is handed exactly `flow` and `r` reports its answer;
/// the other backends are unchanged.
pub open spec fn round_robin_step<B: Backend>(
    before: Seq<B>,
    counter: u32,
    flow: Flow,
    after: Seq<B>,
    r: Result<(), Error>,
) -> bool {
    let k = round_robin_slot(counter, before.len());
    &&& after.len() == before.len()
    &&& forall|i: int| 0 <= i < before.len() && i != k ==> #[trigger] after[i] == before[i]
    &&& exists|n: Result<usize, Error>|
        #[trigger] B::submits(before[k], seq![flow], after[k], n) && r == single_submit_result(n)
}

/// Whether `states` are the successive backends of submitting `flows` one
/// by one in round-robin order from the counter `start` to the backends
/// `before`, each submission accepted: `states[j + 1]` follows `states[j]`
/// by the submission of `flows[j]`.
pub open spec fn accepted_along<B: Backend>(
    before: Seq<B>,
    start: u32,
    flows: Seq<Flow>,
    states: Seq<Seq<B>>,
) -> bool {
    &&& states.len() == flows.len() + 1
    &&& states[0] == before
    &&& forall|j: int|
        #![trigger flows[j]]
        0 <= j < flows.len() ==> round_robin_step(
            states[j],
            counter_at(start, j),
            flows[j],
            states[j + 1],
            Ok(()),
        )
}

/// Whether the backends `after` are what submitting `flows` one by one in
/// round-robin order from the counter `start`, each submission accepted,
/// may leave of the backends `before`.
pub open spec fn accepted_in_turn<B: Backend>(
    before: Seq<B>,
    start: u32,
    flows: Seq<Flow>,
    after: Seq<B>,
) -> bool {
    exists|states: Seq<Seq<B>>|
        #[trigger] accepted_along(before, start, flows, states) && states.last() == after
}

proof fn lemma_accepted_extend<B: Backend>(
    before: Seq<B>,
    start: u32,
    flows: Seq<Flow>,
    i: int,
    states: Seq<Seq<B>>,
    after: Seq<B>,
)
    requires
        0 <= i < flows.len(),
        accepted_along(before, start, flows.take(i), states),
        round_robin_step(states.last(), counter_at(start, i), flows[i], after, Ok(())),
    ensures
        accepted_along(before, start, flows.take(i + 1), states.push(after)),
{
    let fs = flows.take(i + 1);
    let next = states.push(after);
    assert forall|j: int| #![trigger fs[j]] 0 <= j < fs.len() implies round_robin_step(
        next[j],
        counter_at(start, j),
        fs[j],
        next[j + 1],
        Ok(()),
    ) by {
        if j < i {
            assert(fs[j] == flows.take(i)[j]);
        }
    }
}

/// Reaping member `k` of the backends `before` into the results `out0`:
/// that member reaps, leading to `out` and the answer `r`; the other
/// backends are unchanged.
pub open spec fn reap_member<B: Backend>(
    before: Seq<B>,
    k: int,
    out0: Seq<TorusResult>,
    after: Seq<B>,
    out: Seq<TorusResult>,
    r: Result<usize, Error>,
) -> bool {
    &&& after == before.update(k, after[k])
    &&& B::reaps(before[k], out0, after[k], out, r)
}

/// Whether `bs`, `outs` and `totals` are the successive backends, results
/// and running totals of reaping the first `j` members of the backends
/// `before` in turn into the results `out0`, every reap succeeding: step
/// `k` reaps member `k`, and the total grows by its count (wrapping).
pub open spec fn reaped_along<B: Backend>(
    before: Seq<B>,
    out0: Seq<TorusResult>,
    j: int,
    bs: Seq<Seq<B>>,
    outs: Seq<Seq<TorusResult>>,
    totals: Seq<usize>,
) -> bool {
    &&& bs.len() == j + 1 && outs.len() == j + 1 && totals.len() == j + 1
    &&& bs[0] == before && outs[0] == out0 && totals[0] == 0
    &&& forall|k: int| 0 <= k < j ==> #[trigger] reap_step(bs, outs, totals, k)
}

/// Step `k` of a run of reaps: member `k` reaps successfully, from
/// `bs[k]` and `outs[k]` to `bs[k + 1]` and `outs[k + 1]`, and the running
/// total grows by its count (wrapping).
pub open spec fn reap_step<B: Backend>(
    bs: Seq<Seq<B>>,
    outs: Seq<Seq<TorusResult>>,
    totals: Seq<usize>,
    k: int,
) -> bool {
    exists|n: usize|
        #[trigger] reap_member(bs[k], k, outs[k], bs[k + 1], outs[k + 1], Ok::<usize, Error>(n))
            && totals[k + 1] == totals[k].wrapping_add(n)
}

/// Whether the backends `after` and the results `out` are what reaping the
/// first `j` members of the backends `before` in turn into the results
/// `out0` may lead to, every reap succeeding and `total` being the wrapping
/// sum of their counts.
pub open spec fn reaped_in_turn<B: Backend>(
    before: Seq<B>,
    out0: Seq<TorusResult>,
    j: int,
    after: Seq<B>,
    out: Seq<TorusResult>,
    total: usize,
) -> bool {
    exists|bs: Seq<Seq<B>>, outs: Seq<Seq<TorusResult>>, totals: Seq<usize>|
        #[trigger] reaped_along(before, out0, j, bs, outs, totals) && bs.last() == after
            && outs.last() == out && totals.last() == total
}

proof fn lemma_reap_step<B: Backend>(
    before: Seq<B>,
    out0: Seq<TorusResult>,
    i: int,
    bs: Seq<Seq<B>>,
    outs: Seq<Seq<TorusResult>>,
    totals: Seq<usize>,
    nb: Seq<B>,
    nout: Seq<TorusResult>,
    n: usize,
)
    requires
        0 <= i,
        reaped_along(before, out0, i, bs, outs, totals),
        reap_member(bs.last(), i, outs.last(), nb, nout, Ok(n)),
    ensures
        reaped_along(
            before,
            out0,
            i + 1,
            bs.push(nb),
            outs.push(nout),
            totals.push(totals.last().wrapping_add(n)),
        ),
{
    let nbs = bs.push(nb);
    let nouts = outs.push(nout);
    let ntot = totals.push(totals.last().wrapping_add(n));
    assert forall|k: int| 0 <= k < i + 1 implies #[trigger] reap_step(nbs, nouts, ntot, k) by {
        if k < i {
            assert(reap_step(bs, outs, totals, k));
            let m = choose|m: usize|
                #[trigger] reap_member(bs[k], k, outs[k], bs[k + 1], outs[k + 1], Ok::<usize, Error>(m))
                    && totals[k + 1] == totals[k].wrapping_add(m);
            assert(nbs[k] == bs[k] && nbs[k + 1] == bs[k + 1]);
            assert(nouts[k] == outs[k] && nouts[k + 1] == outs[k + 1]);
            assert(ntot[k] == totals[k] && ntot[k + 1] == totals[k + 1]);
            assert(reap_member(nbs[k], k, nouts[k], nbs[k + 1], nouts[k + 1], Ok::<usize, Error>(m)));
        } else {
            assert(reap_member(nbs[k], k, nouts[k], nbs[k + 1], nouts[k + 1], Ok::<usize, Error>(n)));
        }
    }
    assert(nbs[0] == bs[0] && nouts[0] == outs[0] && ntot[0] == totals[0]);
}

proof fn lemma_wrapping_sum_prefix(a: Seq<u32>, b: Seq<u32>, j: int)
    requires
        0 <= j <= a.len(),
        j <= b.len(),
        forall|k: int| 0 <= k < j ==> a[k] == b[k],
    ensures
        wrapping_sum(a, j) == wrapping_sum(b, j),
    decreases j,
{
    if j > 0 {
        lemma_wrapping_sum_prefix(a, b, j - 1);
    }
}

/// The wrapping sum of the first `j` counts of `ns`.
pub open spec fn wrapping_sum(ns: Seq<u32>, j: int) -> u32
    decreases j,
{
    if j <= 0 {
        0
    } else {
        wrapping_sum(ns, j - 1).wrapping_add(ns[j - 1])
    }
}

/// Consecutive submissions visit every member: starting from any counter
/// value, each member is chosen within `len` submissions (while the
/// counter does not wrap).
pub proof fn law_round_robin_visits_every_member(start: u32, len: nat, member: int)
    requires
        len > 0,
        0 <= member < len,
        start + len <= u32::MAX + 1,
    ensures
        exists|k: int| 0 <= k < len && #[trigger] round_robin_slot((start + k) as u32, len) == member,
{
    let s = (start as int) % (len as int);
    let k = if member >= s {
        member - s
    } else {
        member + len - s
    };
    assert(0 <= k < len);
    assert(((start + k) as u32) as int == start + k);
    let m = len as int;
    let q = (start as int) / m;
    vstd::arithmetic::div_mod::lemma_fundamental_div_mod(start as int, m);
    assert(start + k == m * q + (s + k));
    vstd::arithmetic::div_mod::lemma_mod_multiples_vanish(q, s + k, m);
    if member >= s {
        vstd::arithmetic::div_mod::lemma_small_mod(member as nat, len);
    } else {
        assert(s + k == m + member);
        vstd::arithmetic::div_mod::lemma_mod_add_multiples_vanish(member, m);
        vstd::arithmetic::div_mod::lemma_small_mod(member as nat, len);
    }
    assert(round_robin_slot((start + k) as u32, len) == member);
}

impl<B: Backend> TorusPool<B> {
    /// The members.
    pub closed spec fn members(&self) -> Seq<Torus<B>> {
        self.instances@
    }

    /// The round-robin counter.
    pub closed spec fn counter(&self) -> u32 {
        self.next
    }

    /// A pool with one Torus of `ring_entries` entries per backend: an
    /// empty list of backends is refused, and so is a ring size that is
    /// not a power of two.
    pub fn new(ring_entries: u32, backends: Vec<B>) -> (r: Result<Self, Error>)
        ensures
            backends@.len() == 0 ==> (r matches Err(Error::InvalidParam(p)) && p@
                == "pool count must be > 0"@),
            backends@.len() > 0 && !pow2_u32(ring_entries) ==> r is Err && bad_ring_size(
                r->Err_0,
            ),
            backends@.len() > 0 && pow2_u32(ring_entries) ==> (r matches Ok(p) && p.members().len()
                == backends@.len() && p.counter() == 0 && forall|i: int|
                0 <= i < backends@.len() ==> (#[trigger] p.members()[i]).backend_of() == backends@[i]
                    && p.members()[i].sq_ring().size() == ring_entries),
    {
        if backends.len() == 0 {
            return Err(Error::InvalidParam("pool count must be > 0"));
        }
        if !is_power_of_two(ring_entries) {
            return Err(Error::InvalidParam("ring_entries must be a power of two"));
        }
        let ghost bs = backends@;
        let mut backends = backends;
        let mut rev: Vec<Torus<B>> = Vec::new();
        while backends.len() > 0
            invariant
                pow2_u32(ring_entries),
                backends@.len() + rev@.len() == bs.len(),
                backends@ == bs.subrange(0, backends@.len() as int),
                forall|i: int|
                    0 <= i < rev@.len() ==> (#[trigger] rev@[i]).backend_of() == bs[bs.len() - 1 - i]
                        && rev@[i].sq_ring().size() == ring_entries,
            decreases backends@.len(),
        {
            let b = backends.pop().unwrap();
            let t = match Torus::new(ring_entries, b) {
                Ok(t) => t,
                Err(e) => return Err(e),
            };
            rev.push(t);
        }
        let mut instances: Vec<Torus<B>> = Vec::new();
        while rev.len() > 0
            invariant
                rev@.len() + instances@.len() == bs.len(),
                forall|i: int|
                    0 <= i < rev@.len() ==> (#[trigger] rev@[i]).backend_of() == bs[bs.len() - 1 - i]
                        && rev@[i].sq_ring().size() == ring_entries,
                forall|i: int|
                    0 <= i < instances@.len() ==> (#[trigger] instances@[i]).backend_of() == bs[i]
                        && instances@[i].sq_ring().size() == ring_entries,
            decreases rev@.len(),
        {
            let t = rev.pop().unwrap();
            instances.push(t);
        }
        Ok(TorusPool { instances, next: 0 })
    }

    /// Submit a flow to the next member in round-robin order: that member's
    /// backend is handed exactly `flow`.
    pub fn submit(&mut self, flow: &Flow) -> (r: Result<(), Error>)
        requires
            old(self).members().len() > 0,
        ensures
            final(self).members().len() == old(self).members().len(),
            final(self).counter() == old(self).counter().wrapping_add(1),
            forall|i: int|
                0 <= i < old(self).members().len() && i != round_robin_slot(
                    old(self).counter(),
                    old(self).members().len(),
                ) ==> #[trigger] final(self).members()[i] == old(self).members()[i],
            ({
                let k = round_robin_slot(old(self).counter(), old(self).members().len());
                &&& final(self).members()[k].sq_ring() == old(self).members()[k].sq_ring()
                &&& final(self).members()[k].cq_ring() == old(self).members()[k].cq_ring()
            }),
            round_robin_step(
                backends(old(self).members()),
                old(self).counter(),
                *flow,
                backends(final(self).members()),
                r,
            ),
    {
        let idx = (self.next as usize) % self.instances.len();
        self.next = self.next.wrapping_add(1);
        let mut t = self.instances.remove(idx);
        let ghost t0 = t;
        let r = t.submit(flow);
        let ghost t1 = t;
        self.instances.insert(idx, t);
        proof {
            assert(t0 == old(self).members()[idx as int]);
            assert(self.instances@[idx as int] == t1);
            assert forall|i: int|
                0 <= i < old(self).members().len() && i != idx implies #[trigger] self.instances@[i]
                == old(self).members()[i] by {
                if i < idx {
                } else {
                }
            }
            let bb = backends(old(self).members());
            let ba = backends(self.members());
            assert forall|i: int| 0 <= i < bb.len() && i != idx implies #[trigger] ba[i] == bb[i] by {
                assert(self.instances@[i] == old(self).members()[i]);
            }
            let n = choose|n: Result<usize, Error>|
                #[trigger] B::submits(t0.backend_of(), seq![*flow], t1.backend_of(), n) && r
                    == single_submit_result(n);
            assert(bb[idx as int] == t0.backend_of());
            assert(ba[idx as int] == t1.backend_of());
            assert(B::submits(bb[idx as int], seq![*flow], ba[idx as int], n));
            assert(ba.len() == bb.len());
        }
        r
    }

    /// Submit a batch of flows one by one in round-robin order, stopping at
    /// the first failure; returns how many were submitted. Each flow is
    /// handed, on its own, to the member whose turn it is.
    pub fn submit_batch(&mut self, flows: &[Flow]) -> (r: Result<usize, Error>)
        requires
            old(self).members().len() > 0,
        ensures
            final(self).members().len() == old(self).members().len(),
            forall|i: int|
                0 <= i < old(self).members().len() ==> {
                    &&& #[trigger] final(self).members()[i].sq_ring() == old(self).members()[i].sq_ring()
                    &&& final(self).members()[i].cq_ring() == old(self).members()[i].cq_ring()
                },
            r matches Ok(n) ==> n == flows@.len() && final(self).counter() == (old(self).counter()
                + flows@.len()) % 0x1_0000_0000 && accepted_in_turn(
                backends(old(self).members()),
                old(self).counter(),
                flows@,
                backends(final(self).members()),
            ),
            r matches Err(e) ==> exists|k: int, mid: Seq<B>|
                #![trigger accepted_in_turn(backends(old(self).members()), old(self).counter(), flows@.take(k), mid)]
                0 <= k < flows@.len() && final(self).counter() == counter_after(old(self).counter(), k)
                    && accepted_in_turn(
                    backends(old(self).members()),
                    old(self).counter(),
                    flows@.take(k),
                    mid,
                ) && round_robin_step(
                    mid,
                    counter_at(old(self).counter(), k),
                    flows@[k],
                    backends(final(self).members()),
                    Err(e),
                ),
    {
        let mut total: usize = 0;
        let mut i: usize = 0;
        let ghost mut states: Seq<Seq<B>> = seq![backends(self.members())];
        while i < flows.len()
            invariant
                i <= flows@.len(),
                total == i,
                self.members().len() == old(self).members().len(),
                self.members().len() > 0,
                self.counter() == (old(self).counter() + i) % 0x1_0000_0000,
                forall|j: int|
                    0 <= j < old(self).members().len() ==> {
                        &&& #[trigger] self.members()[j].sq_ring() == old(self).members()[j].sq_ring()
                        &&& self.members()[j].cq_ring() == old(self).members()[j].cq_ring()
                    },
                accepted_along(
                    backends(old(self).members()),
                    old(self).counter(),
                    flows@.take(i as int),
                    states,
                ),
                states.last() == backends(self.members()),
            decreases flows.len() - i,
        {
            let ghost before = *self;
            let r = self.submit(&flows[i]);
            proof {
                assert(counter_at(old(self).counter(), i as int) == before.counter());
                assert(accepted_in_turn(
                    backends(old(self).members()),
                    old(self).counter(),
                    flows@.take(i as int),
                    backends(before.members()),
                ));
            }
            proof {
                assert forall|j: int| 0 <= j < old(self).members().len() implies {
                    &&& #[trigger] self.members()[j].sq_ring() == old(self).members()[j].sq_ring()
                    &&& self.members()[j].cq_ring() == old(self).members()[j].cq_ring()
                } by {
                    if j != round_robin_slot(before.counter(), before.members().len()) {
                        assert(self.members()[j] == before.members()[j]);
                    }
                }
            }
            match r {
                Ok(()) => {},
                Err(e) => {
                    assert(self.counter() == counter_after(old(self).counter(), i as int));
                    return Err(e);
                },
            }
            proof {
                lemma_accepted_extend(
                    backends(old(self).members()),
                    old(self).counter(),
                    flows@,
                    i as int,
                    states,
                    backends(self.members()),
                );
                states = states.push(backends(self.members()));
            }
            total = total + 1;
            i = i + 1;
        }
        assert(flows@.take(flows@.len() as int) =~= flows@);
        assert(accepted_in_turn(
            backends(old(self).members()),
            old(self).counter(),
            flows@,
            backends(self.members()),
        ));
        Ok(total)
    }

    /// Reap completions from every member in turn, stopping at the first
    /// failure; returns how many were reaped in all (wrapping). Each member's
    /// backend reaps into `results` in member order.
    pub fn reap(&mut self, results: &mut Vec<TorusResult>) -> (r: Result<usize, Error>)
        ensures
            final(self).members().len() == old(self).members().len(),
            final(self).counter() == old(self).counter(),
            forall|i: int|
                0 <= i < old(self).members().len() ==> {
                    &&& #[trigger] final(self).members()[i].sq_ring() == old(self).members()[i].sq_ring()
                    &&& final(self).members()[i].cq_ring() == old(self).members()[i].cq_ring()
                },
            r matches Ok(total) ==> reaped_in_turn(
                backends(old(self).members()),
                old(results)@,
                old(self).members().len() as int,
                backends(final(self).members()),
                final(results)@,
                total,
            ),
            r matches Err(e) ==> exists|k: int, mid: Seq<B>, mout: Seq<TorusResult>, t: usize|
                #![trigger reaped_in_turn(backends(old(self).members()), old(results)@, k, mid, mout, t)]
                0 <= k < old(self).members().len() && reaped_in_turn(
                    backends(old(self).members()),
                    old(results)@,
                    k,
                    mid,
                    mout,
                    t,
                ) && reap_member(
                    mid,
                    k,
                    mout,
                    backends(final(self).members()),
                    final(results)@,
                    Err(e),
                ),
    {
        let mut total: usize = 0;
        let mut i: usize = 0;
        let ghost mut bs: Seq<Seq<B>> = seq![backends(self.members())];
        let ghost mut outs: Seq<Seq<TorusResult>> = seq![results@];
        let ghost mut totals: Seq<usize> = seq![0usize];
        while i < self.instances.len()
            invariant
                i <= self.instances@.len(),
                self.instances@.len() == old(self).members().len(),
                self.next == old(self).counter(),
                forall|j: int|
                    0 <= j < old(self).members().len() ==> {
                        &&& #[trigger] self.members()[j].sq_ring() == old(self).members()[j].sq_ring()
                        &&& self.members()[j].cq_ring() == old(self).members()[j].cq_ring()
                    },
                reaped_along(backends(old(self).members()), old(results)@, i as int, bs, outs, totals),
                bs.last() == backends(self.members()),
                outs.last() == results@,
                totals.last() == total,
            decreases self.instances.len() - i,
        {
            let ghost head = *self;
            let ghost out_before = results@;
            let ghost before = self.instances@;
            let mut t = self.instances.remove(i);
            let ghost taken = t;
            assert(taken == before[i as int]);
            let r = t.reap(results);
            let ghost reaped = t;
            self.instances.insert(i, t);
            proof {
                assert(self.instances@[i as int] == reaped);
                assert forall|j: int| 0 <= j < old(self).members().len() implies {
                    &&& #[trigger] self.members()[j].sq_ring() == old(self).members()[j].sq_ring()
                    &&& self.members()[j].cq_ring() == old(self).members()[j].cq_ring()
                } by {
                    assert(head.members()[j].sq_ring() == old(self).members()[j].sq_ring());
                    assert(head.members()[j] == before[j]);
                    if j != i {
                        assert(self.instances@[j] == before[j]);
                    }
                }
                let hb = backends(head.members());
                let nb = backends(self.members());
                assert forall|j: int| 0 <= j < hb.len() && j != i implies #[trigger] nb[j] == hb[j] by {
                    assert(self.instances@[j] == before[j]);
                }
                assert(nb =~= hb.update(i as int, nb[i as int]));
                assert(reap_member(hb, i as int, out_before, nb, results@, r));
                assert(reaped_in_turn(
                    backends(old(self).members()),
                    old(results)@,
                    i as int,
                    hb,
                    out_before,
                    total,
                ));
            }
            match r {
                Ok(n) => {
                    proof {
                        lemma_reap_step(
                            backends(old(self).members()),
                            old(results)@,
                            i as int,
                            bs,
                            outs,
                            totals,
                            backends(self.members()),
                            results@,
                            n,
                        );
                        bs = bs.push(backends(self.members()));
                        outs = outs.push(results@);
                        totals = totals.push(total.wrapping_add(n));
                    }
                    total = total.wrapping_add(n);
                },
                Err(e) => return Err(e),
            }
            i = i + 1;
        }
        assert(reaped_in_turn(
            backends(old(self).members()),
            old(results)@,
            old(self).members().len() as int,
            backends(self.members()),
            results@,
            total,
        ));
        Ok(total)
    }

    /// The number of Torus instances in this pool.
    pub fn len(&self) -> (n: usize)
        ensures
            n == self.members().len(),
    {
        self.instances.len()
    }

    /// Whether the pool is empty.
    pub fn is_empty(&self) -> (b: bool)
        ensures
            b == (self.members().len() == 0),
    {
        self.instances.len() == 0
    }

    /// Get a reference to a specific pool member.
    pub fn get(&self, index: usize) -> (r: Option<&Torus<B>>)
        ensures
            index < self.members().len() ==> r == Some(&self.members()[index as int]),
            index >= self.members().len() ==> r is None,
    {
        if index < self.instances.len() {
            Some(&self.instances[index])
        } else {
            None
        }
    }

    /// Total in-flight operations across the members (wrapping): the sum of
    /// the backends' counts.
    pub fn in_flight(&self) -> (n: u32)
        ensures
            exists|ns: Seq<u32>|
                ns.len() == self.members().len() && (forall|i: int|
                    0 <= i < ns.len() ==> B::counts(#[trigger] self.members()[i].backend_of(), ns[i]))
                    && n == #[trigger] wrapping_sum(ns, ns.len() as int),
    {
        let mut total: u32 = 0;
        let mut i: usize = 0;
        let ghost mut ns: Seq<u32> = Seq::empty();
        while i < self.instances.len()
            invariant
                i <= self.instances@.len(),
                ns.len() == i,
                forall|k: int| 0 <= k < i ==> B::counts(#[trigger] self.members()[k].backend_of(), ns[k]),
                total == wrapping_sum(ns, i as int),
            decreases self.instances.len() - i,
        {
            let c = self.instances[i].in_flight();
            proof {
                let nns = ns.push(c);
                assert forall|k: int| 0 <= k < i + 1 implies B::counts(#[trigger] self.members()[k].backend_of(), nns[k]) by {
                    if k < i {
                        assert(nns[k] == ns[k]);
                    }
                }
                assert(wrapping_sum(nns, i as int) == wrapping_sum(ns, i as int)) by {
                    lemma_wrapping_sum_prefix(nns, ns, i as int);
                }
                ns = nns;
            }
            total = total.wrapping_add(c);
            i = i + 1;
        }
        total
    }
}

} // verus!
