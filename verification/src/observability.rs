//! Observability: per-operation latency histograms and success/error
//! counters, and the span that follows one flow from submission to
//! completion.
use crate::flow::Flow;
use crate::operation::Operation;
use std::time::Duration;
use std::time::Instant;
use vstd::prelude::*;

verus! {

/// `std::time::Instant`, the monotonic clock reading a span starts from.
#[verifier::external_type_specification]
#[verifier::external_body]
pub struct ExInstant(Instant);

/// Reads the monotonic clock (`Instant::now`); nothing is stated of the
/// reading, which depends on the time of the call.
#[verifier::external_body]
fn instant_now() -> Instant {
    Instant::now()
}

/// The time elapsed since `start` (`Instant::elapsed`); nothing is stated
/// of it, as it depends on the time of the call.
#[verifier::external_body]
fn elapsed_since(start: &Instant) -> Duration {
    start.elapsed()
}

/// The whole microseconds in `d` (`Duration::as_micros`). The result is
/// left unstated: the duration is opaque here.
#[verifier::external_body]
fn whole_micros(d: &Duration) -> u128 {
    d.as_micros()
}

/// The high-level operation categories that are instrumented.
#[derive(Clone, Copy, PartialEq, Eq, Structural, Debug, Hash)]
pub enum OpKind {
    /// `Operation::Read` (file, positional).
    Read,
    /// `Operation::Write` (file, positional).
    Write,
    /// `Operation::Readv`.
    Readv,
    /// `Operation::Writev`.
    Writev,
    /// `Operation::Recv` (socket).
    Recv,
    /// `Operation::Send` (socket).
    Send,
    /// `Operation::Accept`.
    Accept,
    /// `Operation::Connect`.
    Connect,
    /// `Operation::Close`.
    Close,
}

/// The kind of an operation.
pub open spec fn op_kind_of(op: &Operation) -> OpKind {
    match op {
        Operation::Read { .. } => OpKind::Read,
        Operation::Write { .. } => OpKind::Write,
        Operation::Readv { .. } => OpKind::Readv,
        Operation::Writev { .. } => OpKind::Writev,
        Operation::Recv { .. } => OpKind::Recv,
        Operation::Send { .. } => OpKind::Send,
        Operation::Accept { .. } => OpKind::Accept,
        Operation::Connect { .. } => OpKind::Connect,
        Operation::Close { .. } => OpKind::Close,
    }
}

impl OpKind {
    /// The total number of operation kinds.
    pub const COUNT: usize = 9;

    /// The position of the kind in declaration order.
    pub open spec fn position(self) -> int {
        match self {
            OpKind::Read => 0,
            OpKind::Write => 1,
            OpKind::Readv => 2,
            OpKind::Writev => 3,
            OpKind::Recv => 4,
            OpKind::Send => 5,
            OpKind::Accept => 6,
            OpKind::Connect => 7,
            OpKind::Close => 8,
        }
    }

    /// Map a concrete operation to its kind.
    pub fn from_op(op: &Operation) -> (k: Self)
        ensures
            k == op_kind_of(op),
    {
        match op {
            Operation::Read { .. } => OpKind::Read,
            Operation::Write { .. } => OpKind::Write,
            Operation::Readv { .. } => OpKind::Readv,
            Operation::Writev { .. } => OpKind::Writev,
            Operation::Recv { .. } => OpKind::Recv,
            Operation::Send { .. } => OpKind::Send,
            Operation::Accept { .. } => OpKind::Accept,
            Operation::Connect { .. } => OpKind::Connect,
            Operation::Close { .. } => OpKind::Close,
        }
    }

    /// Stable, ordered index used for the per-kind metrics.
    pub fn index(self) -> (i: usize)
        ensures
            i == self.position(),
            i < Self::COUNT,
    {
        match self {
            OpKind::Read => 0,
            OpKind::Write => 1,
            OpKind::Readv => 2,
            OpKind::Writev => 3,
            OpKind::Recv => 4,
            OpKind::Send => 5,
            OpKind::Accept => 6,
            OpKind::Connect => 7,
            OpKind::Close => 8,
        }
    }
}

/// The first index at or after `i` whose boundary lies above `micros`, or
/// the number of boundaries when there is none.
pub open spec fn first_bound_above(bounds: Seq<u64>, micros: u64, i: int) -> int
    decreases bounds.len() - i,
{
    if i < 0 || i >= bounds.len() {
        bounds.len() as int
    } else if micros < bounds[i] {
        i
    } else {
        first_bound_above(bounds, micros, i + 1)
    }
}

/// The bucket a latency of `micros` falls in: the first boundary above it,
/// or the final overflow bucket.
pub open spec fn bucket_of(bounds: Seq<u64>, micros: u64) -> int {
    first_bound_above(bounds, micros, 0)
}

proof fn lemma_first_bound_above_range(bounds: Seq<u64>, micros: u64, i: int)
    requires
        0 <= i,
    ensures
        0 <= first_bound_above(bounds, micros, i) <= bounds.len(),
        i <= bounds.len() ==> i <= first_bound_above(bounds, micros, i),
    decreases bounds.len() - i,
{
    if i < bounds.len() && !(micros < bounds[i]) {
        lemma_first_bound_above_range(bounds, micros, i + 1);
    }
}

/// `counts` with one more count in bucket `b` (wrapping, as an atomic
/// A latency's bucket is one of the histogram's buckets: one per boundary,
/// plus the overflow bucket past the last boundary.
pub proof fn lemma_bucket_in_range(bounds: Seq<u64>, micros: u64)
    ensures
        0 <= bucket_of(bounds, micros) <= bounds.len(),
{
    lemma_first_bound_above_range(bounds, micros, 0);
}

/// counter does).
pub open spec fn count_one(counts: Seq<u64>, b: int) -> Seq<u64> {
    counts.update(b, counts[b].wrapping_add(1))
}

/// The total of the first `n` counts.
pub open spec fn count_total(counts: Seq<u64>, n: int) -> int
    decreases n,
{
    if n <= 0 {
        0
    } else {
        count_total(counts, n - 1) + counts[n - 1]
    }
}

/// Recording one latency adds exactly one to a histogram's total count
/// (while the bucket's counter has not reached its maximum).
pub proof fn law_record_adds_one(counts: Seq<u64>, b: int)
    requires
        0 <= b < counts.len(),
        counts[b] < u64::MAX,
    ensures
        count_total(count_one(counts, b), counts.len() as int) == count_total(
            counts,
            counts.len() as int,
        ) + 1,
{
    lemma_count_total_update(counts, b, counts.len() as int);
}

proof fn lemma_count_total_update(counts: Seq<u64>, b: int, n: int)
    requires
        0 <= b < counts.len(),
        counts[b] < u64::MAX,
        0 <= n <= counts.len(),
    ensures
        count_total(count_one(counts, b), n) == count_total(counts, n) + if b < n {
            1int
        } else {
            0int
        },
    decreases n,
{
    if n > 0 {
        lemma_count_total_update(counts, b, n - 1);
        assert((counts[b] + 1) as u64 == counts[b].wrapping_add(1));
    }
}

/// The latency bucket boundaries, in microseconds: under 1 µs, 10 µs,
/// 100 µs, 1 ms, 10 ms, 100 ms, 1 s, and above.
pub open spec fn latency_bounds() -> Seq<u64> {
    seq![1, 10, 100, 1_000, 10_000, 100_000, 1_000_000]
}

/// Latency histogram. Buckets are defined by ascending microsecond
/// boundaries; the final bucket captures everything at or above the last
/// boundary.
pub struct Histogram {
    boundaries_us: Vec<u64>,
    counts: Vec<u64>,
}

impl Histogram {
    /// The bucket boundaries.
    pub closed spec fn bounds(&self) -> Seq<u64> {
        self.boundaries_us@
    }

    /// The bucket counts, one per boundary and one overflow bucket.
    pub closed spec fn counts(&self) -> Seq<u64> {
        self.counts@
    }

    /// There is one count per bucket.
    pub open spec fn wf(&self) -> bool {
        self.counts().len() == self.bounds().len() + 1
    }

    fn new(boundaries_us: Vec<u64>) -> (h: Self)
        requires
            boundaries_us.len() < usize::MAX,
        ensures
            h.wf(),
            h.bounds() == boundaries_us@,
            forall|i: int| 0 <= i < h.counts().len() ==> h.counts()[i] == 0,
    {
        let n = boundaries_us.len();
        let mut counts: Vec<u64> = Vec::with_capacity(n + 1);
        let mut i: usize = 0;
        while i <= n
            invariant
                i <= n + 1,
                n < usize::MAX,
                counts.len() == i,
                forall|j: int| 0 <= j < i ==> counts[j] == 0,
            decreases n + 1 - i,
        {
            counts.push(0);
            i = i + 1;
        }
        Histogram { boundaries_us, counts }
    }

    fn empty() -> (h: Self)
        ensures
            h.wf(),
    {
        let mut counts: Vec<u64> = Vec::new();
        counts.push(0);
        Histogram { boundaries_us: Vec::new(), counts }
    }

    fn record(&mut self, micros: u64)
        requires
            old(self).wf(),
        ensures
            final(self).wf(),
            final(self).bounds() == old(self).bounds(),
            final(self).counts() == count_one(
                old(self).counts(),
                bucket_of(old(self).bounds(), micros),
            ),
    {
        let n = self.boundaries_us.len();
        let mut bucket = n;
        let mut i: usize = 0;
        while i < n
            invariant_except_break
                bucket == n,
            invariant
                i <= n,
                n == self.boundaries_us.len(),
                first_bound_above(self.boundaries_us@, micros, i as int) == bucket_of(
                    self.boundaries_us@,
                    micros,
                ),
            ensures
                bucket == bucket_of(self.boundaries_us@, micros),
            decreases n - i,
        {
            if micros < self.boundaries_us[i] {
                bucket = i;
                break;
            }
            i = i + 1;
        }
        proof {
            lemma_first_bound_above_range(self.boundaries_us@, micros, 0);
        }
        let c = self.counts[bucket];
        self.counts.set(bucket, c.wrapping_add(1));
    }

    /// Snapshot of the current bucket counts (parallel to the boundaries,
    /// plus the overflow bucket).
    pub fn snapshot(&self) -> (v: Vec<u64>)
        ensures
            v@ == self.counts(),
    {
        let mut v: Vec<u64> = Vec::new();
        let mut i: usize = 0;
        while i < self.counts.len()
            invariant
                i <= self.counts.len(),
                v@ == self.counts@.subrange(0, i as int),
            decreases self.counts.len() - i,
        {
            v.push(self.counts[i]);
            i = i + 1;
        }
        assert(v@ =~= self.counts@);
        v
    }

    /// The bucket boundaries in microseconds.
    pub fn boundaries(&self) -> (b: &[u64])
        ensures
            b@ == self.bounds(),
    {
        self.boundaries_us.as_slice()
    }
}

/// Aggregate metrics: a latency histogram per [`OpKind`] plus total and
/// error counters.
pub struct Metrics {
    histograms: Vec<Histogram>,
    total: u64,
    errors: u64,
}

impl Metrics {
    /// The histogram kept for the kind at position `i`.
    pub closed spec fn histogram_at(&self, i: int) -> Histogram {
        self.histograms@[i]
    }

    /// Completed operations recorded.
    pub closed spec fn total_count(&self) -> u64 {
        self.total
    }

    /// Errored operations recorded.
    pub closed spec fn error_count(&self) -> u64 {
        self.errors
    }

    /// There is one well-formed histogram per operation kind.
    pub closed spec fn wf(&self) -> bool {
        &&& self.histograms@.len() == OpKind::COUNT
        &&& forall|i: int| 0 <= i < OpKind::COUNT ==> #[trigger] self.histograms@[i].wf()
    }

    /// A well-formed recorder keeps, for every kind, a histogram with one
    /// count per boundary plus one overflow count.
    pub proof fn lemma_histograms_wf(&self)
        requires
            self.wf(),
        ensures
            forall|i: int| 0 <= i < OpKind::COUNT ==> (#[trigger] self.histogram_at(i)).wf(),
    {
    }

    /// An empty recorder: no operations, and for every kind a histogram over
    /// the standard latency boundaries (one count per boundary plus one)
    /// with all counts zero.
    pub fn new() -> (m: Self)
        ensures
            m.wf(),
            forall|i: int| 0 <= i < OpKind::COUNT ==> (#[trigger] m.histogram_at(i)).wf(),
            m.total_count() == 0,
            m.error_count() == 0,
            forall|i: int|
                0 <= i < OpKind::COUNT ==> (#[trigger] m.histogram_at(i)).bounds()
                    == latency_bounds(),
            forall|i: int, j: int|
                #![trigger m.histogram_at(i).counts()[j]]
                0 <= i < OpKind::COUNT && 0 <= j < m.histogram_at(i).counts().len()
                    ==> m.histogram_at(i).counts()[j] == 0,
    {
        let mut histograms: Vec<Histogram> = Vec::with_capacity(OpKind::COUNT);
        let mut k: usize = 0;
        while k < OpKind::COUNT
            invariant
                k <= OpKind::COUNT,
                histograms.len() == k,
                forall|i: int| 0 <= i < k ==> (#[trigger] histograms@[i]).wf(),
                forall|i: int| 0 <= i < k ==> (#[trigger] histograms@[i]).bounds() == latency_bounds(),
                forall|i: int, j: int|
                    #![trigger histograms@[i].counts()[j]]
                    0 <= i < k && 0 <= j < histograms@[i].counts().len()
                        ==> histograms@[i].counts()[j] == 0,
            decreases OpKind::COUNT - k,
        {
            let bounds: Vec<u64> = vec![1, 10, 100, 1_000, 10_000, 100_000, 1_000_000];
            assert(bounds@ =~= latency_bounds());
            histograms.push(Histogram::new(bounds));
            k = k + 1;
        }
        Metrics { histograms, total: 0, errors: 0 }
    }

    /// Record a completed operation whose latency was `micros` whole
    /// microseconds (counted as `u64::MAX` above that): the latency goes
    /// into its bucket of the histogram of the operation's kind, and the
    /// operation is counted, as an error when `ok` is false.
    pub fn record(&mut self, op: OpKind, micros: u128, ok: bool)
        requires
            old(self).wf(),
        ensures
            final(self).wf(),
            forall|i: int| 0 <= i < OpKind::COUNT ==> (#[trigger] final(self).histogram_at(i)).wf(),
            final(self).total_count() == old(self).total_count().wrapping_add(1),
            final(self).error_count() == (if ok {
                old(self).error_count()
            } else {
                old(self).error_count().wrapping_add(1)
            }),
            forall|i: int|
                0 <= i < OpKind::COUNT && i != op.position() ==> #[trigger] final(self).histogram_at(i)
                    == old(self).histogram_at(i),
            final(self).histogram_at(op.position()).bounds() == old(self).histogram_at(
                op.position(),
            ).bounds(),
            final(self).histogram_at(op.position()).counts() == count_one(
                old(self).histogram_at(op.position()).counts(),
                bucket_of(
                    old(self).histogram_at(op.position()).bounds(),
                    (if micros > u64::MAX as u128 {
                        u64::MAX
                    } else {
                        micros as u64
                    }),
                ),
            ),
    {
        let clamped: u64 = if micros > u64::MAX as u128 {
            u64::MAX
        } else {
            micros as u64
        };
        let i = op.index();
        let mut h = Histogram::empty();
        self.histograms.set_and_swap(i, &mut h);
        h.record(clamped);
        self.histograms.set_and_swap(i, &mut h);
        self.total = self.total.wrapping_add(1);
        if !ok {
            self.errors = self.errors.wrapping_add(1);
        }
        proof {
            assert forall|j: int| 0 <= j < OpKind::COUNT implies #[trigger] self.histograms@[j].wf() by {
                if j != i {
                    assert(self.histograms@[j] == old(self).histograms@[j]);
                }
            }
        }
    }

    /// Read the latency histogram for a specific operation kind.
    pub fn histogram(&self, op: OpKind) -> (h: &Histogram)
        requires
            self.wf(),
        ensures
            *h == self.histogram_at(op.position()),
    {
        &self.histograms[op.index()]
    }

    /// Total completed operations recorded.
    pub fn total(&self) -> (n: u64)
        ensures
            n == self.total_count(),
    {
        self.total
    }

    /// Total errored operations recorded.
    pub fn errors(&self) -> (n: u64)
        ensures
            n == self.error_count(),
    {
        self.errors
    }
}

/// Follows one flow from submission to completion: when it started, the
/// caller data of the flow, and the kind of its operation.
pub struct FlowSpan {
    start: Instant,
    user_data: u64,
    op: OpKind,
}

impl FlowSpan {
    /// The kind of the flow's operation.
    pub closed spec fn kind(&self) -> OpKind {
        self.op
    }

    /// The flow's caller data.
    pub closed spec fn data(&self) -> u64 {
        self.user_data
    }

    /// Create a new span for the given flow, starting now.
    pub fn new(flow: &Flow) -> (s: Self)
        ensures
            s.kind() == op_kind_of(&flow.op_of()),
            s.data() == flow.user_data_of(),
    {
        let op = OpKind::from_op(flow.operation());
        let user_data = flow.user_data();
        FlowSpan { start: instant_now(), user_data, op }
    }

    /// Record the completion of this operation in `metrics`. `result` is the
    /// raw completion value: a non-negative byte count on success or a
    /// negative errno on failure.
    pub fn complete(self, result: i64, metrics: &mut Metrics)
        requires
            old(metrics).wf(),
        ensures
            final(metrics).wf(),
            forall|i: int| 0 <= i < OpKind::COUNT ==> (#[trigger] final(metrics).histogram_at(i)).wf(),
            final(metrics).total_count() == old(metrics).total_count().wrapping_add(1),
            final(metrics).error_count() == (if result >= 0 {
                old(metrics).error_count()
            } else {
                old(metrics).error_count().wrapping_add(1)
            }),
            forall|i: int|
                0 <= i < OpKind::COUNT && i != self.kind().position()
                    ==> #[trigger] final(metrics).histogram_at(i) == old(metrics).histogram_at(i),
            final(metrics).histogram_at(self.kind().position()).bounds() == old(
                metrics,
            ).histogram_at(self.kind().position()).bounds(),
            exists|micros: u64|
                final(metrics).histogram_at(self.kind().position()).counts()
                    == #[trigger] count_one(
                    old(metrics).histogram_at(self.kind().position()).counts(),
                    bucket_of(old(metrics).histogram_at(self.kind().position()).bounds(), micros),
                ),
    {
        let elapsed = elapsed_since(&self.start);
        let ok = result >= 0;
        metrics.record(self.op, whole_micros(&elapsed), ok);
    }
}

} // verus!
