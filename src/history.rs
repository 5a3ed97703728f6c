use vstd::prelude::*;

verus! {

/// Number of fixed-point units in one percent.
pub const UNITS_PER_PERCENT: u32 = 10_000;

/// One hundred percent in fixed-point units.
pub const FULL_SCALE: u32 = 1_000_000;

/// Default number of samples that a history holds.
pub const HISTORY_SIZE: usize = 60;

/// A reading clamped to `[0, FULL_SCALE]`.
pub open spec fn clamp_percent(v: int) -> u32 {
    if v < 0 {
        0
    } else if v > FULL_SCALE {
        FULL_SCALE
    } else {
        v as u32
    }
}

/// Severity band of a percentage sample.
#[derive(Clone, Copy, Debug, PartialEq, Eq, Structural)]
pub enum Band {
    Low,
    Mid,
    High,
}

/// `[0, 50]` is low, `(50, 75]` is mid, above that is high.
pub open spec fn band_of(v: int) -> Band {
    if v <= 50 * UNITS_PER_PERCENT {
        Band::Low
    } else if v <= 75 * UNITS_PER_PERCENT {
        Band::Mid
    } else {
        Band::High
    }
}

/// Clamps a fixed-point reading to `[0, 100]` percent.
pub fn clamp_sample(v: i64) -> (r: u32)
    ensures
        r == clamp_percent(v as int),
{
    if v < 0 {
        0
    } else if v > FULL_SCALE as i64 {
        FULL_SCALE
    } else {
        v as u32
    }
}

/// The severity band of a sample.
pub fn band(v: u32) -> (r: Band)
    ensures
        r == band_of(v as int),
{
    if v <= 50 * UNITS_PER_PERCENT {
        Band::Low
    } else if v <= 75 * UNITS_PER_PERCENT {
        Band::Mid
    } else {
        Band::High
    }
}

/// Abstract state of a history buffer.
pub struct HistoryModel {
    pub capacity: nat,
    pub samples: Seq<u32>,
    pub seeded: bool,
}

impl HistoryModel {
    pub open spec fn wf(self) -> bool {
        &&& self.capacity > 0
        &&& self.samples.len() == self.capacity
        &&& forall|i: int| 0 <= i < self.samples.len() ==> self.samples[i] <= FULL_SCALE
    }

    /// A buffer that has not seen a sample: every slot holds zero.
    pub open spec fn fresh(capacity: nat) -> HistoryModel {
        HistoryModel { capacity, samples: Seq::new(capacity, |i: int| 0u32), seeded: false }
    }

    /// The most recent sample, or zero for an empty sequence.
    pub open spec fn current(self) -> u32 {
        if self.samples.len() == 0 {
            0
        } else {
            self.samples.last()
        }
    }

    /// One push: the first fills every slot, later ones evict the oldest.
    pub open spec fn push(self, v: int) -> HistoryModel {
        let c = clamp_percent(v);
        HistoryModel {
            capacity: self.capacity,
            samples: if self.seeded {
                self.samples.drop_first().push(c)
            } else {
                Seq::new(self.capacity, |i: int| c)
            },
            seeded: true,
        }
    }

    /// Pushes every value of `vs`, first to last.
    pub open spec fn push_all(self, vs: Seq<int>) -> HistoryModel
        decreases vs.len(),
    {
        if vs.len() == 0 {
            self
        } else {
            self.push(vs[0]).push_all(vs.drop_first())
        }
    }
}

/// Pushing keeps a well-formed history well-formed.
pub proof fn lemma_push_wf(m: HistoryModel, v: int)
    requires
        m.wf(),
    ensures
        m.push(v).wf(),
        m.push(v).seeded,
{
}

/// After one or more pushes a history still holds exactly its capacity, and
/// its current sample is the last value pushed, clamped.
pub proof fn lemma_push_all_len_current(m: HistoryModel, vs: Seq<int>)
    requires
        m.wf(),
        vs.len() >= 1,
    ensures
        m.push_all(vs).wf(),
        m.push_all(vs).samples.len() == m.capacity,
        m.push_all(vs).current() == clamp_percent(vs.last()),
    decreases vs.len(),
{
    let m1 = m.push(vs[0]);
    lemma_push_wf(m, vs[0]);
    if vs.len() == 1 {
        assert(vs.drop_first().len() == 0);
        assert(m1.push_all(vs.drop_first()) == m1);
        assert(m.push_all(vs) == m1);
    } else {
        lemma_push_all_len_current(m1, vs.drop_first());
        assert(vs.drop_first().last() == vs.last());
    }
}

/// The first push on a fresh history fills every slot with that value.
pub proof fn lemma_first_push_seeds(capacity: nat, v: int)
    requires
        capacity > 0,
    ensures
        HistoryModel::fresh(capacity).push(v).samples.len() == capacity,
        forall|i: int|
            0 <= i < capacity ==> #[trigger] HistoryModel::fresh(capacity).push(v).samples[i]
                == clamp_percent(v),
{
}

/// On a history already seeded, `k <= capacity` pushes shift the oldest `k`
/// samples out and append the new ones in order.
pub proof fn lemma_push_all_shifts(m: HistoryModel, vs: Seq<int>)
    requires
        m.wf(),
        m.seeded,
        vs.len() <= m.capacity,
    ensures
        m.push_all(vs).samples == m.samples.subrange(vs.len() as int, m.capacity as int) + vs.map_values(
            |x: int| clamp_percent(x),
        ),
    decreases vs.len(),
{
    if vs.len() == 0 {
        assert(m.samples.subrange(0, m.capacity as int) =~= m.samples);
        assert(vs.map_values(|x: int| clamp_percent(x)) =~= Seq::<u32>::empty());
        assert(m.samples + Seq::<u32>::empty() =~= m.samples);
    } else {
        let m1 = m.push(vs[0]);
        lemma_push_wf(m, vs[0]);
        let rest = vs.drop_first();
        lemma_push_all_shifts(m1, rest);
        let k = vs.len() as int;
        assert(m1.samples.subrange(k - 1, m.capacity as int) =~= m.samples.subrange(
            k,
            m.capacity as int,
        ).push(clamp_percent(vs[0])));
        assert(vs.map_values(|x: int| clamp_percent(x)) =~= seq![clamp_percent(vs[0])]
            + rest.map_values(|x: int| clamp_percent(x)));
        assert(m.push_all(vs) == m1.push_all(rest));
        assert(m.samples.subrange(k, m.capacity as int).push(clamp_percent(vs[0])) + rest.map_values(
            |x: int| clamp_percent(x),
        ) =~= m.samples.subrange(k, m.capacity as int) + vs.map_values(
            |x: int| clamp_percent(x),
        ));
    }
}

/// Pushing `capacity + 1` values leaves exactly the last `capacity` of them,
/// clamped, oldest first: the first value is evicted.
pub proof fn lemma_fifo(m: HistoryModel, vs: Seq<int>)
    requires
        m.wf(),
        vs.len() == m.capacity + 1,
    ensures
        m.push_all(vs).samples == vs.drop_first().map_values(|x: int| clamp_percent(x)),
{
    let m1 = m.push(vs[0]);
    lemma_push_wf(m, vs[0]);
    let rest = vs.drop_first();
    lemma_push_all_shifts(m1, rest);
    assert(m.push_all(vs) == m1.push_all(rest));
    assert(m1.samples.subrange(m.capacity as int, m.capacity as int) =~= Seq::<u32>::empty());
    assert(Seq::<u32>::empty() + rest.map_values(|x: int| clamp_percent(x)) =~= rest.map_values(
        |x: int| clamp_percent(x),
    ));
}

/// Bands partition the range and never go down as the sample grows.
pub proof fn lemma_band_monotonic(a: int, b: int)
    requires
        a <= b,
    ensures
        band_of(a) == Band::Mid ==> band_of(b) != Band::Low,
        band_of(a) == Band::High ==> band_of(b) == Band::High,
        band_of(a) == Band::Low <==> a <= 50 * UNITS_PER_PERCENT,
        band_of(a) == Band::High <==> a > 75 * UNITS_PER_PERCENT,
{
}

/// Fixed-capacity rolling sequence of percentage samples.
pub struct HistoryBuffer {
    samples: Vec<u32>,
    seeded: bool,
}

impl HistoryBuffer {
    pub closed spec fn view(&self) -> HistoryModel {
        HistoryModel { capacity: self.samples@.len(), samples: self.samples@, seeded: self.seeded }
    }

    pub open spec fn wf(&self) -> bool {
        self@.wf()
    }

    /// A buffer of `HISTORY_SIZE` zero samples.
    pub fn new() -> (r: HistoryBuffer)
        ensures
            r.wf(),
            r@ == HistoryModel::fresh(HISTORY_SIZE as nat),
    {
        HistoryBuffer::with_capacity(HISTORY_SIZE)
    }

    /// A buffer of `capacity` zero samples.
    pub fn with_capacity(capacity: usize) -> (r: HistoryBuffer)
        requires
            capacity > 0,
        ensures
            r.wf(),
            r@ == HistoryModel::fresh(capacity as nat),
    {
        let r = HistoryBuffer { samples: filled(0, capacity), seeded: false };
        assert(r@.samples =~= HistoryModel::fresh(capacity as nat).samples);
        r
    }

    /// Number of slots.
    pub fn capacity(&self) -> (r: usize)
        ensures
            r == self@.capacity,
    {
        self.samples.len()
    }

    /// Whether a sample has been pushed.
    pub fn is_seeded(&self) -> (r: bool)
        ensures
            r == self@.seeded,
    {
        self.seeded
    }

    /// Clamps `v` and records it: the first push fills every slot, later ones
    /// drop the oldest sample.
    pub fn push(&mut self, v: i64)
        requires
            old(self).wf(),
        ensures
            final(self).wf(),
            final(self)@ == old(self)@.push(v as int),
            final(self)@.samples.len() == old(self)@.capacity,
            final(self)@.current() == clamp_percent(v as int),
    {
        let c = clamp_sample(v);
        let ghost expected = self@.push(v as int);
        if !self.seeded {
            let n = self.samples.len();
            self.samples = filled(c, n);
            self.seeded = true;
        } else {
            self.samples.remove(0);
            self.samples.push(c);
        }
        assert(self@.samples =~= expected.samples);
    }

    /// The most recent sample, zero before the first push.
    pub fn current(&self) -> (r: u32)
        requires
            self.wf(),
        ensures
            r == self@.current(),
    {
        self.samples[self.samples.len() - 1]
    }

    /// The sample at slot `i`, oldest first.
    pub fn get(&self, i: usize) -> (r: u32)
        requires
            i < self@.capacity,
        ensures
            r == self@.samples[i as int],
    {
        self.samples[i]
    }

    /// `(slot, sample)` pairs in slot order, for plotting.
    pub fn snapshot(&self) -> (r: Vec<(usize, u32)>)
        ensures
            r@.len() == self@.capacity,
            forall|i: int| 0 <= i < r@.len() ==> #[trigger] r@[i] == (i as usize, self@.samples[i]),
    {
        let mut r: Vec<(usize, u32)> = Vec::new();
        let n = self.samples.len();
        let mut i: usize = 0;
        while i < n
            invariant
                n == self@.capacity,
                i <= n,
                r@.len() == i,
                forall|j: int| 0 <= j < i ==> #[trigger] r@[j] == (j as usize, self@.samples[j]),
            decreases n - i,
        {
            r.push((i, self.samples[i]));
            i = i + 1;
        }
        r
    }
}

/// `n` copies of `v`.
fn filled(v: u32, n: usize) -> (r: Vec<u32>)
    ensures
        r@ == Seq::new(n as nat, |i: int| v),
{
    let mut r: Vec<u32> = Vec::new();
    let mut i: usize = 0;
    while i < n
        invariant
            i <= n,
            r@ == Seq::new(i as nat, |j: int| v),
        decreases n - i,
    {
        r.push(v);
        i = i + 1;
        assert(r@ =~= Seq::new(i as nat, |j: int| v));
    }
    r
}

} // verus!
