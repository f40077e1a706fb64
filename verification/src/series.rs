//! Bounded, time-ordered sample buffer for one tracked sub-metric.

use vstd::prelude::*;

verus! {

/// One reading of a sub-metric: the elapsed time at which it was taken and
/// the value that was read, both in integer units.
#[derive(Clone, Copy, Debug, PartialEq, Eq, Structural)]
pub struct Sample {
    pub time: u64,
    pub value: u64,
}

/// Holds when the samples of `s` are strictly ascending by time; in
/// particular no two samples share a time.
pub open spec fn times_strictly_ascending(s: Seq<Sample>) -> bool {
    forall|i: int, j: int| 0 <= i < j < s.len() ==> s[i].time < s[j].time
}

/// Time-ordered buffer of samples for one sub-metric. Appends are
/// caller-driven and must be time-monotonic; eviction of the oldest sample is
/// caller-driven too, so the buffer itself imposes no size bound.
pub struct SlidingWindowSeries {
    samples: Vec<Sample>,
}

impl View for SlidingWindowSeries {
    type V = Seq<Sample>;

    closed spec fn view(&self) -> Seq<Sample> {
        self.samples@
    }
}

impl SlidingWindowSeries {
    /// Well-formed: samples are strictly ascending by time.
    pub open spec fn wf(&self) -> bool {
        times_strictly_ascending(self@)
    }

    pub fn new() -> (s: SlidingWindowSeries)
        ensures
            s@ == Seq::<Sample>::empty(),
            s.wf(),
    {
        SlidingWindowSeries { samples: Vec::new() }
    }

    pub fn len(&self) -> (n: usize)
        ensures
            n == self@.len(),
    {
        self.samples.len()
    }

    /// Appends a sample. The new time must lie strictly after every time
    /// already in the buffer, so the buffer stays strictly ascending.
    pub fn add(&mut self, time: u64, value: u64)
        requires
            old(self).wf(),
            old(self)@.len() > 0 ==> old(self)@.last().time < time,
        ensures
            final(self)@ == old(self)@.push(Sample { time, value }),
            final(self).wf(),
    {
        self.samples.push(Sample { time, value });
        proof {
            let s = old(self)@;
            assert forall|i: int, j: int| 0 <= i < j < self@.len() implies self@[i].time
                < self@[j].time by {
                if j < s.len() {
                } else {
                    assert(self@[j] == Sample { time, value });
                    if i < s.len() - 1 {
                        assert(s[i].time < s[s.len() - 1].time);
                    }
                }
            }
        }
    }

    /// Removes and returns the earliest sample; `None` on an empty buffer,
    /// which is then left unchanged.
    pub fn pop_oldest(&mut self) -> (r: Option<Sample>)
        requires
            old(self).wf(),
        ensures
            old(self)@.len() == 0 ==> r is None && final(self)@ == old(self)@,
            old(self)@.len() > 0 ==> r == Some(old(self)@[0]) && final(self)@ == old(
                self,
            )@.drop_first(),
            final(self).wf(),
    {
        if self.samples.len() == 0 {
            None
        } else {
            let s = self.samples.remove(0);
            proof {
                assert(self@ =~= old(self)@.drop_first());
            }
            Some(s)
        }
    }

    /// The earliest sample without removing it, or `None` on an empty buffer.
    pub fn first(&self) -> (r: Option<Sample>)
        ensures
            self@.len() == 0 ==> r is None,
            self@.len() > 0 ==> r == Some(self@[0]),
    {
        if self.samples.len() == 0 {
            None
        } else {
            Some(self.samples[0])
        }
    }

    /// The latest sample, or `None` on an empty buffer.
    pub fn last(&self) -> (r: Option<Sample>)
        ensures
            self@.len() == 0 ==> r is None,
            self@.len() > 0 ==> r == Some(self@.last()),
    {
        if self.samples.len() == 0 {
            None
        } else {
            Some(self.samples[self.samples.len() - 1])
        }
    }

    /// A restartable, read-only view of the buffer as `(time, value)` points,
    /// in buffer order, for rendering.
    pub fn as_points(&self) -> (r: Vec<(u64, u64)>)
        ensures
            r@.len() == self@.len(),
            forall|i: int| 0 <= i < r@.len() ==> r@[i] == (self@[i].time, self@[i].value),
    {
        let mut r: Vec<(u64, u64)> = Vec::new();
        let mut i: usize = 0;
        while i < self.samples.len()
            invariant
                i <= self@.len(),
                r@.len() == i,
                forall|k: int| 0 <= k < i ==> r@[k] == (self@[k].time, self@[k].value),
            decreases self@.len() - i,
        {
            let s = self.samples[i];
            r.push((s.time, s.value));
            i = i + 1;
        }
        r
    }
}

/// Law: a well-formed series is strictly ascending by time, so every valid
/// sequence of appends keeps the earliest sample strictly before the latest.
pub proof fn lemma_series_strictly_ascending(s: SlidingWindowSeries)
    requires
        s.wf(),
        s@.len() > 1,
    ensures
        s@[0].time < s@.last().time,
{
}

/// In a strictly ascending sequence of integer times, the `i`-th time lies at
/// least `i` units above the earliest time.
pub proof fn lemma_ascending_time_gap(s: Seq<Sample>, i: int)
    requires
        times_strictly_ascending(s),
        0 <= i < s.len(),
    ensures
        s[0].time + i <= s[i].time,
    decreases i,
{
    if i > 0 {
        lemma_ascending_time_gap(s, i - 1);
        assert(s[i - 1].time < s[i].time);
    }
}

} // verus!
