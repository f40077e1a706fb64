//! Per-category metric widget: a set of sliding-window series that evict in
//! lockstep, plus the monitor that owns the shared axes.

use vstd::prelude::*;

use crate::monitor::{widened_all, Monitor};
use crate::series::{lemma_ascending_time_gap, Sample, SlidingWindowSeries};

verus! {

/// One tracked sub-metric: its display label and its sample buffer.
pub struct TrackedMetric {
    pub label: String,
    pub series: SlidingWindowSeries,
}

/// A poll failure, identifying which sub-metric failed by position and label.
#[derive(Debug)]
pub struct PollError {
    pub index: usize,
    pub label: String,
}

/// Widgets whose state a tick refreshes. The surrounding program implements
/// this for each metric category it wires to its own metric sources.
pub trait Updatable {
    fn update(&mut self) -> Result<(), PollError>;
}

/// Every reading is present.
pub open spec fn all_some(rs: Seq<Option<u64>>) -> bool {
    forall|i: int| 0 <= i < rs.len() ==> rs[i] is Some
}

/// The readings with their `Some` stripped; meaningful when `all_some` holds.
pub open spec fn vals_of(rs: Seq<Option<u64>>) -> Seq<u64> {
    Seq::new(rs.len(), |i: int| rs[i]->0)
}

/// The time a tick stamps its samples with: the elapsed clock after the
/// tick's measured delta is added.
pub open spec fn tick_time(w: MetricWidget, delta: u64) -> u64 {
    (w.monitor.elapsed + delta) as u64
}

/// Whether the tick stamped `t` scrolls the window of `w`.
pub open spec fn scroll_fires(w: MetricWidget, t: u64) -> bool {
    t > w.monitor.x_offset + w.monitor.x_width
}

/// Series `i` of `w` right after the tick stamped `t` appended reading `v`.
pub open spec fn appended(w: MetricWidget, i: int, t: u64, v: u64) -> Seq<Sample> {
    w.stats@[i].series@.push(Sample { time: t, value: v })
}

/// One metric category's widget: one series per tracked sub-metric and the
/// monitor that owns the shared x-window and y-range.
pub struct MetricWidget {
    pub stats: Vec<TrackedMetric>,
    pub monitor: Monitor,
}

impl MetricWidget {
    /// Well-formed: at least one tracked sub-metric; every series strictly
    /// ascending; all series of equal length and time-aligned with the
    /// reference series; no stored time past the elapsed clock; and the
    /// window's lower edge never past the earliest retained sample (or the
    /// clock, while the series are empty).
    pub open spec fn wf(&self) -> bool {
        &&& self.monitor.wf()
        &&& self.stats@.len() > 0
        &&& (forall|i: int| 0 <= i < self.stats@.len() ==> (#[trigger] self.stats@[i]).series.wf())
        &&& (forall|i: int|
            0 <= i < self.stats@.len() ==> (#[trigger] self.stats@[i]).series@.len()
                == self.stats@[0].series@.len())
        &&& (forall|i: int, k: int|
            0 <= i < self.stats@.len() && 0 <= k < self.stats@[i].series@.len() ==> (#[trigger] self
                .stats@[i].series@[k]).time == self.stats@[0].series@[k].time)
        &&& (forall|i: int, k: int|
            0 <= i < self.stats@.len() && 0 <= k < self.stats@[i].series@.len() ==> (#[trigger] self
                .stats@[i].series@[k]).time <= self.monitor.elapsed)
        &&& (self.stats@[0].series@.len() > 0 ==> self.monitor.x_offset <= self.stats@[0].series@[0].time)
        &&& (self.stats@[0].series@.len() == 0 ==> self.monitor.x_offset <= self.monitor.elapsed)
    }

    /// A widget tracking one empty series per label, with a fresh monitor for
    /// a window of width `x_width` starting at zero.
    pub fn new(labels: Vec<String>, x_width: u64) -> (w: MetricWidget)
        requires
            labels@.len() > 0,
        ensures
            w.wf(),
            w.monitor == (Monitor {
                x_offset: 0u64,
                x_width,
                y_min: u64::MAX,
                y_max: 0u64,
                elapsed: 0u64,
            }),
            w.stats@.len() == labels@.len(),
            forall|i: int|
                0 <= i < labels@.len() ==> (#[trigger] w.stats@[i]).label == labels@[i]
                    && w.stats@[i].series@ == Seq::<Sample>::empty(),
    {
        let ghost orig = labels@;
        let mut labels = labels;
        let mut stats: Vec<TrackedMetric> = Vec::new();
        while labels.len() > 0
            invariant
                stats@.len() + labels@.len() == orig.len(),
                labels@ == orig.subrange(stats@.len() as int, orig.len() as int),
                forall|i: int|
                    0 <= i < stats@.len() ==> (#[trigger] stats@[i]).label == orig[i]
                        && stats@[i].series@ == Seq::<Sample>::empty(),
            decreases labels@.len(),
        {
            let l = labels.remove(0);
            stats.push(TrackedMetric { label: l, series: SlidingWindowSeries::new() });
            proof {
                assert(labels@ =~= orig.subrange(stats@.len() as int, orig.len() as int));
            }
        }
        proof {
            assert(labels@ =~= orig.subrange(orig.len() as int, orig.len() as int));
        }
        let m = Monitor::new(0, x_width);
        MetricWidget { stats, monitor: m }
    }

    /// One tick's worth of work, given the wall-clock delta since the last
    /// tick and one polled reading per tracked sub-metric (`None` where the
    /// poll failed).
    ///
    /// If any reading is missing, the error names the first failed
    /// sub-metric and nothing at all is applied, so prior samples stay
    /// intact. Otherwise the clock advances by `delta`; every series appends
    /// its reading at the new elapsed time; the y-bounds widen to admit every
    /// reading; and if the new elapsed time has passed the window's upper
    /// edge, every series evicts exactly one oldest sample in the same step
    /// and the window advances by the gap between the evicted sample and the
    /// new earliest one, keeping its width.
    #[verifier::loop_isolation(false)]
    pub fn update(&mut self, delta: u64, readings: &Vec<Option<u64>>) -> (r: Result<
        (),
        PollError,
    >)
        requires
            old(self).wf(),
            1 <= delta,
            readings@.len() == old(self).stats@.len(),
            old(self).monitor.elapsed + delta + old(self).monitor.x_width <= u64::MAX,
        ensures
            final(self).wf(),
            final(self).stats@.len() == old(self).stats@.len(),
            forall|i: int|
                0 <= i < final(self).stats@.len() ==> (#[trigger] final(self).stats@[i]).label
                    == old(self).stats@[i].label,
            r is Ok <==> all_some(readings@),
            (r matches Err(e) ==> {
                &&& *final(self) == *old(self)
                &&& e.index < readings@.len()
                &&& readings@[e.index as int] is None
                &&& (forall|j: int| 0 <= j < e.index ==> readings@[j] is Some)
                &&& e.label == old(self).stats@[e.index as int].label
            }),
            (r is Ok ==> {
                let t = tick_time(*old(self), delta);
                let scrolled = scroll_fires(*old(self), t);
                let vals = vals_of(readings@);
                &&& final(self).monitor.elapsed == t
                &&& final(self).monitor.x_width == old(self).monitor.x_width
                &&& final(self).monitor.y_min == widened_all(old(self).monitor, vals).y_min
                &&& final(self).monitor.y_max == widened_all(old(self).monitor, vals).y_max
                &&& (forall|i: int|
                    0 <= i < readings@.len() ==> (#[trigger] final(self).stats@[i]).series@ == (
                    if scrolled {
                        appended(*old(self), i, t, vals[i]).drop_first()
                    } else {
                        appended(*old(self), i, t, vals[i])
                    }))
                &&& (forall|i: int|
                    0 <= i < readings@.len() ==> (#[trigger] final(self).stats@[i]).series@.len()
                        == old(self).stats@[i].series@.len() + 1 - (if scrolled {
                        1int
                    } else {
                        0int
                    }))
                &&& final(self).monitor.x_offset == (if scrolled && old(self).stats@[0].series@.len()
                    > 0 {
                    (old(self).monitor.x_offset + (appended(*old(self), 0, t, vals[0])[1].time
                        - appended(*old(self), 0, t, vals[0])[0].time)) as u64
                } else {
                    old(self).monitor.x_offset
                })
            }),
            // a one-unit tick never leaves the clock past the window's upper
            // edge: when the window scrolls, it advances at least as fast as
            // the clock, so (with `lemma_window_bounds_retention`) unit-time
            // feeding keeps every series within `x_width + 1` samples
            ({
                let edge = old(self).monitor.x_offset + old(self).monitor.x_width;
                let len0 = old(self).stats@[0].series@.len();
                let clock = old(self).monitor.elapsed;
                r is Ok && delta == 1 && clock <= edge && (len0 > 0 || clock < edge)
            }) ==> final(self).monitor.elapsed <= final(self).monitor.x_offset
                + final(self).monitor.x_width,
    {
        // Validate every reading before touching any state, so that a failed
        // poll leaves all prior samples intact.
        let n = readings.len();
        let mut i: usize = 0;
        while i < n
            invariant
                n == readings@.len(),
                readings@.len() == self.stats@.len(),
                i <= n,
                *self == *old(self),
                forall|j: int| 0 <= j < i ==> readings@[j] is Some,
            decreases n - i,
        {
            if readings[i].is_none() {
                let label = self.stats[i].label.clone();
                return Err(PollError { index: i, label });
            }
            i = i + 1;
        }
        proof {
            assert(all_some(readings@));
        }

        let ghost w0 = *old(self);
        // Advance the elapsed clock by the measured delta.
        self.monitor.add_time(delta);
        let t = self.monitor.time();
        let ghost m1 = self.monitor;
        let ghost vals = vals_of(readings@);

        // Append each reading at the new elapsed time and widen the y-bounds.
        let mut i: usize = 0;
        while i < n
            invariant
                n == readings@.len(),
                all_some(readings@),
                vals == vals_of(readings@),
                w0.wf(),
                n == w0.stats@.len(),
                self.stats@.len() == n,
                i <= n,
                delta >= 1,
                t == w0.monitor.elapsed + delta,
                w0.monitor.elapsed + delta + w0.monitor.x_width <= u64::MAX,
                m1 == (Monitor { elapsed: t, ..w0.monitor }),
                self.monitor == widened_all(m1, vals.subrange(0, i as int)),
                self.monitor.elapsed == t,
                self.monitor.x_offset == w0.monitor.x_offset,
                self.monitor.x_width == w0.monitor.x_width,
                forall|j: int|
                    0 <= j < n ==> (#[trigger] self.stats@[j]).label == w0.stats@[j].label,
                forall|j: int|
                    i <= j < n ==> (#[trigger] self.stats@[j]).series == w0.stats@[j].series,
                forall|j: int|
                    0 <= j < i ==> (#[trigger] self.stats@[j]).series@ == appended(
                        w0,
                        j,
                        t,
                        vals[j],
                    ),
                forall|j: int| 0 <= j < n ==> (#[trigger] self.stats@[j]).series.wf(),
            decreases n - i,
        {
            let v = readings[i].unwrap();
            proof {
                assert(vals[i as int] == v);
                let s = w0.stats@[i as int].series@;
                if s.len() > 0 {
                    assert(w0.stats@[i as int].series@[s.len() - 1].time <= w0.monitor.elapsed);
                }
            }
            self.stats[i].series.add(t, v);
            self.monitor.extend_y_bounds(v);
            proof {
                assert(vals.subrange(0, i + 1) =~= vals.subrange(0, i as int).push(vals[i as int]));
                crate::monitor::lemma_widened_all_snoc(
                    m1,
                    vals.subrange(0, i as int),
                    vals[i as int],
                );
            }
            i = i + 1;
        }
        proof {
            assert(vals.subrange(0, n as int) =~= vals);
            crate::monitor::lemma_widened_all_same_y(m1, w0.monitor, vals);
        }

        // Scroll: once the clock has passed the window's upper edge, evict
        // the oldest sample from the reference series, advance the window by
        // the gap to the new earliest sample, then evict one oldest sample
        // from every other series so all series stay time-aligned.
        let scrolled = self.monitor.maybe_scroll();
        if scrolled {
            let popped = self.stats[0].series.pop_oldest();
            let p = popped.unwrap();
            proof {
                assert(p == appended(w0, 0, t, vals[0])[0]);
            }
            match self.stats[0].series.first() {
                Some(f) => {
                    proof {
                        let ap = appended(w0, 0, t, vals[0]);
                        assert(f == ap.drop_first()[0]);
                        assert(f == ap[1]);
                        // the appended series is strictly ascending, so the
                        // evicted sample lies strictly before the new first
                        assert(ap[0].time < ap[1].time);
                        // the old first sample bounds the window's lower edge
                        assert(w0.monitor.x_offset <= ap[0].time);
                        // and the new first sample lies no later than `t`
                        if ap.len() > 2 {
                            assert(ap[1].time < ap[ap.len() - 1].time);
                        }
                        assert(ap[ap.len() - 1].time == t);
                    }
                    let gap = f.time - p.time;
                    self.monitor.shift_x_axis(gap);
                },
                None => {},
            }
            let mut i: usize = 1;
            let ghost m2 = self.monitor;
            while i < n
                invariant
                    n == readings@.len(),
                    all_some(readings@),
                    vals == vals_of(readings@),
                    w0.wf(),
                    n == w0.stats@.len(),
                    self.stats@.len() == n,
                    1 <= i <= n,
                    t == w0.monitor.elapsed + delta,
                    self.monitor == m2,
                    forall|j: int|
                        0 <= j < n ==> (#[trigger] self.stats@[j]).label == w0.stats@[j].label,
                    forall|j: int|
                        0 <= j < i ==> (#[trigger] self.stats@[j]).series@ == appended(
                            w0,
                            j,
                            t,
                            vals[j],
                        ).drop_first(),
                    forall|j: int|
                        i <= j < n ==> (#[trigger] self.stats@[j]).series@ == appended(
                            w0,
                            j,
                            t,
                            vals[j],
                        ),
                    forall|j: int| 0 <= j < n ==> (#[trigger] self.stats@[j]).series.wf(),
                decreases n - i,
            {
                let _ = self.stats[i].series.pop_oldest();
                i = i + 1;
            }
        }
        proof {
            lemma_update_post_wf(w0, *self, t, delta, vals, scrolled);
            if scrolled && w0.stats@[0].series@.len() > 0 {
                let ap = appended(w0, 0, t, vals[0]);
                if w0.stats@[0].series@.len() > 1 {
                    assert(ap[0] == w0.stats@[0].series@[0]);
                    assert(ap[1] == w0.stats@[0].series@[1]);
                    assert(w0.stats@[0].series@[0].time < w0.stats@[0].series@[1].time);
                } else {
                    assert(ap[1].time == t);
                    assert(ap[0].time <= w0.monitor.elapsed);
                }
                assert(ap[0].time < ap[1].time);
            }
        }
        Ok(())
    }

    /// How many sub-metrics the widget tracks.
    pub fn sub_metric_count(&self) -> (n: usize)
        ensures
            n == self.stats@.len(),
    {
        self.stats.len()
    }

    /// The label of sub-metric `i`.
    pub fn label(&self, i: usize) -> (r: &String)
        requires
            i < self.stats@.len(),
        ensures
            *r == self.stats@[i as int].label,
    {
        &self.stats[i].label
    }

    /// The chart points of sub-metric `i`, in time order.
    pub fn series_points(&self, i: usize) -> (r: Vec<(u64, u64)>)
        requires
            i < self.stats@.len(),
        ensures
            r@.len() == self.stats@[i as int].series@.len(),
            forall|k: int|
                0 <= k < r@.len() ==> r@[k] == (
                self.stats@[i as int].series@[k].time,
                self.stats@[i as int].series@[k].value,
            ),
    {
        self.stats[i].series.as_points()
    }

    /// The latest reading of each sub-metric, in order; `None` where a series
    /// is still empty. This feeds the textual summary pane.
    pub fn latest_values(&self) -> (r: Vec<Option<u64>>)
        ensures
            r@.len() == self.stats@.len(),
            forall|i: int|
                0 <= i < r@.len() ==> r@[i] == (if self.stats@[i].series@.len() == 0 {
                    Option::<u64>::None
                } else {
                    Option::Some(self.stats@[i].series@.last().value)
                }),
    {
        let mut r: Vec<Option<u64>> = Vec::new();
        let mut i: usize = 0;
        while i < self.stats.len()
            invariant
                i <= self.stats@.len(),
                r@.len() == i,
                forall|k: int|
                    0 <= k < i ==> r@[k] == (if self.stats@[k].series@.len() == 0 {
                        Option::<u64>::None
                    } else {
                        Option::Some(self.stats@[k].series@.last().value)
                    }),
            decreases self.stats@.len() - i,
        {
            let latest = match self.stats[i].series.last() {
                Some(s) => Some(s.value),
                None => None,
            };
            r.push(latest);
            i = i + 1;
        }
        r
    }

    /// The monitor owning this widget's axes.
    pub fn monitor(&self) -> (m: &Monitor)
        ensures
            *m == self.monitor,
    {
        &self.monitor
    }
}

/// The well-formedness of the widget after a successful tick, packaged so the
/// update itself stays readable.
proof fn lemma_update_post_wf(
    w0: MetricWidget,
    w1: MetricWidget,
    t: u64,
    delta: u64,
    vals: Seq<u64>,
    scrolled: bool,
)
    requires
        w0.wf(),
        delta >= 1,
        t == w0.monitor.elapsed + delta,
        w0.monitor.elapsed + delta + w0.monitor.x_width <= u64::MAX,
        w1.stats@.len() == w0.stats@.len(),
        vals.len() == w0.stats@.len(),
        w1.monitor.elapsed == t,
        w1.monitor.x_width == w0.monitor.x_width,
        scrolled == (t > w0.monitor.x_offset + w0.monitor.x_width),
        forall|j: int|
            0 <= j < w1.stats@.len() ==> (#[trigger] w1.stats@[j]).series@ == (if scrolled {
                appended(w0, j, t, vals[j]).drop_first()
            } else {
                appended(w0, j, t, vals[j])
            }),
        forall|j: int| 0 <= j < w1.stats@.len() ==> (#[trigger] w1.stats@[j]).series.wf(),
        w1.monitor.x_offset == (if scrolled && w0.stats@[0].series@.len() > 0 {
            (w0.monitor.x_offset + (appended(w0, 0, t, vals[0])[1].time - appended(
                w0,
                0,
                t,
                vals[0],
            )[0].time)) as u64
        } else {
            w0.monitor.x_offset
        }),
        w1.monitor.wf(),
    ensures
        w1.wf(),
{
    let n = w1.stats@.len();
    assert forall|i: int| 0 <= i < n implies (#[trigger] w1.stats@[i]).series@.len()
        == w1.stats@[0].series@.len() by {
        assert(w0.stats@[i].series@.len() == w0.stats@[0].series@.len());
    }
    assert forall|i: int, k: int|
        0 <= i < n && 0 <= k < w1.stats@[i].series@.len() implies (#[trigger] w1.stats@[i].series@[k]).time
        == w1.stats@[0].series@[k].time && w1.stats@[i].series@[k].time <= w1.monitor.elapsed by {
        let ap_i = appended(w0, i, t, vals[i]);
        let ap_0 = appended(w0, 0, t, vals[0]);
        let old_len = w0.stats@[i].series@.len() as int;
        assert(w0.stats@[i].series@.len() == w0.stats@[0].series@.len());
        let k0 = if scrolled {
            k + 1
        } else {
            k
        };
        assert(w1.stats@[i].series@[k] == ap_i[k0]);
        assert(w1.stats@[0].series@[k] == ap_0[k0]);
        if k0 < old_len {
            assert(ap_i[k0] == w0.stats@[i].series@[k0]);
            assert(ap_0[k0] == w0.stats@[0].series@[k0]);
            assert(w0.stats@[i].series@[k0].time == w0.stats@[0].series@[k0].time);
            assert(w0.stats@[i].series@[k0].time <= w0.monitor.elapsed);
        } else {
            assert(ap_i[k0].time == t);
            assert(ap_0[k0].time == t);
        }
    }
    if w1.stats@[0].series@.len() > 0 {
        let ap_0 = appended(w0, 0, t, vals[0]);
        if scrolled {
            if w0.stats@[0].series@.len() > 0 {
                assert(w1.stats@[0].series@[0] == ap_0[1]);
            } else {
                assert(ap_0.len() == 1);
                assert(w1.stats@[0].series@.len() == 0);
            }
        } else {
            if w0.stats@[0].series@.len() > 0 {
                assert(w1.stats@[0].series@[0] == w0.stats@[0].series@[0]);
            } else {
                assert(w1.stats@[0].series@[0].time == t);
                assert(w0.monitor.x_offset <= w0.monitor.elapsed);
            }
        }
    } else {
        if scrolled && w0.stats@[0].series@.len() > 0 {
            let ap_0 = appended(w0, 0, t, vals[0]);
            assert(ap_0.len() >= 2);
            assert(w1.stats@[0].series@.len() == ap_0.len() - 1);
            assert(false);
        }
        assert(w0.monitor.x_offset <= w0.monitor.elapsed || (w0.stats@[0].series@.len() > 0
            && w0.monitor.x_offset <= w0.stats@[0].series@[0].time
            && w0.stats@[0].series@[0].time <= w0.monitor.elapsed));
        assert(w1.monitor.x_offset <= w1.monitor.elapsed);
    }
}

/// Law: while the elapsed clock has not passed the window's upper edge, every
/// series holds at most `x_width + 1` samples — integer sample times are
/// strictly ascending, so a window of width `x_width` cannot retain more.
pub proof fn lemma_window_bounds_retention(w: MetricWidget)
    requires
        w.wf(),
        w.monitor.elapsed <= w.monitor.x_offset + w.monitor.x_width,
    ensures
        forall|i: int|
            0 <= i < w.stats@.len() ==> (#[trigger] w.stats@[i]).series@.len() <= w.monitor.x_width
                + 1,
{
    assert forall|i: int| 0 <= i < w.stats@.len() implies (#[trigger] w.stats@[i]).series@.len()
        <= w.monitor.x_width + 1 by {
        let s = w.stats@[i].series@;
        if s.len() > w.monitor.x_width + 1 {
            let last = s.len() - 1;
            lemma_ascending_time_gap(s, last);
            assert(s[0].time == w.stats@[0].series@[0].time);
            assert(s[last].time <= w.monitor.elapsed);
            assert(w.monitor.x_offset <= s[0].time);
            assert(false);
        }
    }
}

} // verus!
