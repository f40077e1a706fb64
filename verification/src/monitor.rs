//! Axis bounds and elapsed-time bookkeeping for one widget.

use vstd::prelude::*;

verus! {

/// Owns one widget's chart axes: a fixed-width, scrolling x-window, an
/// autoscaling (widening-only) y-range, and the elapsed-time clock that the
/// samples are stamped with. All quantities are integer units.
///
/// The y-range starts inverted (`y_min` at the largest value, `y_max` at 0)
/// so that the first reading snaps both bounds onto itself.
#[derive(Clone, Copy, Debug, PartialEq, Eq, Structural)]
pub struct Monitor {
    pub x_offset: u64,
    pub x_width: u64,
    pub y_min: u64,
    pub y_max: u64,
    pub elapsed: u64,
}

/// `m` with its y-bounds widened just enough to admit `value`.
pub open spec fn widened(m: Monitor, value: u64) -> Monitor {
    Monitor {
        y_min: if value < m.y_min {
            value
        } else {
            m.y_min
        },
        y_max: if value > m.y_max {
            value
        } else {
            m.y_max
        },
        ..m
    }
}

/// `m` after absorbing a whole sequence of readings into its y-bounds, in
/// order.
pub open spec fn widened_all(m: Monitor, readings: Seq<u64>) -> Monitor
    decreases readings.len(),
{
    if readings.len() == 0 {
        m
    } else {
        widened_all(widened(m, readings[0]), readings.drop_first())
    }
}

/// `m` with its x-window advanced by `delta`, width unchanged.
pub open spec fn shifted(m: Monitor, delta: u64) -> Monitor {
    Monitor { x_offset: (m.x_offset + delta) as u64, ..m }
}

/// `m` after a whole sequence of scroll steps, one gap each.
pub open spec fn shifted_all(m: Monitor, gaps: Seq<u64>) -> Monitor
    decreases gaps.len(),
{
    if gaps.len() == 0 {
        m
    } else {
        shifted_all(shifted(m, gaps[0]), gaps.drop_first())
    }
}

impl Monitor {
    /// Well-formed: the upper edge of the x-window is representable.
    pub open spec fn wf(&self) -> bool {
        self.x_offset + self.x_width <= u64::MAX
    }

    /// A fresh monitor for a window of width `x_width` starting at
    /// `x_offset`, with the y-range inverted so the first reading sets it.
    pub fn new(x_offset: u64, x_width: u64) -> (m: Monitor)
        requires
            x_offset + x_width <= u64::MAX,
        ensures
            m == (Monitor { x_offset, x_width, y_min: u64::MAX, y_max: 0u64, elapsed: 0u64 }),
            m.wf(),
    {
        Monitor { x_offset, x_width, y_min: u64::MAX, y_max: 0, elapsed: 0 }
    }

    /// Accumulates the wall-clock delta since the previous tick into the
    /// elapsed clock. Ticks are variable-rate: the caller measures the actual
    /// delta rather than assuming a fixed step.
    pub fn add_time(&mut self, delta: u64)
        requires
            old(self).elapsed + delta <= u64::MAX,
        ensures
            *final(self) == (Monitor { elapsed: (old(self).elapsed + delta) as u64, ..*old(self) }),
    {
        self.elapsed = self.elapsed + delta;
    }

    /// The elapsed clock.
    pub fn time(&self) -> (t: u64)
        ensures
            t == self.elapsed,
    {
        self.elapsed
    }

    /// Widens the y-bounds to admit `value`: `y_min` only ever decreases and
    /// `y_max` only ever increases, so the chart never jitters as readings
    /// fluctuate.
    pub fn extend_y_bounds(&mut self, value: u64)
        ensures
            *final(self) == widened(*old(self), value),
            final(self).y_min <= old(self).y_min,
            final(self).y_max >= old(self).y_max,
            final(self).y_min <= value <= final(self).y_max,
    {
        if value < self.y_min {
            self.y_min = value;
        }
        if value > self.y_max {
            self.y_max = value;
        }
    }

    /// The upper edge of the visible x-window.
    pub fn max_x(&self) -> (r: u64)
        requires
            self.wf(),
        ensures
            r == self.x_offset + self.x_width,
    {
        self.x_offset + self.x_width
    }

    /// True once the elapsed clock has passed the upper edge of the visible
    /// x-window; the caller then evicts the oldest sample from every series
    /// and shifts the window by the resulting gap.
    pub fn maybe_scroll(&self) -> (r: bool)
        requires
            self.wf(),
        ensures
            r == (self.elapsed > self.x_offset + self.x_width),
    {
        self.elapsed > self.max_x()
    }

    /// Advances the x-window by `delta`, preserving its width exactly.
    pub fn shift_x_axis(&mut self, delta: u64)
        requires
            old(self).x_offset + delta + old(self).x_width <= u64::MAX,
        ensures
            *final(self) == shifted(*old(self), delta),
            final(self).x_width == old(self).x_width,
            final(self).wf(),
    {
        self.x_offset = self.x_offset + delta;
    }

    /// The visible x-span as `(lower, upper)`; its width is always exactly
    /// `x_width`.
    pub fn x(&self) -> (r: (u64, u64))
        requires
            self.wf(),
        ensures
            r.0 == self.x_offset,
            r.1 == self.x_offset + self.x_width,
            r.1 - r.0 == self.x_width,
    {
        (self.x_offset, self.x_offset + self.x_width)
    }

    /// The y-range as `(lower, upper)`.
    pub fn y(&self) -> (r: (u64, u64))
        ensures
            r == (self.y_min, self.y_max),
    {
        (self.y_min, self.y_max)
    }

    /// The value labelled at quartile `k` of the y-range: `y_min` for `k =
    /// 0`, then quarter steps up to `y_max` for `k = 4` (integer division
    /// rounds the inner steps down).
    pub fn y_label_value(&self, k: u64) -> (r: u64)
        requires
            k <= 4,
            self.y_min <= self.y_max,
        ensures
            r == self.y_min + (self.y_max - self.y_min) * k / 4,
    {
        let span: u64 = self.y_max - self.y_min;
        proof {
            assert(span * k <= span * 4) by (nonlinear_arith)
                requires
                    k <= 4,
                    span >= 0,
            ;
            assert(span * k / 4 <= span * 4 / 4) by (nonlinear_arith)
                requires
                    span * k <= span * 4,
            ;
            assert(span * 4 / 4 == span) by (nonlinear_arith);
        }
        let scaled128: u128 = (span as u128) * (k as u128) / 4;
        let scaled: u64 = scaled128 as u64;
        self.y_min + scaled
    }
}

/// Law: across any sequence of readings, `y_min` never increases and `y_max`
/// never decreases — the autoscale only ever widens.
pub proof fn lemma_y_bounds_monotonic(m: Monitor, readings: Seq<u64>)
    ensures
        widened_all(m, readings).y_min <= m.y_min,
        widened_all(m, readings).y_max >= m.y_max,
    decreases readings.len(),
{
    if readings.len() > 0 {
        lemma_y_bounds_monotonic(widened(m, readings[0]), readings.drop_first());
    }
}

/// Absorbing one more reading after a sequence is the same as absorbing the
/// extended sequence.
pub proof fn lemma_widened_all_snoc(m: Monitor, readings: Seq<u64>, v: u64)
    ensures
        widened_all(m, readings.push(v)) == widened(widened_all(m, readings), v),
    decreases readings.len(),
{
    if readings.len() == 0 {
        assert(readings.push(v)[0] == v);
        assert(readings.push(v).drop_first() =~= Seq::<u64>::empty());
        assert(widened_all(widened(m, v), Seq::<u64>::empty()) == widened(m, v));
        assert(widened_all(m, Seq::<u64>::empty()) == m);
    } else {
        assert(readings.push(v)[0] == readings[0]);
        assert(readings.push(v).drop_first() =~= readings.drop_first().push(v));
        lemma_widened_all_snoc(widened(m, readings[0]), readings.drop_first(), v);
        assert(widened_all(m, readings.push(v)) == widened_all(
            widened(m, readings[0]),
            readings.drop_first().push(v),
        ));
        assert(widened_all(m, readings) == widened_all(
            widened(m, readings[0]),
            readings.drop_first(),
        ));
    }
}

/// The y-bounds reached from a sequence of readings depend only on the
/// starting y-bounds, not on the other fields.
pub proof fn lemma_widened_all_same_y(a: Monitor, b: Monitor, readings: Seq<u64>)
    requires
        a.y_min == b.y_min,
        a.y_max == b.y_max,
    ensures
        widened_all(a, readings).y_min == widened_all(b, readings).y_min,
        widened_all(a, readings).y_max == widened_all(b, readings).y_max,
    decreases readings.len(),
{
    if readings.len() > 0 {
        lemma_widened_all_same_y(
            widened(a, readings[0]),
            widened(b, readings[0]),
            readings.drop_first(),
        );
    }
}

/// Law: across any sequence of scroll steps the x-window keeps exactly its
/// configured width — scrolling moves the window, never resizes it.
pub proof fn lemma_x_window_constant(m: Monitor, gaps: Seq<u64>)
    ensures
        shifted_all(m, gaps).x_width == m.x_width,
    decreases gaps.len(),
{
    if gaps.len() > 0 {
        lemma_x_window_constant(shifted(m, gaps[0]), gaps.drop_first());
    }
}

} // verus!
