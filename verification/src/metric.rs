//! The closed metric-export abstraction: every concrete metric exposes one
//! operation returning an exported value, and the reporter sees only that
//! value, never a metric's internals.

use vstd::prelude::*;
use crate::meter::{MeterSnapshot, StdMeter};

verus! {

/// The facets of a histogram, already reduced by its own (external) bucket
/// math to named numeric values: pairs of an ASCII facet name and a value.
pub struct HistogramSnapshot {
    pub facets: Vec<(Vec<u8>, i64)>,
}

/// The closed set of exportable value shapes. No new kinds appear at
/// runtime; the reporter branches on exactly these.
pub enum MetricValue {
    Counter(i64),
    Gauge(i64),
    Meter(MeterSnapshot),
    Histogram(HistogramSnapshot),
}

/// The capability every concrete metric offers the reporter: export the
/// current observable state as an immutable value.
pub trait Metric {
    /// The value this metric exports right now.
    spec fn exported(&self) -> MetricValue;

    /// Export the current state. The sole coupling point between concrete
    /// metric types and the reporter.
    fn export_metric(&self) -> (v: MetricValue)
        ensures
            v == self.exported(),
    ;
}

/// A plain monotone counter.
pub struct StdCounter {
    pub value: i64,
}

impl StdCounter {
    /// A counter starting at zero.
    pub fn new() -> (c: StdCounter)
        ensures
            c.value == 0,
    {
        StdCounter { value: 0 }
    }

    /// Add `n` to the counter.
    pub fn inc(&mut self, n: i64)
        requires
            0 <= n,
            old(self).value + n <= i64::MAX,
        ensures
            final(self).value == old(self).value + n,
    {
        self.value = self.value + n;
    }
}

/// A plain last-value gauge.
pub struct StdGauge {
    pub value: i64,
}

impl StdGauge {
    /// A gauge starting at zero.
    pub fn new() -> (g: StdGauge)
        ensures
            g.value == 0,
    {
        StdGauge { value: 0 }
    }

    /// Overwrite the gauge with `v`.
    pub fn set(&mut self, v: i64)
        ensures
            final(self).value == v,
    {
        self.value = v;
    }
}

impl Metric for StdCounter {
    open spec fn exported(&self) -> MetricValue {
        MetricValue::Counter(self.value)
    }

    fn export_metric(&self) -> (v: MetricValue)
        ensures
            v == self.exported(),
    {
        MetricValue::Counter(self.value)
    }
}

impl Metric for StdGauge {
    open spec fn exported(&self) -> MetricValue {
        MetricValue::Gauge(self.value)
    }

    fn export_metric(&self) -> (v: MetricValue)
        ensures
            v == self.exported(),
    {
        MetricValue::Gauge(self.value)
    }
}

impl Metric for StdMeter {
    open spec fn exported(&self) -> MetricValue {
        MetricValue::Meter(self.data)
    }

    fn export_metric(&self) -> (v: MetricValue)
        ensures
            v == self.exported(),
    {
        MetricValue::Meter(self.snapshot())
    }
}

/// The rate-meter capability: thread-safe mutation and atomic reads over a
/// cached snapshot. `StdMeter` is the library's implementation; the trait
/// states the observable contract any meter owes its callers.
pub trait Meter: Metric {
    /// The implementation's internal invariant.
    spec fn well_formed(&self) -> bool;

    /// The cached snapshot the reads observe.
    spec fn cached(&self) -> MeterSnapshot;

    /// A value copy of the cached snapshot, immutable once returned.
    fn snapshot(&self) -> (s: MeterSnapshot)
        requires
            self.well_formed(),
        ensures
            s == self.cached(),
    ;

    /// Record `n` observed events: the count grows by exactly `n`.
    fn mark(&mut self, n: i64)
        requires
            old(self).well_formed(),
            0 <= n,
            old(self).cached().count + n <= i64::MAX,
        ensures
            final(self).well_formed(),
            final(self).cached().count == old(self).cached().count + n,
    ;

    /// Advance the decay windows one tick; the count is untouched.
    fn tick(&mut self)
        requires
            old(self).well_formed(),
        ensures
            final(self).well_formed(),
            final(self).cached().count == old(self).cached().count,
    ;

    /// The cached rate of the window of `window` minutes; zero for any
    /// window other than 1, 5 or 15.
    fn rate(&self, window: u64) -> (r: u128)
        requires
            self.well_formed(),
        ensures
            r == if window == 1 {
                self.cached().rates[0]
            } else if window == 5 {
                self.cached().rates[1]
            } else if window == 15 {
                self.cached().rates[2]
            } else {
                0
            },
    ;

    /// The cached mean arrival rate.
    fn mean(&self) -> (m: u128)
        requires
            self.well_formed(),
        ensures
            m == self.cached().mean,
    ;

    /// The cached cumulative count.
    fn count(&self) -> (c: i64)
        requires
            self.well_formed(),
        ensures
            c == self.cached().count,
    ;
}

impl Meter for StdMeter {
    open spec fn well_formed(&self) -> bool {
        self.wf()
    }

    open spec fn cached(&self) -> MeterSnapshot {
        self.data
    }

    fn snapshot(&self) -> (s: MeterSnapshot) {
        StdMeter::snapshot(self)
    }

    fn mark(&mut self, n: i64) {
        StdMeter::mark(self, n)
    }

    fn tick(&mut self) {
        StdMeter::tick(self)
    }

    fn rate(&self, window: u64) -> (r: u128) {
        StdMeter::rate(self, window)
    }

    fn mean(&self) -> (m: u128) {
        StdMeter::mean(self)
    }

    fn count(&self) -> (c: i64) {
        StdMeter::count(self)
    }
}

} // verus!
