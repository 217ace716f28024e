//! Metrics in builds without the metrics exporter.

use vstd::prelude::*;

verus! {

/// Counter that records nothing in this build.
#[derive(Clone, Copy)]
pub struct IntCounter;

impl IntCounter {
    pub fn inc(&self) {
    }

    pub fn inc_by(&self, v: u64) {
    }

    pub fn get(&self) -> (r: u64)
        ensures
            r == 0,
    {
        0
    }
}

/// Gauge that records nothing in this build.
#[derive(Clone, Copy)]
pub struct IntGauge;

impl IntGauge {
    pub fn inc(&self) {
    }

    pub fn dec(&self) {
    }

    pub fn set(&self, v: i64) {
    }

    pub fn get(&self) -> (r: i64)
        ensures
            r == 0,
    {
        0
    }
}

/// Histogram that records nothing in this build.
#[derive(Clone, Copy)]
pub struct Histogram;

impl Histogram {
    pub fn get_sample_count(&self) -> (r: u64)
        ensures
            r == 0,
    {
        0
    }
}

/// Labelled counters, all inert.
#[derive(Clone, Copy)]
pub struct IntCounterVec;

impl IntCounterVec {
    /// The inert counter, for any labels.
    pub fn with_label_values(&self, labels: &[&str]) -> (r: IntCounter) {
        IntCounter
    }
}

/// Labelled histograms, all inert.
#[derive(Clone, Copy)]
pub struct HistogramVec;

impl HistogramVec {
    /// The inert histogram, for any labels.
    pub fn with_label_values(&self, labels: &[&str]) -> (r: Histogram) {
        Histogram
    }
}

/// No metric families are gathered.
pub fn gather() -> (r: Vec<()>)
    ensures
        r@.len() == 0,
{
    Vec::new()
}

} // verus!
