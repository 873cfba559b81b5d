//! The latest reading of each metric, and its classified view.

use vstd::prelude::*;

use crate::level::{
    classify, default_policies, AlertThresholds, Metric, Millisecond, Percent, Policies,
};

verus! {

/// The three observed metrics.
#[derive(Clone, Copy, Debug, PartialEq, Eq, Structural)]
pub enum MetricKind {
    Cpu,
    Memory,
    Network,
}

impl MetricKind {
    /// Seconds between two reads of this metric.
    pub open spec fn spec_poll_interval_secs(self) -> u64 {
        match self {
            MetricKind::Cpu => 1,
            MetricKind::Memory => 1,
            MetricKind::Network => 3,
        }
    }

    /// Seconds between two reads of this metric: one for CPU and memory,
    /// three for the network.
    pub fn poll_interval_secs(self) -> (r: u64)
        ensures
            r == self.spec_poll_interval_secs(),
    {
        match self {
            MetricKind::Cpu => 1,
            MetricKind::Memory => 1,
            MetricKind::Network => 3,
        }
    }

    /// How long a read of this metric may take before it counts as failed:
    /// two seconds for the network; the other readers bound themselves.
    pub fn read_timeout_secs(self) -> (r: Option<u64>)
        ensures
            r == (if self == MetricKind::Network { Some(2u64) } else { None::<u64> }),
    {
        match self {
            MetricKind::Network => Some(2),
            _ => None,
        }
    }
}

/// The latest known raw reading of each metric; `None` until a read has
/// succeeded.
#[derive(Clone, Copy, Debug, PartialEq, Eq, Structural)]
pub struct MetricsSnapshot {
    pub cpu_pct: Option<u64>,
    pub mem_pressure_pct: Option<u64>,
    pub nw_ms: Option<u64>,
}

/// The stored reading of `kind` in `s`.
pub open spec fn stored(s: MetricsSnapshot, kind: MetricKind) -> Option<u64> {
    match kind {
        MetricKind::Cpu => s.cpu_pct,
        MetricKind::Memory => s.mem_pressure_pct,
        MetricKind::Network => s.nw_ms,
    }
}

/// `s` after a read of `kind` that gave `reading` (`None`: the read failed).
/// A successful read replaces that one field; a failed read changes nothing.
pub open spec fn after_read(s: MetricsSnapshot, kind: MetricKind, reading: Option<u64>) -> MetricsSnapshot {
    match reading {
        None => s,
        Some(v) => match kind {
            MetricKind::Cpu => MetricsSnapshot { cpu_pct: Some(v), ..s },
            MetricKind::Memory => MetricsSnapshot { mem_pressure_pct: Some(v), ..s },
            MetricKind::Network => MetricsSnapshot { nw_ms: Some(v), ..s },
        },
    }
}

/// A reading clamped to the domain of percentages.
pub open spec fn clamp_pct(v: u64) -> u64 {
    if v > 100 { 100 } else { v }
}

impl Default for MetricsSnapshot {
    /// No reading yet.
    fn default() -> (r: Self)
        ensures
            r.cpu_pct is None,
            r.mem_pressure_pct is None,
            r.nw_ms is None,
    {
        MetricsSnapshot { cpu_pct: None, mem_pressure_pct: None, nw_ms: None }
    }
}

impl MetricsSnapshot {
    /// The stored reading of `kind`.
    pub fn read(&self, kind: MetricKind) -> (r: Option<u64>)
        ensures
            r == stored(*self, kind),
    {
        match kind {
            MetricKind::Cpu => self.cpu_pct,
            MetricKind::Memory => self.mem_pressure_pct,
            MetricKind::Network => self.nw_ms,
        }
    }

    /// Records the outcome of a read of `kind`: a value replaces that
    /// metric's stored reading, a failure keeps the last good one.
    pub fn record(&mut self, kind: MetricKind, reading: Option<u64>)
        ensures
            *final(self) == after_read(*old(self), kind, reading),
    {
        if let Some(v) = reading {
            match kind {
                MetricKind::Cpu => self.cpu_pct = Some(v),
                MetricKind::Memory => self.mem_pressure_pct = Some(v),
                MetricKind::Network => self.nw_ms = Some(v),
            }
        }
    }

    /// Classifies each present reading under `policy`, percentages clamped
    /// to `0..=100` first; an absent reading stays absent.
    pub fn classify(&self, policy: &Policies) -> (r: ClassifiedSnapshot)
        ensures
            r.matches(*self, *policy),
    {
        let cpu = match self.cpu_pct {
            Some(v) => Some(Metric::classify(Percent(v).clamp_0_100(), &policy.cpu)),
            None => None,
        };
        let mem = match self.mem_pressure_pct {
            Some(v) => Some(Metric::classify(Percent(v).clamp_0_100(), &policy.mem)),
            None => None,
        };
        let nw = match self.nw_ms {
            Some(v) => Some(Metric::classify(Millisecond(v), &policy.nw)),
            None => None,
        };
        ClassifiedSnapshot { cpu, mem, nw }
    }
}

/// `m` classifies `raw` under `t`: absent when `raw` is, else the value
/// with its level.
pub open spec fn classified_as(m: Option<Metric<u64>>, raw: Option<u64>, t: AlertThresholds) -> bool {
    match raw {
        None => m is None,
        Some(v) => m == Some(Metric { value: v, level: classify(v as int, t) }),
    }
}

/// Each present reading paired with its level.
#[derive(Clone, Copy, Debug)]
pub struct ClassifiedSnapshot {
    pub cpu: Option<Metric<Percent>>,
    pub mem: Option<Metric<Percent>>,
    pub nw: Option<Metric<Millisecond>>,
}

/// The value of an optional metric with its level, as plain numbers.
pub open spec fn pct_entry(m: Option<Metric<Percent>>) -> Option<Metric<u64>> {
    match m {
        None => None,
        Some(x) => Some(Metric { value: x.value.0, level: x.level }),
    }
}

/// The value of an optional latency metric with its level, as plain numbers.
pub open spec fn ms_entry(m: Option<Metric<Millisecond>>) -> Option<Metric<u64>> {
    match m {
        None => None,
        Some(x) => Some(Metric { value: x.value.0, level: x.level }),
    }
}

/// `raw` after the clamping of its metric kind.
pub open spec fn clamp_opt_pct(raw: Option<u64>) -> Option<u64> {
    match raw {
        None => None,
        Some(v) => Some(clamp_pct(v)),
    }
}

impl ClassifiedSnapshot {
    /// This is the classification of `s` under `p`.
    pub open spec fn matches(self, s: MetricsSnapshot, p: Policies) -> bool {
        &&& classified_as(pct_entry(self.cpu), clamp_opt_pct(s.cpu_pct), p.cpu.thresholds)
        &&& classified_as(pct_entry(self.mem), clamp_opt_pct(s.mem_pressure_pct), p.mem.thresholds)
        &&& classified_as(ms_entry(self.nw), s.nw_ms, p.nw.thresholds)
    }

    /// Classifies `snapshot` under the default policies.
    pub fn new(snapshot: MetricsSnapshot) -> (r: Self)
        ensures
            r.matches(snapshot, default_policies()),
    {
        let policies = Policies::default();
        snapshot.classify(&policies)
    }
}

/// A failed read leaves the store as it was: reading the same metric
/// afterwards gives the value stored before, not an absent one.
pub proof fn lemma_failed_read_keeps_value(s: MetricsSnapshot, kind: MetricKind)
    ensures
        after_read(s, kind, None) == s,
        stored(after_read(s, kind, None), kind) == stored(s, kind),
{
}

/// A successful read of one metric is what a later read of that metric
/// returns, and the other metrics keep their values.
pub proof fn lemma_successful_read_replaces_one_field(s: MetricsSnapshot, kind: MetricKind, v: u64, other: MetricKind)
    requires
        other != kind,
    ensures
        stored(after_read(s, kind, Some(v)), kind) == Some(v),
        stored(after_read(s, kind, Some(v)), other) == stored(s, other),
{
}

} // verus!
