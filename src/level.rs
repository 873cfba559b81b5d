//! Alert levels and the threshold classification.

use vstd::prelude::*;

verus! {

/// Ordered alert level: `Safe < Normal < Warning < Critical`.
#[derive(Clone, Copy, Debug, PartialEq, Eq, Structural)]
pub enum AlertLevel {
    Safe,
    Normal,
    Warning,
    Critical,
}

impl AlertLevel {
    /// Position of the level in the order `Safe < Normal < Warning < Critical`.
    pub open spec fn rank(self) -> nat {
        match self {
            AlertLevel::Safe => 0,
            AlertLevel::Normal => 1,
            AlertLevel::Warning => 2,
            AlertLevel::Critical => 3,
        }
    }
}

impl AlertLevel {
    /// The icon shown beside a reading of this level.
    pub open spec fn spec_icon(self) -> Seq<char> {
        match self {
            AlertLevel::Safe => seq!['\u{1F535}'],
            AlertLevel::Normal => seq!['\u{1F7E2}'],
            AlertLevel::Warning => seq!['\u{1F7E4}'],
            AlertLevel::Critical => seq!['\u{1F534}'],
        }
    }

    /// The icon of this level: blue, green, brown or red circle.
    pub fn icon(self) -> (r: &'static str)
        ensures
            r@ == self.spec_icon(),
    {
        match self {
            AlertLevel::Safe => {
                proof { reveal_strlit("\u{1F535}"); }
                "\u{1F535}"
            },
            AlertLevel::Normal => {
                proof { reveal_strlit("\u{1F7E2}"); }
                "\u{1F7E2}"
            },
            AlertLevel::Warning => {
                proof { reveal_strlit("\u{1F7E4}"); }
                "\u{1F7E4}"
            },
            AlertLevel::Critical => {
                proof { reveal_strlit("\u{1F534}"); }
                "\u{1F534}"
            },
        }
    }
}

/// Three lower limits: `normal`, `warning` and `critical`.
#[derive(Clone, Copy, Debug)]
pub struct AlertThresholds {
    pub normal_lower_limit: u64,
    pub warning_lower_limit: u64,
    pub critical_lower_limit: u64,
}

impl AlertThresholds {
    /// The limits ascend.
    pub open spec fn wf(self) -> bool {
        self.normal_lower_limit <= self.warning_lower_limit <= self.critical_lower_limit
    }

    /// Builds thresholds from ascending limits.
    pub fn new(normal: u64, warning: u64, critical: u64) -> (r: Self)
        requires
            normal <= warning <= critical,
        ensures
            r.normal_lower_limit == normal,
            r.warning_lower_limit == warning,
            r.critical_lower_limit == critical,
            r.wf(),
    {
        AlertThresholds {
            normal_lower_limit: normal,
            warning_lower_limit: warning,
            critical_lower_limit: critical,
        }
    }
}

/// The level of `value` under `t`: below `normal` is `Safe`, below `warning`
/// is `Normal`, below `critical` is `Warning`, anything else is `Critical`.
pub open spec fn classify(value: int, t: AlertThresholds) -> AlertLevel {
    if value < t.normal_lower_limit {
        AlertLevel::Safe
    } else if value < t.warning_lower_limit {
        AlertLevel::Normal
    } else if value < t.critical_lower_limit {
        AlertLevel::Warning
    } else {
        AlertLevel::Critical
    }
}

/// Classifies `value` against `t`.
pub fn level_by_threshold(value: u64, t: AlertThresholds) -> (r: AlertLevel)
    ensures
        r == classify(value as int, t),
{
    if value < t.normal_lower_limit {
        AlertLevel::Safe
    } else if value < t.warning_lower_limit {
        AlertLevel::Normal
    } else if value < t.critical_lower_limit {
        AlertLevel::Warning
    } else {
        AlertLevel::Critical
    }
}

/// A utilisation or pressure reading, in percent.
#[derive(Clone, Copy, Debug, PartialEq, Eq, Structural)]
pub struct Percent(pub u64);

impl Percent {
    /// The reading limited to `0..=100`.
    pub fn clamp_0_100(self) -> (r: Self)
        ensures
            r.0 == if self.0 > 100 { 100 } else { self.0 },
    {
        if self.0 > 100 {
            Percent(100)
        } else {
            self
        }
    }
}

/// A round-trip latency reading, in milliseconds.
#[derive(Clone, Copy, Debug, PartialEq, Eq, Structural)]
pub struct Millisecond(pub u64);

/// A reading together with the level it was classified at.
#[derive(Clone, Copy, Debug, PartialEq)]
pub struct Metric<V> {
    pub value: V,
    pub level: AlertLevel,
}

/// A rule that gives a reading its alert level.
pub trait Policy<V> {
    /// The level this policy gives to `value`.
    spec fn spec_level(&self, value: V) -> AlertLevel;

    /// Computes the level this policy gives to `value`.
    fn level(&self, value: &V) -> (r: AlertLevel)
        ensures
            r == self.spec_level(*value),
    ;
}

impl<V> Metric<V> {
    /// Pairs a reading with a level.
    pub fn new(value: V, level: AlertLevel) -> (r: Self)
        ensures
            r.value == value,
            r.level == level,
    {
        Metric { value, level }
    }

    /// Pairs a reading with the level `policy` gives it.
    pub fn classify<P: Policy<V>>(value: V, policy: &P) -> (r: Self)
        ensures
            r.value == value,
            r.level == policy.spec_level(value),
    {
        let level = policy.level(&value);
        Metric { value, level }
    }
}

/// CPU utilisation policy.
#[derive(Clone, Copy, Debug)]
pub struct CpuPolicy {
    pub thresholds: AlertThresholds,
}

impl Default for CpuPolicy {
    /// Limits 50, 75 and 90 percent.
    fn default() -> (r: Self)
        ensures
            r.thresholds == (AlertThresholds {
                normal_lower_limit: 50,
                warning_lower_limit: 75,
                critical_lower_limit: 90,
            }),
    {
        CpuPolicy { thresholds: AlertThresholds::new(50, 75, 90) }
    }
}

impl Policy<Percent> for CpuPolicy {
    open spec fn spec_level(&self, value: Percent) -> AlertLevel {
        classify(value.0 as int, self.thresholds)
    }

    fn level(&self, value: &Percent) -> (r: AlertLevel) {
        level_by_threshold(value.0, self.thresholds)
    }
}

/// Memory pressure policy.
#[derive(Clone, Copy, Debug)]
pub struct MemoryPolicy {
    pub thresholds: AlertThresholds,
}

impl Default for MemoryPolicy {
    /// Limits 60, 75 and 90 percent.
    fn default() -> (r: Self)
        ensures
            r.thresholds == (AlertThresholds {
                normal_lower_limit: 60,
                warning_lower_limit: 75,
                critical_lower_limit: 90,
            }),
    {
        MemoryPolicy { thresholds: AlertThresholds::new(60, 75, 90) }
    }
}

impl Policy<Percent> for MemoryPolicy {
    open spec fn spec_level(&self, value: Percent) -> AlertLevel {
        classify(value.0 as int, self.thresholds)
    }

    fn level(&self, value: &Percent) -> (r: AlertLevel) {
        level_by_threshold(value.0, self.thresholds)
    }
}

/// Network latency policy.
#[derive(Clone, Copy, Debug)]
pub struct NetworkPolicy {
    pub thresholds: AlertThresholds,
}

impl Default for NetworkPolicy {
    /// Limits 50, 200 and 450 milliseconds.
    fn default() -> (r: Self)
        ensures
            r.thresholds == (AlertThresholds {
                normal_lower_limit: 50,
                warning_lower_limit: 200,
                critical_lower_limit: 450,
            }),
    {
        NetworkPolicy { thresholds: AlertThresholds::new(50, 200, 450) }
    }
}

impl Policy<Millisecond> for NetworkPolicy {
    open spec fn spec_level(&self, value: Millisecond) -> AlertLevel {
        classify(value.0 as int, self.thresholds)
    }

    fn level(&self, value: &Millisecond) -> (r: AlertLevel) {
        level_by_threshold(value.0, self.thresholds)
    }
}

/// One policy per metric kind.
#[derive(Clone, Copy, Debug)]
pub struct Policies {
    pub cpu: CpuPolicy,
    pub mem: MemoryPolicy,
    pub nw: NetworkPolicy,
}

/// The suggested policies: CPU 50/75/90 percent, memory 60/75/90 percent,
/// network 50/200/450 milliseconds.
pub open spec fn default_policies() -> Policies {
    Policies {
        cpu: CpuPolicy {
            thresholds: AlertThresholds {
                normal_lower_limit: 50,
                warning_lower_limit: 75,
                critical_lower_limit: 90,
            },
        },
        mem: MemoryPolicy {
            thresholds: AlertThresholds {
                normal_lower_limit: 60,
                warning_lower_limit: 75,
                critical_lower_limit: 90,
            },
        },
        nw: NetworkPolicy {
            thresholds: AlertThresholds {
                normal_lower_limit: 50,
                warning_lower_limit: 200,
                critical_lower_limit: 450,
            },
        },
    }
}

impl Default for Policies {
    fn default() -> (r: Self)
        ensures
            r == default_policies(),
    {
        Policies { cpu: CpuPolicy::default(), mem: MemoryPolicy::default(), nw: NetworkPolicy::default() }
    }
}

/// Classification is monotone: a larger value never gets a lower level,
/// whatever the thresholds.
pub proof fn lemma_classify_monotone(v1: int, v2: int, t: AlertThresholds)
    requires
        v1 <= v2,
    ensures
        classify(v1, t).rank() <= classify(v2, t).rank(),
{
}

/// Classification depends on the value and the thresholds alone: equal
/// inputs give equal levels.
pub proof fn lemma_classify_deterministic(
    v1: int,
    t1: AlertThresholds,
    v2: int,
    t2: AlertThresholds,
)
    requires
        v1 == v2,
        t1 == t2,
    ensures
        classify(v1, t1) == classify(v2, t2),
{
}

} // verus!
