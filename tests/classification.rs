use vital_monitor::{
    level_by_threshold, AlertLevel, AlertThresholds, ClassifiedSnapshot, CpuPolicy, MemoryPolicy,
    Metric, MetricsSnapshot, Millisecond, NetworkPolicy, Percent, Policies, Policy,
};

fn rank(l: AlertLevel) -> u8 {
    match l {
        AlertLevel::Safe => 0,
        AlertLevel::Normal => 1,
        AlertLevel::Warning => 2,
        AlertLevel::Critical => 3,
    }
}

#[test]
fn cpu_thresholds_boundaries() {
    let t = CpuPolicy::default().thresholds;
    assert_eq!(level_by_threshold(0, t), AlertLevel::Safe);
    assert_eq!(level_by_threshold(49, t), AlertLevel::Safe);
    assert_eq!(level_by_threshold(50, t), AlertLevel::Normal);
    assert_eq!(level_by_threshold(74, t), AlertLevel::Normal);
    assert_eq!(level_by_threshold(75, t), AlertLevel::Warning);
    assert_eq!(level_by_threshold(89, t), AlertLevel::Warning);
    assert_eq!(level_by_threshold(90, t), AlertLevel::Critical);
    assert_eq!(level_by_threshold(100, t), AlertLevel::Critical);
}

#[test]
fn memory_and_network_defaults() {
    let m = MemoryPolicy::default().thresholds;
    assert_eq!(m.normal_lower_limit, 60);
    assert_eq!(m.warning_lower_limit, 75);
    assert_eq!(m.critical_lower_limit, 90);
    let n = NetworkPolicy::default().thresholds;
    assert_eq!(n.normal_lower_limit, 50);
    assert_eq!(n.warning_lower_limit, 200);
    assert_eq!(n.critical_lower_limit, 450);
    assert_eq!(level_by_threshold(59, m), AlertLevel::Safe);
    assert_eq!(level_by_threshold(60, m), AlertLevel::Normal);
    assert_eq!(level_by_threshold(180, n), AlertLevel::Normal);
    assert_eq!(level_by_threshold(200, n), AlertLevel::Warning);
    assert_eq!(level_by_threshold(450, n), AlertLevel::Critical);
}

#[test]
fn classification_is_monotone_on_a_sweep() {
    let thresholds = [
        AlertThresholds::new(50, 75, 90),
        AlertThresholds::new(10, 10, 10),
        AlertThresholds::new(0, 0, 0),
    ];
    for t in thresholds {
        for v in 0..200u64 {
            assert!(rank(level_by_threshold(v, t)) <= rank(level_by_threshold(v + 1, t)));
        }
    }
}

#[test]
fn classification_is_deterministic() {
    let t = AlertThresholds::new(50, 200, 450);
    for v in [0u64, 49, 50, 199, 200, 449, 450, 10_000] {
        assert_eq!(level_by_threshold(v, t), level_by_threshold(v, t));
    }
}

#[test]
fn equal_limits_skip_levels() {
    let t = AlertThresholds::new(10, 10, 20);
    assert_eq!(level_by_threshold(9, t), AlertLevel::Safe);
    assert_eq!(level_by_threshold(10, t), AlertLevel::Warning);
    assert_eq!(level_by_threshold(20, t), AlertLevel::Critical);
}

#[test]
fn percent_clamps_to_hundred() {
    assert_eq!(Percent(150).clamp_0_100(), Percent(100));
    assert_eq!(Percent(100).clamp_0_100(), Percent(100));
    assert_eq!(Percent(42).clamp_0_100(), Percent(42));
    assert_eq!(Percent(0).clamp_0_100(), Percent(0));
}

#[test]
fn metric_new_and_classify() {
    let m = Metric::new(Percent(3), AlertLevel::Warning);
    assert_eq!(m.value, Percent(3));
    assert_eq!(m.level, AlertLevel::Warning);
    let c = Metric::classify(Percent(80), &CpuPolicy::default());
    assert_eq!(c.value, Percent(80));
    assert_eq!(c.level, AlertLevel::Warning);
    let n = Metric::classify(Millisecond(500), &NetworkPolicy::default());
    assert_eq!(n.level, AlertLevel::Critical);
    assert_eq!(NetworkPolicy::default().level(&Millisecond(49)), AlertLevel::Safe);
}

#[test]
fn snapshot_classification_clamps_and_keeps_absent() {
    let snap = MetricsSnapshot { cpu_pct: Some(250), mem_pressure_pct: None, nw_ms: Some(180) };
    let c = snap.classify(&Policies::default());
    let cpu = c.cpu.unwrap();
    assert_eq!(cpu.value, Percent(100));
    assert_eq!(cpu.level, AlertLevel::Critical);
    assert!(c.mem.is_none());
    let nw = c.nw.unwrap();
    assert_eq!(nw.value, Millisecond(180));
    assert_eq!(nw.level, AlertLevel::Normal);
}

#[test]
fn classified_snapshot_new_uses_default_policies() {
    let snap = MetricsSnapshot { cpu_pct: Some(42), mem_pressure_pct: Some(60), nw_ms: None };
    let c = ClassifiedSnapshot::new(snap);
    assert_eq!(c.cpu.unwrap().level, AlertLevel::Safe);
    assert_eq!(c.mem.unwrap().level, AlertLevel::Normal);
    assert!(c.nw.is_none());
}

#[test]
fn level_icons() {
    assert_eq!(AlertLevel::Safe.icon(), "\u{1F535}");
    assert_eq!(AlertLevel::Normal.icon(), "\u{1F7E2}");
    assert_eq!(AlertLevel::Warning.icon(), "\u{1F7E4}");
    assert_eq!(AlertLevel::Critical.icon(), "\u{1F534}");
}
