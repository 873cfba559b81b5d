use vital_monitor::{
    latency_from_capture, parse_memory_pressure, parse_ping_latency_ms, read_network_latency_ms,
    MetricKind, MetricsSnapshot, Percent, ReadError,
};

#[test]
fn memory_pressure_from_free_percentage() {
    let out = "The system has 17179869184 (4194304 pages with a page size of 4096).\nSystem-wide memory free percentage: 61%\n";
    assert_eq!(parse_memory_pressure(out).unwrap(), Percent(39));
}

#[test]
fn memory_pressure_fraction_and_bounds() {
    assert_eq!(parse_memory_pressure("free: 38.5%").unwrap(), Percent(61));
    assert_eq!(parse_memory_pressure("free: 38.0%").unwrap(), Percent(62));
    assert_eq!(parse_memory_pressure("free: 100%").unwrap(), Percent(0));
    assert_eq!(parse_memory_pressure("free: 250%").unwrap(), Percent(0));
    assert_eq!(parse_memory_pressure("free: 0%").unwrap(), Percent(100));
    assert_eq!(parse_memory_pressure("free: 99.01%").unwrap(), Percent(0));
    assert_eq!(parse_memory_pressure("12%%").unwrap(), Percent(88));
    assert_eq!(parse_memory_pressure("a%b 7%\tx").unwrap(), Percent(93));
}

#[test]
fn memory_pressure_errors() {
    assert!(matches!(parse_memory_pressure("no number here"), Err(ReadError::Parse("percent not found"))));
    assert!(matches!(parse_memory_pressure(""), Err(ReadError::Parse("percent not found"))));
    assert!(matches!(parse_memory_pressure("abc% 5%"), Err(ReadError::Parse("percent parse failed"))));
    assert!(matches!(parse_memory_pressure("%"), Err(ReadError::Parse("percent parse failed"))));
    assert!(matches!(parse_memory_pressure("6.% "), Err(ReadError::Parse("percent parse failed"))));
}

#[test]
fn ping_latency_from_output() {
    let out = "PING 1.1.1.1 (1.1.1.1): 56 data bytes\n64 bytes from 1.1.1.1: icmp_seq=0 ttl=57 time=14.2 ms\n";
    assert_eq!(parse_ping_latency_ms(out).unwrap(), 14);
    assert_eq!(parse_ping_latency_ms("rtt time<1ms").unwrap(), 1);
    assert_eq!(parse_ping_latency_ms("time=180ms").unwrap(), 180);
}

#[test]
fn ping_latency_errors() {
    assert!(matches!(parse_ping_latency_ms("Request timeout for icmp_seq 0"), Err(ReadError::Parse("latency not found"))));
    assert!(matches!(latency_from_capture(None), Err(ReadError::Parse("latency not found"))));
    assert!(matches!(latency_from_capture(Some("1.2.3")), Err(ReadError::Parse("latency parse failed"))));
    assert_eq!(latency_from_capture(Some("449.99")).unwrap(), 449);
    assert_eq!(latency_from_capture(Some("99999999999999999999999")).unwrap(), u64::MAX);
}

#[test]
fn tcp_latency_conversion() {
    assert_eq!(read_network_latency_ms(Some(25)).unwrap(), 25);
    assert_eq!(read_network_latency_ms(Some(u128::MAX)).unwrap(), u64::MAX);
    assert!(matches!(read_network_latency_ms(None), Err(ReadError::Timeout("tcp connect"))));
}

#[test]
fn failed_read_keeps_last_value() {
    let mut s = MetricsSnapshot::default();
    assert_eq!(s.read(MetricKind::Network), None);
    s.record(MetricKind::Network, Some(180));
    s.record(MetricKind::Network, None);
    assert_eq!(s.read(MetricKind::Network), Some(180));
    assert_eq!(s.nw_ms, Some(180));
    s.record(MetricKind::Cpu, Some(42));
    assert_eq!(s.read(MetricKind::Cpu), Some(42));
    assert_eq!(s.read(MetricKind::Memory), None);
    s.record(MetricKind::Network, Some(20));
    assert_eq!(s.read(MetricKind::Network), Some(20));
}

#[test]
fn poll_schedule() {
    assert_eq!(MetricKind::Cpu.poll_interval_secs(), 1);
    assert_eq!(MetricKind::Memory.poll_interval_secs(), 1);
    assert_eq!(MetricKind::Network.poll_interval_secs(), 3);
    assert_eq!(MetricKind::Network.read_timeout_secs(), Some(2));
    assert_eq!(MetricKind::Cpu.read_timeout_secs(), None);
}
