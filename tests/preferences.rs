use vital_monitor::{ConfigRecord, DisplayMode, TrayConfig, UiEvent};

#[test]
fn default_preferences() {
    let c = TrayConfig::default();
    assert!(c.show_cpu && c.show_mem && c.show_nw);
    assert_eq!(c.mode, DisplayMode::List);
    assert!(c.is_alert);
}

#[test]
fn event_ids() {
    assert_eq!(UiEvent::from_id("show_cpu"), Some(UiEvent::ShowCpu));
    assert_eq!(UiEvent::from_id("show_mem_nw"), Some(UiEvent::ShowMemNw));
    assert_eq!(UiEvent::from_id("show_all"), Some(UiEvent::ShowAll));
    assert_eq!(UiEvent::from_id("mode_rotation"), Some(UiEvent::ModeRotation));
    assert_eq!(UiEvent::from_id("toggle_alert"), Some(UiEvent::ToggleAlert));
    assert_eq!(UiEvent::from_id("exit"), Some(UiEvent::Exit));
    assert_eq!(UiEvent::from_id("show"), None);
    assert_eq!(UiEvent::from_id(""), None);
    assert_eq!(UiEvent::from_id("show_cpu "), None);
}

#[test]
fn events_change_preferences() {
    let mut c = TrayConfig::default();
    c.apply(UiEvent::ShowCpuNw);
    assert!(c.show_cpu && !c.show_mem && c.show_nw);
    c.apply(UiEvent::ShowMem);
    assert!(!c.show_cpu && c.show_mem && !c.show_nw);
    c.apply(UiEvent::ModeRotation);
    assert_eq!(c.mode, DisplayMode::Rotation);
    c.apply(UiEvent::ToggleAlert);
    assert!(!c.is_alert);
    c.apply(UiEvent::ToggleAlert);
    assert!(c.is_alert);
    let before = c;
    c.apply(UiEvent::Exit);
    assert_eq!(c, before);
    c.apply(UiEvent::ModeList);
    c.apply(UiEvent::ShowAll);
    assert_eq!(c, TrayConfig::default());
}

#[test]
fn menu_checks_follow_preferences() {
    let mut c = TrayConfig::default();
    let m = c.menu_checks();
    assert!(m.show_all && !m.show_cpu && !m.show_cpu_mem);
    assert!(m.mode_list && !m.mode_rotation && m.is_alert);
    c.apply(UiEvent::ShowMemNw);
    c.apply(UiEvent::ModeRotation);
    let m = c.menu_checks();
    assert!(m.show_mem_nw && !m.show_all && !m.show_mem && !m.show_nw);
    assert!(!m.mode_list && m.mode_rotation);
    let none = TrayConfig { show_cpu: false, show_mem: false, show_nw: false, ..c };
    let m = none.menu_checks();
    assert!(!(m.show_cpu || m.show_mem || m.show_nw || m.show_cpu_mem || m.show_cpu_nw || m.show_mem_nw || m.show_all));
}

#[test]
fn record_round_trip_all_combinations() {
    for bits in 0..32u8 {
        let c = TrayConfig {
            show_cpu: bits & 1 != 0,
            show_mem: bits & 2 != 0,
            show_nw: bits & 4 != 0,
            mode: if bits & 8 != 0 { DisplayMode::Rotation } else { DisplayMode::List },
            is_alert: bits & 16 != 0,
        };
        let rec = c.to_record();
        assert_eq!(TrayConfig::from_record(&rec), Some(c));
    }
}

#[test]
fn record_mode_names() {
    let mut c = TrayConfig::default();
    assert_eq!(c.to_record().mode, "List");
    c.apply(UiEvent::ModeRotation);
    assert_eq!(c.to_record().mode, "Rotation");
    assert_eq!(DisplayMode::from_name("Rotation"), Some(DisplayMode::Rotation));
    assert_eq!(DisplayMode::from_name("list"), None);
    assert_eq!(DisplayMode::List.name(), "List");
}

#[test]
fn load_falls_back_to_defaults() {
    assert_eq!(TrayConfig::load(None), TrayConfig::default());
    let bad = ConfigRecord {
        show_cpu: false,
        show_mem: false,
        show_nw: true,
        mode: "Carousel".to_string(),
        is_alert: false,
    };
    assert_eq!(TrayConfig::from_record(&bad), None);
    assert_eq!(TrayConfig::load(Some(&bad)), TrayConfig::default());
    let good = ConfigRecord { mode: "Rotation".to_string(), ..bad };
    let c = TrayConfig::load(Some(&good));
    assert!(!c.show_cpu && !c.show_mem && c.show_nw && !c.is_alert);
    assert_eq!(c.mode, DisplayMode::Rotation);
}
