use linux_kernel_monitor::config::{CpuConfig, IOConfig, MemoryConfig, MetricsConfig, MonitorConfig};
use linux_kernel_monitor::metric::{MetricState, MetricType};

const KINDS: [MetricType; 3] = [MetricType::CPU, MetricType::Memory, MetricType::IO];

#[test]
fn kind_configs_default_to_enabled_rate_one() {
    let c = CpuConfig::default();
    assert!(c.get_enabled());
    assert_eq!(c.get_refresh_rate(), 1);
    let m = MemoryConfig::default();
    assert!(m.get_enabled());
    assert_eq!(m.get_refresh_rate(), 1);
    let i = IOConfig::default();
    assert!(i.get_enabled());
    assert_eq!(i.get_refresh_rate(), 1);
}

#[test]
fn kind_config_setters() {
    let mut c = CpuConfig::default();
    c.set_enabled(false);
    c.set_refresh_rate(9);
    assert!(!c.get_enabled());
    assert_eq!(c.get_refresh_rate(), 9);
    let mut m = MemoryConfig::default();
    m.set_refresh_rate(255);
    assert!(m.get_enabled());
    assert_eq!(m.get_refresh_rate(), 255);
    let mut i = IOConfig::default();
    i.set_enabled(false);
    assert!(!i.get_enabled());
    assert_eq!(i.get_refresh_rate(), 1);
}

#[test]
fn metrics_config_by_kind() {
    let mut c = MetricsConfig::default();
    for k in KINDS {
        assert!(c.get_enabled(k));
        assert_eq!(c.get_refresh_rate(k), 1);
    }
    c.set_refresh_rate(MetricType::Memory, 7);
    c.set_enabled(MetricType::IO, false);
    assert_eq!(c.get_refresh_rate(MetricType::CPU), 1);
    assert_eq!(c.get_refresh_rate(MetricType::Memory), 7);
    assert_eq!(c.get_refresh_rate(MetricType::IO), 1);
    assert!(c.get_enabled(MetricType::CPU));
    assert!(c.get_enabled(MetricType::Memory));
    assert!(!c.get_enabled(MetricType::IO));
}

#[test]
fn metrics_config_unknown_kind() {
    let mut c = MetricsConfig::default();
    assert_eq!(c.get_refresh_rate(MetricType::Unknown), 0);
    assert!(!c.get_enabled(MetricType::Unknown));
    c.set_refresh_rate(MetricType::Unknown, 9);
    c.set_enabled(MetricType::Unknown, true);
    assert_eq!(c, MetricsConfig::default());
}

#[test]
fn registry_begins_from_defaults() {
    let r = MonitorConfig::new(None);
    for k in KINDS {
        assert_eq!(r.get_state(k), MetricState::Initialized);
        assert!(r.get_enabled(k));
        assert_eq!(r.get_refresh_rate(k), 1);
    }
    assert_eq!(*r.get_config(), MetricsConfig::default());
}

#[test]
fn registry_begins_from_loaded_settings() {
    let mut c = MetricsConfig::default();
    c.set_enabled(MetricType::Memory, false);
    c.set_refresh_rate(MetricType::IO, 30);
    let r = MonitorConfig::new(Some(c));
    assert_eq!(r.get_state(MetricType::CPU), MetricState::Initialized);
    assert_eq!(r.get_state(MetricType::Memory), MetricState::Disabled);
    assert_eq!(r.get_state(MetricType::IO), MetricState::Initialized);
    assert!(!r.get_enabled(MetricType::Memory));
    assert_eq!(r.get_refresh_rate(MetricType::IO), 30);
    assert_eq!(*r.get_config(), c);
}

#[test]
fn registry_setters() {
    let mut r = MonitorConfig::new(None);
    r.set_state(MetricType::CPU, MetricState::Running);
    r.set_refresh_rate(MetricType::Memory, 5);
    r.set_enabled(MetricType::IO, false);
    assert_eq!(r.get_state(MetricType::CPU), MetricState::Running);
    assert_eq!(r.get_state(MetricType::Memory), MetricState::Initialized);
    assert_eq!(r.get_state(MetricType::IO), MetricState::Initialized);
    assert_eq!(r.get_refresh_rate(MetricType::CPU), 1);
    assert_eq!(r.get_refresh_rate(MetricType::Memory), 5);
    assert!(r.get_enabled(MetricType::CPU));
    assert!(!r.get_enabled(MetricType::IO));
}

#[test]
fn registry_ignores_the_unknown_kind() {
    let mut r = MonitorConfig::new(None);
    let before = r.clone();
    r.set_state(MetricType::Unknown, MetricState::Running);
    r.set_refresh_rate(MetricType::Unknown, 5);
    r.set_enabled(MetricType::Unknown, true);
    assert_eq!(r, before);
    assert_eq!(r.get_refresh_rate(MetricType::Unknown), 0);
    assert!(!r.get_enabled(MetricType::Unknown));
}

#[test]
fn saved_settings_come_back_after_restart() {
    let mut r = MonitorConfig::new(None);
    r.set_refresh_rate(MetricType::CPU, 12);
    r.set_enabled(MetricType::Memory, false);
    let saved = *r.get_config();
    let again = MonitorConfig::new(Some(saved));
    for k in KINDS {
        assert_eq!(again.get_enabled(k), r.get_enabled(k));
        assert_eq!(again.get_refresh_rate(k), r.get_refresh_rate(k));
    }
}
