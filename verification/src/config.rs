//! Per-kind settings and the registry that records, for each metric kind,
//! its settings and the state of its worker.

use crate::metric::{is_kind, MetricState, MetricType};
use vstd::prelude::*;

verus! {

/// Where the settings are kept between runs.
pub const CONFIG_PATH: &'static str = "/etc/lkmconfig.toml";

/// The persisted settings of one metric kind.
#[derive(Clone, Copy, Debug, PartialEq, Eq)]
pub struct Setting {
    pub enabled: bool,
    pub refresh_rate: u8,
}

/// What the registry records for one metric kind.
#[derive(Clone, Copy, Debug, PartialEq, Eq)]
pub struct Entry {
    pub state: MetricState,
    pub enabled: bool,
    pub refresh_rate: u8,
}

/// The settings that hold where no configuration was loaded: enabled, one
/// sample a second.
pub open spec fn default_setting() -> Setting {
    Setting { enabled: true, refresh_rate: 1 }
}

/// The state in which a kind with these settings begins.
pub open spec fn initial_state(enabled: bool) -> MetricState {
    if enabled {
        MetricState::Initialized
    } else {
        MetricState::Disabled
    }
}

#[derive(Copy, Clone, Debug, PartialEq, Eq)]
pub struct CpuConfig {
    enabled: bool,
    refresh_rate: u8,
}

impl View for CpuConfig {
    type V = Setting;

    closed spec fn view(&self) -> Setting {
        Setting { enabled: self.enabled, refresh_rate: self.refresh_rate }
    }
}

impl Default for CpuConfig {
    fn default() -> (c: Self)
        ensures
            c@ == default_setting(),
    {
        CpuConfig { enabled: true, refresh_rate: 1 }
    }
}

impl CpuConfig {
    pub fn set_enabled(&mut self, enabled: bool)
        ensures
            final(self)@ == (Setting { enabled, ..old(self)@ }),
        no_unwind
    {
        self.enabled = enabled;
    }

    pub fn get_enabled(&self) -> (e: bool)
        ensures
            e == self@.enabled,
    {
        self.enabled
    }

    pub fn get_refresh_rate(&self) -> (r: u8)
        ensures
            r == self@.refresh_rate,
    {
        self.refresh_rate
    }

    pub fn set_refresh_rate(&mut self, refresh_rate: u8)
        ensures
            final(self)@ == (Setting { refresh_rate, ..old(self)@ }),
        no_unwind
    {
        self.refresh_rate = refresh_rate;
    }
}

#[derive(Copy, Clone, Debug, PartialEq, Eq)]
pub struct MemoryConfig {
    enabled: bool,
    refresh_rate: u8,
}

impl View for MemoryConfig {
    type V = Setting;

    closed spec fn view(&self) -> Setting {
        Setting { enabled: self.enabled, refresh_rate: self.refresh_rate }
    }
}

impl Default for MemoryConfig {
    fn default() -> (c: Self)
        ensures
            c@ == default_setting(),
    {
        MemoryConfig { enabled: true, refresh_rate: 1 }
    }
}

impl MemoryConfig {
    pub fn set_enabled(&mut self, enabled: bool)
        ensures
            final(self)@ == (Setting { enabled, ..old(self)@ }),
        no_unwind
    {
        self.enabled = enabled;
    }

    pub fn get_enabled(&self) -> (e: bool)
        ensures
            e == self@.enabled,
    {
        self.enabled
    }

    pub fn get_refresh_rate(&self) -> (r: u8)
        ensures
            r == self@.refresh_rate,
    {
        self.refresh_rate
    }

    pub fn set_refresh_rate(&mut self, refresh_rate: u8)
        ensures
            final(self)@ == (Setting { refresh_rate, ..old(self)@ }),
        no_unwind
    {
        self.refresh_rate = refresh_rate;
    }
}

#[derive(Copy, Clone, Debug, PartialEq, Eq)]
pub struct IOConfig {
    enabled: bool,
    refresh_rate: u8,
}

impl View for IOConfig {
    type V = Setting;

    closed spec fn view(&self) -> Setting {
        Setting { enabled: self.enabled, refresh_rate: self.refresh_rate }
    }
}

impl Default for IOConfig {
    fn default() -> (c: Self)
        ensures
            c@ == default_setting(),
    {
        IOConfig { enabled: true, refresh_rate: 1 }
    }
}

impl IOConfig {
    pub fn set_enabled(&mut self, enabled: bool)
        ensures
            final(self)@ == (Setting { enabled, ..old(self)@ }),
        no_unwind
    {
        self.enabled = enabled;
    }

    pub fn get_enabled(&self) -> (e: bool)
        ensures
            e == self@.enabled,
    {
        self.enabled
    }

    pub fn get_refresh_rate(&self) -> (r: u8)
        ensures
            r == self@.refresh_rate,
    {
        self.refresh_rate
    }

    pub fn set_refresh_rate(&mut self, refresh_rate: u8)
        ensures
            final(self)@ == (Setting { refresh_rate, ..old(self)@ }),
        no_unwind
    {
        self.refresh_rate = refresh_rate;
    }
}

/// The settings of all metric kinds.
#[derive(Copy, Clone, Debug, PartialEq, Eq)]
pub struct MetricsConfig {
    cpu_config: CpuConfig,
    memory_config: MemoryConfig,
    io_config: IOConfig,
}

impl Default for MetricsConfig {
    fn default() -> (c: Self)
        ensures
            forall|k: MetricType| is_kind(k) ==> c.setting(k) == default_setting(),
    {
        MetricsConfig {
            cpu_config: CpuConfig::default(),
            memory_config: MemoryConfig::default(),
            io_config: IOConfig::default(),
        }
    }
}

impl MetricsConfig {
    /// The settings of kind `k`. For `Unknown`: not enabled, rate 0.
    pub closed spec fn setting(&self, k: MetricType) -> Setting {
        match k {
            MetricType::CPU => self.cpu_config@,
            MetricType::Memory => self.memory_config@,
            MetricType::IO => self.io_config@,
            MetricType::Unknown => Setting { enabled: false, refresh_rate: 0 },
        }
    }

    /// The settings of every kind.
    pub open spec fn settings(&self) -> Map<MetricType, Setting> {
        Map::new(|k: MetricType| is_kind(k), |k: MetricType| self.setting(k))
    }

    pub fn get_refresh_rate(&self, metric_type: MetricType) -> (r: u8)
        ensures
            r == self.setting(metric_type).refresh_rate,
    {
        match metric_type {
            MetricType::CPU => self.cpu_config.get_refresh_rate(),
            MetricType::Memory => self.memory_config.get_refresh_rate(),
            MetricType::IO => self.io_config.get_refresh_rate(),
            MetricType::Unknown => 0,
        }
    }

    pub fn set_refresh_rate(&mut self, metric_type: MetricType, refresh_rate: u8)
        ensures
            forall|k: MetricType|
                #![trigger final(self).setting(k)]
                final(self).setting(k) == if k == metric_type && is_kind(k) {
                    Setting { refresh_rate, ..old(self).setting(k) }
                } else {
                    old(self).setting(k)
                },
        no_unwind
    {
        match metric_type {
            MetricType::CPU => self.cpu_config.set_refresh_rate(refresh_rate),
            MetricType::Memory => self.memory_config.set_refresh_rate(refresh_rate),
            MetricType::IO => self.io_config.set_refresh_rate(refresh_rate),
            MetricType::Unknown => (),
        }
    }

    pub fn get_enabled(&self, metric_type: MetricType) -> (e: bool)
        ensures
            e == self.setting(metric_type).enabled,
    {
        match metric_type {
            MetricType::CPU => self.cpu_config.get_enabled(),
            MetricType::Memory => self.memory_config.get_enabled(),
            MetricType::IO => self.io_config.get_enabled(),
            MetricType::Unknown => false,
        }
    }

    pub fn set_enabled(&mut self, metric_type: MetricType, enabled: bool)
        ensures
            forall|k: MetricType|
                #![trigger final(self).setting(k)]
                final(self).setting(k) == if k == metric_type && is_kind(k) {
                    Setting { enabled, ..old(self).setting(k) }
                } else {
                    old(self).setting(k)
                },
        no_unwind
    {
        match metric_type {
            MetricType::CPU => self.cpu_config.set_enabled(enabled),
            MetricType::Memory => self.memory_config.set_enabled(enabled),
            MetricType::IO => self.io_config.set_enabled(enabled),
            MetricType::Unknown => (),
        }
    }
}

/// The worker registry: for each metric kind its settings and the state
/// of its worker.
#[derive(Clone, Copy, Debug, PartialEq, Eq)]
pub struct MonitorConfig {
    metrics_config: MetricsConfig,
    cpu_state: MetricState,
    memory_state: MetricState,
    io_state: MetricState,
}

/// The registry that begins from the default settings.
pub open spec fn default_registry() -> Map<MetricType, Entry> {
    Map::new(
        |k: MetricType| is_kind(k),
        |k: MetricType| Entry { state: MetricState::Initialized, enabled: true, refresh_rate: 1 },
    )
}

/// The registry that begins from what was loaded, or from the default
/// settings where nothing was loaded.
pub open spec fn startup_registry(loaded: Option<MetricsConfig>) -> Map<MetricType, Entry> {
    match loaded {
        Some(config) => initial_registry(config),
        None => default_registry(),
    }
}

/// The settings that a registry holds.
pub open spec fn settings_of(registry: Map<MetricType, Entry>) -> Map<MetricType, Setting> {
    Map::new(
        |k: MetricType| is_kind(k),
        |k: MetricType|
            Setting { enabled: registry[k].enabled, refresh_rate: registry[k].refresh_rate },
    )
}

/// The registry that begins from the settings `config`.
pub open spec fn initial_registry(config: MetricsConfig) -> Map<MetricType, Entry> {
    Map::new(
        |k: MetricType| is_kind(k),
        |k: MetricType|
            Entry {
                state: initial_state(config.setting(k).enabled),
                enabled: config.setting(k).enabled,
                refresh_rate: config.setting(k).refresh_rate,
            },
    )
}

impl View for MonitorConfig {
    type V = Map<MetricType, Entry>;

    closed spec fn view(&self) -> Map<MetricType, Entry> {
        Map::new(
            |k: MetricType| is_kind(k),
            |k: MetricType|
                Entry {
                    state: match k {
                        MetricType::CPU => self.cpu_state,
                        MetricType::Memory => self.memory_state,
                        _ => self.io_state,
                    },
                    enabled: self.metrics_config.setting(k).enabled,
                    refresh_rate: self.metrics_config.setting(k).refresh_rate,
                },
        )
    }
}

impl MonitorConfig {
    /// At every moment the registry holds one entry, and so one state, for
    /// each metric kind, and none for anything else.
    pub proof fn law_one_entry_per_kind(&self)
        ensures
            forall|k: MetricType| is_kind(k) <==> #[trigger] self@.dom().contains(k),
    {
    }

    /// The registry for the loaded settings, or for the default settings
    /// where none were loaded. A kind begins `Initialized` where it is
    /// enabled and `Disabled` where it is not.
    pub fn new(loaded: Option<MetricsConfig>) -> (c: Self)
        ensures
            c@ == startup_registry(loaded),
            loaded matches Some(config) ==> c.spec_config() == config,
    {
        let metrics_config = match loaded {
            Some(config) => config,
            None => MetricsConfig::default(),
        };
        let cpu_state = Self::begin(metrics_config.get_enabled(MetricType::CPU));
        let memory_state = Self::begin(metrics_config.get_enabled(MetricType::Memory));
        let io_state = Self::begin(metrics_config.get_enabled(MetricType::IO));
        let c = MonitorConfig { metrics_config, cpu_state, memory_state, io_state };
        assert(c@ =~= initial_registry(metrics_config));
        assert(loaded is None ==> c@ =~= default_registry());
        c
    }

    fn begin(enabled: bool) -> (s: MetricState)
        ensures
            s == initial_state(enabled),
    {
        if enabled {
            MetricState::Initialized
        } else {
            MetricState::Disabled
        }
    }

    /// The settings that the registry holds.
    pub closed spec fn spec_config(&self) -> MetricsConfig {
        self.metrics_config
    }

    pub fn get_config(&self) -> (c: &MetricsConfig)
        ensures
            *c == self.spec_config(),
            c.settings() == settings_of(self@),
    {
        assert(self.metrics_config.settings() =~= settings_of(self@));
        &self.metrics_config
    }

    pub fn get_state(&self, metric_type: MetricType) -> (s: MetricState)
        requires
            is_kind(metric_type),
        ensures
            s == self@[metric_type].state,
    {
        match metric_type {
            MetricType::CPU => self.cpu_state,
            MetricType::Memory => self.memory_state,
            _ => self.io_state,
        }
    }

    /// Records `state` for a kind; for `Unknown` nothing changes.
    pub fn set_state(&mut self, metric_type: MetricType, state: MetricState)
        ensures
            final(self)@ == if is_kind(metric_type) {
                old(self)@.insert(metric_type, Entry { state, ..old(self)@[metric_type] })
            } else {
                old(self)@
            },
        no_unwind
    {
        match metric_type {
            MetricType::CPU => {
                self.cpu_state = state;
            },
            MetricType::Memory => {
                self.memory_state = state;
            },
            MetricType::IO => {
                self.io_state = state;
            },
            MetricType::Unknown => {},
        }
        assert(self@ =~= if is_kind(metric_type) {
            old(self)@.insert(metric_type, Entry { state, ..old(self)@[metric_type] })
        } else {
            old(self)@
        });
    }

    /// The rate of a kind; 0 for `Unknown`.
    pub fn get_refresh_rate(&self, metric_type: MetricType) -> (r: u8)
        ensures
            r == if is_kind(metric_type) {
                self@[metric_type].refresh_rate
            } else {
                0
            },
    {
        self.metrics_config.get_refresh_rate(metric_type)
    }

    /// Records `refresh_rate` for a kind; for `Unknown` nothing changes.
    pub fn set_refresh_rate(&mut self, metric_type: MetricType, refresh_rate: u8)
        ensures
            final(self)@ == if is_kind(metric_type) {
                old(self)@.insert(
                    metric_type,
                    Entry { refresh_rate, ..old(self)@[metric_type] },
                )
            } else {
                old(self)@
            },
        no_unwind
    {
        self.metrics_config.set_refresh_rate(metric_type, refresh_rate);
        assert(self@ =~= if is_kind(metric_type) {
            old(self)@.insert(metric_type, Entry { refresh_rate, ..old(self)@[metric_type] })
        } else {
            old(self)@
        });
    }

    /// Whether a kind is enabled; `false` for `Unknown`.
    pub fn get_enabled(&self, metric_type: MetricType) -> (e: bool)
        ensures
            e == (is_kind(metric_type) && self@[metric_type].enabled),
    {
        self.metrics_config.get_enabled(metric_type)
    }

    /// Records the flag `enabled` for a kind; for `Unknown` nothing changes.
    pub fn set_enabled(&mut self, metric_type: MetricType, enabled: bool)
        ensures
            final(self)@ == if is_kind(metric_type) {
                old(self)@.insert(metric_type, Entry { enabled, ..old(self)@[metric_type] })
            } else {
                old(self)@
            },
        no_unwind
    {
        self.metrics_config.set_enabled(metric_type, enabled);
        assert(self@ =~= if is_kind(metric_type) {
            old(self)@.insert(metric_type, Entry { enabled, ..old(self)@[metric_type] })
        } else {
            old(self)@
        });
    }
}

} // verus!
