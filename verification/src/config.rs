//! Configuration values: update interval, per-category display toggles,
//! process listing limit and alert thresholds.
//!
//! Thresholds are percentages in hundredths of a percent; a valid
//! threshold lies in the half-open interval from zero (exclusive) to one
//! hundred percent (inclusive). Loading and parsing a configuration file
//! is an outside concern; on any load failure the documented defaults
//! below take its place.

use vstd::prelude::*;

verus! {

/// Which metric categories a cycle's report shows.
#[derive(Debug, Clone, PartialEq, Eq, Structural)]
pub struct DisplayConfig {
    pub show_cpu: bool,
    pub show_memory: bool,
    pub show_disk: bool,
    pub show_network: bool,
    pub show_processes: bool,
    pub show_temperatures: bool,
}

/// Upper bounds, in hundredths of a percent, past which an alert fires.
#[derive(Debug, Clone, Copy, PartialEq, Eq, Structural)]
pub struct AlertThresholds {
    pub cpu_percent: u64,
    pub memory_percent: u64,
    pub disk_percent: u64,
}

/// Full configuration of the tracker, immutable for the process lifetime.
#[derive(Debug, Clone, PartialEq)]
pub struct Config {
    pub update_interval: u64,
    pub display: DisplayConfig,
    pub process_limit: usize,
    pub alert_thresholds: AlertThresholds,
}

/// A threshold is valid when it lies in (0, 100] percent.
pub open spec fn threshold_valid(t: u64) -> bool {
    0 < t <= 10000
}

impl AlertThresholds {
    /// All three thresholds lie in (0, 100] percent.
    pub open spec fn valid(self) -> bool {
        threshold_valid(self.cpu_percent) && threshold_valid(self.memory_percent)
            && threshold_valid(self.disk_percent)
    }

    /// Checks that every threshold lies in (0, 100] percent.
    pub fn is_valid(&self) -> (r: bool)
        ensures
            r == self.valid(),
    {
        0 < self.cpu_percent && self.cpu_percent <= 10000 && 0 < self.memory_percent
            && self.memory_percent <= 10000 && 0 < self.disk_percent && self.disk_percent <= 10000
    }
}

/// The documented default configuration: a five-second interval, every
/// category shown, five processes listed, thresholds of 80%, 85% and 90%
/// for CPU, memory and disk.
pub open spec fn default_config() -> Config {
    Config {
        update_interval: 5u64,
        display: DisplayConfig {
            show_cpu: true,
            show_memory: true,
            show_disk: true,
            show_network: true,
            show_processes: true,
            show_temperatures: true,
        },
        process_limit: 5usize,
        alert_thresholds: AlertThresholds {
            cpu_percent: 8000u64,
            memory_percent: 8500u64,
            disk_percent: 9000u64,
        },
    }
}

impl Default for Config {
    /// The fallback configuration used when no file can be loaded.
    fn default() -> (r: Config)
        ensures
            r == default_config(),
            r.alert_thresholds.valid(),
    {
        Config {
            update_interval: 5,
            display: DisplayConfig {
                show_cpu: true,
                show_memory: true,
                show_disk: true,
                show_network: true,
                show_processes: true,
                show_temperatures: true,
            },
            process_limit: 5,
            alert_thresholds: AlertThresholds {
                cpu_percent: 8000,
                memory_percent: 8500,
                disk_percent: 9000,
            },
        }
    }
}

} // verus!
