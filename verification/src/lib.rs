//! Core of a host-health tracker: derives percentage metrics from raw
//! counters, ranks processes by CPU usage, evaluates alert thresholds and
//! assembles per-cycle snapshots. Percentages are carried as integer
//! hundredths of a percent so that every derivation is exact.

pub mod alert;
pub mod config;
pub mod exporter;
pub mod logger;
pub mod metrics;
pub mod monitor;
pub mod numfmt;
pub mod process;
pub mod temperature;
