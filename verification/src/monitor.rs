//! Host-wide metric records and their derivation from raw counters.
//!
//! The operating-system queries themselves live outside the library; this
//! module turns the plain counters they yield (bytes used, bytes total,
//! per-volume and per-interface sums) into the derived records a sampling
//! cycle reports.

use vstd::prelude::*;
use crate::alert::{evaluate, spec_evaluate, views_of, AlertEvent, AlertEventView};
use crate::config::{AlertThresholds, Config};
use crate::metrics::{
    percent_hundredths, percent_of, sat_add, sat_add_spec, sat_sub, sat_sub_spec,
};
use crate::process::{ranked, summaries_of, ProcessInfo, ProcessRanker, ProcessRecord};

verus! {

/// Memory usage of the host: raw byte counters plus the derived
/// percentage in hundredths of a percent.
#[derive(Debug, Clone, PartialEq)]
pub struct MemoryInfo {
    pub total: u64,
    pub used: u64,
    pub percent: u64,
}

/// Disk usage aggregated across every mounted volume.
#[derive(Debug, Clone, PartialEq)]
pub struct DiskInfo {
    pub total: u64,
    pub used: u64,
    pub percent: u64,
}

/// Cumulative network counters summed across interfaces.
#[derive(Debug, Clone, PartialEq)]
pub struct NetworkStats {
    pub bytes_sent: u64,
    pub bytes_recv: u64,
}

/// Raw counters of one mounted volume.
#[derive(Debug, Clone, PartialEq)]
pub struct DiskVolume {
    pub total: u64,
    pub available: u64,
}

/// Raw cumulative counters of one network interface.
#[derive(Debug, Clone, PartialEq)]
pub struct NetworkInterface {
    pub transmitted: u64,
    pub received: u64,
}

/// Saturating sum of the total space of a list of volumes.
pub open spec fn total_space_sum(s: Seq<DiskVolume>) -> u64
    decreases s.len(),
{
    if s.len() == 0 {
        0u64
    } else {
        sat_add_spec(total_space_sum(s.drop_last()), s.last().total)
    }
}

/// Saturating sum of the available space of a list of volumes.
pub open spec fn available_space_sum(s: Seq<DiskVolume>) -> u64
    decreases s.len(),
{
    if s.len() == 0 {
        0u64
    } else {
        sat_add_spec(available_space_sum(s.drop_last()), s.last().available)
    }
}

/// Saturating sum of the transmitted bytes of a list of interfaces.
pub open spec fn transmitted_sum(s: Seq<NetworkInterface>) -> u64
    decreases s.len(),
{
    if s.len() == 0 {
        0u64
    } else {
        sat_add_spec(transmitted_sum(s.drop_last()), s.last().transmitted)
    }
}

/// Saturating sum of the received bytes of a list of interfaces.
pub open spec fn received_sum(s: Seq<NetworkInterface>) -> u64
    decreases s.len(),
{
    if s.len() == 0 {
        0u64
    } else {
        sat_add_spec(received_sum(s.drop_last()), s.last().received)
    }
}

/// Derives the memory record from the host's total and used byte counts.
/// A zero total yields a zero percentage.
pub fn memory_info_from(total: u64, used: u64) -> (r: MemoryInfo)
    ensures
        r.total == total,
        r.used == used,
        r.percent == percent_hundredths(used, total),
        total == 0 ==> r.percent == 0,
{
    let percent = percent_of(used, total);
    MemoryInfo { total, used, percent }
}

/// Aggregates disk usage across all mounted volumes: totals and available
/// space are summed, used space is their difference floored at zero, and
/// the percentage is derived from the sums. No volumes at all yield an
/// all-zero record.
pub fn disk_usage_from(volumes: &Vec<DiskVolume>) -> (r: DiskInfo)
    ensures
        r.total == total_space_sum(volumes@),
        r.used == sat_sub_spec(total_space_sum(volumes@), available_space_sum(volumes@)),
        r.percent == percent_hundredths(r.used, r.total),
        volumes@.len() == 0 ==> r == (DiskInfo { total: 0, used: 0, percent: 0 }),
{
    let mut total: u64 = 0;
    let mut available: u64 = 0;
    let n = volumes.len();
    let mut i: usize = 0;
    while i < n
        invariant
            i <= n,
            n == volumes@.len(),
            total == total_space_sum(volumes@.take(i as int)),
            available == available_space_sum(volumes@.take(i as int)),
        decreases n - i,
    {
        proof {
            assert(volumes@.take(i + 1).drop_last() =~= volumes@.take(i as int));
            assert(volumes@.take(i + 1).last() == volumes@[i as int]);
        }
        total = sat_add(total, volumes[i].total);
        available = sat_add(available, volumes[i].available);
        i = i + 1;
    }
    proof {
        assert(volumes@.take(n as int) =~= volumes@);
    }
    let used = sat_sub(total, available);
    let percent = percent_of(used, total);
    DiskInfo { total, used, percent }
}

/// Sums cumulative transmitted and received byte counters across all
/// network interfaces.
pub fn network_totals(interfaces: &Vec<NetworkInterface>) -> (r: NetworkStats)
    ensures
        r.bytes_sent == transmitted_sum(interfaces@),
        r.bytes_recv == received_sum(interfaces@),
        interfaces@.len() == 0 ==> r == (NetworkStats { bytes_sent: 0, bytes_recv: 0 }),
{
    let mut sent: u64 = 0;
    let mut recv: u64 = 0;
    let n = interfaces.len();
    let mut i: usize = 0;
    while i < n
        invariant
            i <= n,
            n == interfaces@.len(),
            sent == transmitted_sum(interfaces@.take(i as int)),
            recv == received_sum(interfaces@.take(i as int)),
        decreases n - i,
    {
        proof {
            assert(interfaces@.take(i + 1).drop_last() =~= interfaces@.take(i as int));
            assert(interfaces@.take(i + 1).last() == interfaces@[i as int]);
        }
        sent = sat_add(sent, interfaces[i].transmitted);
        recv = sat_add(recv, interfaces[i].received);
        i = i + 1;
    }
    proof {
        assert(interfaces@.take(n as int) =~= interfaces@);
    }
    NetworkStats { bytes_sent: sent, bytes_recv: recv }
}

/// Everything one cycle reads from the host, as plain counters: the CPU
/// percentage (already derived over the sampling window, in hundredths
/// of a percent), memory byte counts, per-volume and per-interface
/// counters, the process table, and the moment of the reading in
/// seconds.
#[derive(Debug, Clone, PartialEq)]
pub struct MetricReadings {
    pub timestamp: u64,
    pub cpu_percent: u64,
    pub memory_total: u64,
    pub memory_used: u64,
    pub disks: Vec<DiskVolume>,
    pub networks: Vec<NetworkInterface>,
    pub processes: Vec<ProcessRecord>,
}

/// Immutable result of one sampling cycle: derived metrics, the ranked
/// process list, and the alerts that fired.
#[derive(Debug, Clone, PartialEq)]
pub struct Snapshot {
    pub timestamp: u64,
    pub cpu_percent: u64,
    pub memory: MemoryInfo,
    pub disk: DiskInfo,
    pub network: NetworkStats,
    pub top_processes: Vec<ProcessInfo>,
    pub alerts_fired: Vec<AlertEvent>,
}

/// The disk percentage a set of volume readings derives to.
pub open spec fn disk_percent_of(disks: Seq<DiskVolume>) -> u64 {
    percent_hundredths(
        sat_sub_spec(total_space_sum(disks), available_space_sum(disks)),
        total_space_sum(disks),
    )
}

/// The alerts one cycle fires, as a function of the raw readings and
/// the thresholds alone.
pub open spec fn cycle_alerts(
    cpu_percent: u64,
    memory_total: u64,
    memory_used: u64,
    disks: Seq<DiskVolume>,
    thresholds: AlertThresholds,
) -> Seq<AlertEventView> {
    spec_evaluate(
        cpu_percent,
        percent_hundredths(memory_used, memory_total),
        disk_percent_of(disks),
        thresholds,
    )
}

/// The orchestrator of one sampling pass. Between calls it is idle; a
/// call to `run` is one whole cycle, which always completes: degraded
/// all-zero readings flow through the same derivations and never abort
/// it.
pub struct SamplingCycle {
    pub config: Config,
}

impl SamplingCycle {
    /// A cycle runner over the given configuration.
    pub fn new(config: Config) -> (r: SamplingCycle)
        ensures
            r.config == config,
    {
        SamplingCycle { config }
    }

    /// Runs one cycle over the given readings: derives the memory, disk
    /// and network records, ranks processes when their display is
    /// enabled, evaluates every alert threshold regardless of the
    /// display toggles, and assembles the snapshot.
    pub fn run(&self, readings: &MetricReadings) -> (r: Snapshot)
        ensures
            r.timestamp == readings.timestamp,
            r.cpu_percent == readings.cpu_percent,
            r.memory == (MemoryInfo {
                total: readings.memory_total,
                used: readings.memory_used,
                percent: percent_hundredths(readings.memory_used, readings.memory_total),
            }),
            r.disk.total == total_space_sum(readings.disks@),
            r.disk.used == sat_sub_spec(
                total_space_sum(readings.disks@),
                available_space_sum(readings.disks@),
            ),
            r.disk.percent == disk_percent_of(readings.disks@),
            r.network == (NetworkStats {
                bytes_sent: transmitted_sum(readings.networks@),
                bytes_recv: received_sum(readings.networks@),
            }),
            self.config.display.show_processes ==> r.top_processes@.len() == if (
            self.config.process_limit as int) < readings.processes@.len() {
                self.config.process_limit as int
            } else {
                readings.processes@.len() as int
            },
            self.config.display.show_processes ==> ranked(r.top_processes@) && (exists|
                s: Seq<ProcessInfo>,
            |
                ranked(s) && s.to_multiset() == summaries_of(
                    readings.processes@,
                    readings.memory_total,
                ).to_multiset() && r.top_processes@ == s.take(r.top_processes@.len() as int)),
            !self.config.display.show_processes ==> r.top_processes@ == Seq::<ProcessInfo>::empty(),
            views_of(r.alerts_fired@) == cycle_alerts(
                readings.cpu_percent,
                readings.memory_total,
                readings.memory_used,
                readings.disks@,
                self.config.alert_thresholds,
            ),
    {
        let memory = memory_info_from(readings.memory_total, readings.memory_used);
        let disk = disk_usage_from(&readings.disks);
        let network = network_totals(&readings.networks);
        let top_processes = if self.config.display.show_processes {
            ProcessRanker::rank(
                &readings.processes,
                readings.memory_total,
                self.config.process_limit,
            )
        } else {
            Vec::new()
        };
        let alerts_fired = evaluate(
            readings.cpu_percent,
            memory.percent,
            disk.percent,
            &self.config.alert_thresholds,
        );
        Snapshot {
            timestamp: readings.timestamp,
            cpu_percent: readings.cpu_percent,
            memory,
            disk,
            network,
            top_processes,
            alerts_fired,
        }
    }
}

/// Two cycles over unchanged readings and unchanged thresholds fire the
/// same alerts again: nothing is suppressed or debounced, a persisting
/// condition re-fires every cycle.
pub proof fn lemma_cycle_repeats_alerts(
    cpu1: u64,
    memory_total1: u64,
    memory_used1: u64,
    disks1: Seq<DiskVolume>,
    thresholds1: AlertThresholds,
    cpu2: u64,
    memory_total2: u64,
    memory_used2: u64,
    disks2: Seq<DiskVolume>,
    thresholds2: AlertThresholds,
)
    requires
        cpu1 == cpu2,
        memory_total1 == memory_total2,
        memory_used1 == memory_used2,
        disks1 == disks2,
        thresholds1 == thresholds2,
    ensures
        cycle_alerts(cpu1, memory_total1, memory_used1, disks1, thresholds1) == cycle_alerts(
            cpu2,
            memory_total2,
            memory_used2,
            disks2,
            thresholds2,
        ),
{
}

} // verus!
