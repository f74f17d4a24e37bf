use tracker_rs::alert::{evaluate, AlertKind, AlertSystem};
use tracker_rs::config::{AlertThresholds, Config, DisplayConfig};
use tracker_rs::exporter::DataExporter;
use tracker_rs::logger::TrackerLogger;
use tracker_rs::metrics::{percent_of, sat_add, sat_sub};
use tracker_rs::monitor::{
    disk_usage_from, memory_info_from, network_totals, DiskVolume, MetricReadings,
    NetworkInterface, SamplingCycle,
};
use tracker_rs::numfmt::{format_hundredths, u64_to_string};
use tracker_rs::process::{ProcessRanker, ProcessRecord};
use tracker_rs::temperature::TemperatureMonitor;

fn default_thresholds() -> AlertThresholds {
    AlertThresholds {
        cpu_percent: 8000,
        memory_percent: 8500,
        disk_percent: 9000,
    }
}

fn record(pid: u32, name: &str, cpu: u64, memory: u64) -> ProcessRecord {
    ProcessRecord {
        pid,
        name: name.to_string(),
        cpu_percent: cpu,
        memory_bytes: memory,
    }
}

#[test]
fn zero_total_memory_percent_is_zero() {
    let info = memory_info_from(0, 0);
    assert_eq!(info.percent, 0);
    assert_eq!(info.total, 0);
    assert_eq!(info.used, 0);
}

#[test]
fn zero_total_disk_percent_is_zero() {
    let info = disk_usage_from(&vec![DiskVolume {
        total: 0,
        available: 0,
    }]);
    assert_eq!(info.percent, 0);
    let empty = disk_usage_from(&vec![]);
    assert_eq!(empty.total, 0);
    assert_eq!(empty.used, 0);
    assert_eq!(empty.percent, 0);
}

#[test]
fn zero_total_process_memory_percent_is_zero() {
    let out = ProcessRanker::rank(&vec![record(1, "a", 1000, 4096)], 0, 5);
    assert_eq!(out.len(), 1);
    assert_eq!(out[0].memory_percent, 0);
}

#[test]
fn percent_derivation_exact_values() {
    assert_eq!(percent_of(1, 2), 5000);
    assert_eq!(percent_of(1, 3), 3333);
    assert_eq!(percent_of(150, 100), 15000);
    assert_eq!(percent_of(0, 7), 0);
    assert_eq!(percent_of(u64::MAX, 1), u64::MAX);
}

#[test]
fn saturating_helpers() {
    assert_eq!(sat_add(u64::MAX, 1), u64::MAX);
    assert_eq!(sat_add(2, 3), 5);
    assert_eq!(sat_sub(3, 5), 0);
    assert_eq!(sat_sub(5, 3), 2);
}

#[test]
fn rank_length_is_min_of_limit_and_table() {
    let table = vec![
        record(1, "a", 100, 10),
        record(2, "b", 300, 10),
        record(3, "c", 200, 10),
    ];
    assert_eq!(ProcessRanker::rank(&table, 100, 2).len(), 2);
    assert_eq!(ProcessRanker::rank(&table, 100, 3).len(), 3);
    assert_eq!(ProcessRanker::rank(&table, 100, 9).len(), 3);
    assert_eq!(ProcessRanker::rank(&table, 100, 0).len(), 0);
    assert_eq!(ProcessRanker::rank(&vec![], 100, 4).len(), 0);
}

#[test]
fn rank_sorts_non_increasing_by_cpu() {
    let table = vec![
        record(1, "a", 100, 1),
        record(2, "b", 900, 2),
        record(3, "c", 500, 3),
        record(4, "d", 700, 4),
    ];
    let out = ProcessRanker::rank(&table, 100, 4);
    for w in out.windows(2) {
        assert!(w[0].cpu_percent >= w[1].cpu_percent);
    }
    assert_eq!(
        out.iter().map(|p| p.cpu_percent).collect::<Vec<_>>(),
        vec![900, 700, 500, 100]
    );
}

#[test]
fn rank_breaks_cpu_ties_by_ascending_pid() {
    let table = vec![
        record(30, "c", 500, 1),
        record(10, "a", 500, 1),
        record(20, "b", 500, 1),
    ];
    let out = ProcessRanker::rank(&table, 100, 3);
    assert_eq!(
        out.iter().map(|p| p.pid).collect::<Vec<_>>(),
        vec![10, 20, 30]
    );
}

#[test]
fn rank_three_entries_limit_two_scenario() {
    // cpu percentages 10.0, 95.0 and 50.0, limit 2
    let table = vec![
        record(1, "low", 1000, 0),
        record(2, "high", 9500, 0),
        record(3, "mid", 5000, 0),
    ];
    let out = ProcessRanker::rank(&table, 0, 2);
    assert_eq!(out.len(), 2);
    assert_eq!(out[0].cpu_percent, 9500);
    assert_eq!(out[1].cpu_percent, 5000);
    assert_eq!(out[0].name, "high");
    assert_eq!(out[1].name, "mid");
}

#[test]
fn rank_derives_memory_percent_from_host_total() {
    let table = vec![record(7, "p", 100, 25)];
    let out = ProcessRanker::rank(&table, 200, 1);
    assert_eq!(out[0].memory_percent, 1250); // 12.50%
}

#[test]
fn alert_fires_only_strictly_above_threshold() {
    let t = default_thresholds();
    let system = AlertSystem::new(Config {
        alert_thresholds: t,
        ..Config::default()
    });
    assert!(!system.check_cpu_alert(8000)); // equal: never fires
    assert!(system.check_cpu_alert(8001));
    assert!(!system.check_memory_alert(8500));
    assert!(system.check_memory_alert(8501));
    assert!(!system.check_disk_alert(9000));
    assert!(system.check_disk_alert(9001));
}

#[test]
fn evaluate_equal_measurement_never_fires() {
    let t = default_thresholds();
    let events = evaluate(8000, 8500, 9000, &t);
    assert!(events.is_empty());
}

#[test]
fn evaluate_cpu_and_disk_scenario() {
    // thresholds {cpu=80, memory=85, disk=90}; measured {81.0, 84.9, 95.0}
    let t = default_thresholds();
    let events = evaluate(8100, 8490, 9500, &t);
    assert_eq!(events.len(), 2);
    assert_eq!(events[0].kind, AlertKind::Cpu);
    assert_eq!(events[1].kind, AlertKind::Disk);
    assert_eq!(events[0].measured, 8100);
    assert_eq!(events[0].threshold, 8000);
    assert_eq!(
        events[0].message,
        "CPU usage is 81.00% (threshold: 80.00%)"
    );
    assert_eq!(
        events[1].message,
        "Disk usage is 95.00% (threshold: 90.00%)"
    );
    assert!(events[0].message.contains("81.00"));
    assert!(events[0].message.contains("80.00"));
}

#[test]
fn evaluate_is_idempotent_on_identical_inputs() {
    let t = default_thresholds();
    let first = evaluate(9100, 2000, 9650, &t);
    let second = evaluate(9100, 2000, 9650, &t);
    assert_eq!(first, second);
}

#[test]
fn consecutive_cycles_refire_identical_alerts() {
    let config = Config::default();
    let cycle = SamplingCycle::new(config.clone());
    let readings = MetricReadings {
        timestamp: 1000,
        cpu_percent: 9900,
        memory_total: 100,
        memory_used: 99,
        disks: vec![DiskVolume {
            total: 100,
            available: 1,
        }],
        networks: vec![],
        processes: vec![],
    };
    let first = cycle.run(&readings);
    let second = cycle.run(&readings);
    assert_eq!(first, second);
    assert_eq!(first.alerts_fired.len(), 3);
    assert_eq!(second.alerts_fired.len(), 3);
}

#[test]
fn zero_used_zero_total_memory_scenario() {
    let info = memory_info_from(0, 0);
    assert_eq!(info.percent, 0);
}

#[test]
fn disk_aggregation_two_volumes_scenario() {
    // volumes {total:100, available:20} and {total:50, available:50}
    let info = disk_usage_from(&vec![
        DiskVolume {
            total: 100,
            available: 20,
        },
        DiskVolume {
            total: 50,
            available: 50,
        },
    ]);
    assert_eq!(info.total, 150);
    assert_eq!(info.used, 80);
    assert_eq!(info.percent, 5333); // 53.33%
}

#[test]
fn network_totals_sum_interfaces() {
    let stats = network_totals(&vec![
        NetworkInterface {
            transmitted: 10,
            received: 300,
        },
        NetworkInterface {
            transmitted: 32,
            received: 1,
        },
    ]);
    assert_eq!(stats.bytes_sent, 42);
    assert_eq!(stats.bytes_recv, 301);
    let empty = network_totals(&vec![]);
    assert_eq!(empty.bytes_sent, 0);
    assert_eq!(empty.bytes_recv, 0);
}

#[test]
fn snapshot_assembles_all_derived_metrics() {
    let config = Config::default();
    let cycle = SamplingCycle::new(config);
    let readings = MetricReadings {
        timestamp: 7,
        cpu_percent: 2500,
        memory_total: 200,
        memory_used: 50,
        disks: vec![DiskVolume {
            total: 100,
            available: 20,
        }],
        networks: vec![NetworkInterface {
            transmitted: 5,
            received: 6,
        }],
        processes: vec![record(1, "a", 300, 50), record(2, "b", 900, 100)],
    };
    let snapshot = cycle.run(&readings);
    assert_eq!(snapshot.timestamp, 7);
    assert_eq!(snapshot.cpu_percent, 2500);
    assert_eq!(snapshot.memory.percent, 2500);
    assert_eq!(snapshot.disk.total, 100);
    assert_eq!(snapshot.disk.used, 80);
    assert_eq!(snapshot.disk.percent, 8000);
    assert_eq!(snapshot.network.bytes_sent, 5);
    assert_eq!(snapshot.network.bytes_recv, 6);
    assert_eq!(snapshot.top_processes.len(), 2);
    assert_eq!(snapshot.top_processes[0].pid, 2);
    assert_eq!(snapshot.top_processes[0].memory_percent, 5000);
    assert!(snapshot.alerts_fired.is_empty());
}

#[test]
fn snapshot_skips_ranking_when_processes_hidden() {
    let mut config = Config::default();
    config.display = DisplayConfig {
        show_cpu: true,
        show_memory: true,
        show_disk: true,
        show_network: true,
        show_processes: false,
        show_temperatures: true,
    };
    let cycle = SamplingCycle::new(config);
    let readings = MetricReadings {
        timestamp: 1,
        cpu_percent: 9999,
        memory_total: 10,
        memory_used: 10,
        disks: vec![],
        networks: vec![],
        processes: vec![record(1, "a", 300, 5)],
    };
    let snapshot = cycle.run(&readings);
    assert!(snapshot.top_processes.is_empty());
    // alerts evaluate regardless of display toggles
    assert_eq!(snapshot.alerts_fired.len(), 2);
    assert_eq!(snapshot.alerts_fired[0].kind, AlertKind::Cpu);
    assert_eq!(snapshot.alerts_fired[1].kind, AlertKind::Memory);
}

#[test]
fn default_config_matches_documented_values() {
    let config = Config::default();
    assert_eq!(config.update_interval, 5);
    assert_eq!(config.process_limit, 5);
    assert!(config.display.show_cpu);
    assert!(config.display.show_memory);
    assert!(config.display.show_disk);
    assert!(config.display.show_network);
    assert!(config.display.show_processes);
    assert!(config.display.show_temperatures);
    assert_eq!(config.alert_thresholds.cpu_percent, 8000);
    assert_eq!(config.alert_thresholds.memory_percent, 8500);
    assert_eq!(config.alert_thresholds.disk_percent, 9000);
    assert!(config.alert_thresholds.is_valid());
}

#[test]
fn threshold_validity_bounds() {
    let mut t = default_thresholds();
    assert!(t.is_valid());
    t.cpu_percent = 0;
    assert!(!t.is_valid());
    t.cpu_percent = 10000;
    assert!(t.is_valid());
    t.disk_percent = 10001;
    assert!(!t.is_valid());
}

#[test]
fn decimal_rendering_exact() {
    assert_eq!(u64_to_string(0), "0");
    assert_eq!(u64_to_string(7), "7");
    assert_eq!(u64_to_string(120034), "120034");
    assert_eq!(format_hundredths(8100), "81.00");
    assert_eq!(format_hundredths(5333), "53.33");
    assert_eq!(format_hundredths(5), "0.05");
    assert_eq!(format_hundredths(10000), "100.00");
    assert_eq!(format_hundredths(101), "1.01");
}

#[test]
fn log_lines_follow_audit_format() {
    let logger = TrackerLogger::new("logs");
    assert_eq!(
        logger.log_stats("2024-01-02 03:04:05", "CPU", "81.00%"),
        "2024-01-02 03:04:05 - SystemTracker - INFO - CPU: 81.00%\n"
    );
    assert_eq!(
        logger.log_alert("2024-01-02 03:04:05", "CPU: CPU usage is 81.00% (threshold: 80.00%)"),
        "2024-01-02 03:04:05 - SystemTracker - WARNING - ALERT: CPU: CPU usage is 81.00% (threshold: 80.00%)\n"
    );
    assert_eq!(
        logger.log_error("2024-01-02 03:04:05", "export failed"),
        "2024-01-02 03:04:05 - SystemTracker - ERROR - ERROR: export failed\n"
    );
    assert_eq!(logger.log_file_name("20240102"), "logs/tracker_20240102.log");
}

#[test]
fn alert_events_carry_tagged_messages() {
    let t = default_thresholds();
    let events = evaluate(8100, 0, 0, &t);
    assert_eq!(events.len(), 1);
    assert_eq!(
        events[0].tagged_message(),
        "CPU: CPU usage is 81.00% (threshold: 80.00%)"
    );
}

#[test]
fn export_paths_default_to_timestamped_names() {
    let exporter = DataExporter::new("exports");
    assert_eq!(
        exporter.json_export_path("20240102_030405", None),
        "exports/tracker_data_20240102_030405.json"
    );
    assert_eq!(
        exporter.csv_export_path("20240102_030405", None),
        "exports/tracker_data_20240102_030405.csv"
    );
    assert_eq!(
        exporter.json_export_path("20240102_030405", Some("chosen.json")),
        "exports/chosen.json"
    );
}

#[test]
fn temperature_monitor_reports_fixed_status() {
    let monitor = TemperatureMonitor::new();
    assert_eq!(
        monitor.status_message(),
        "Temperature sensors not available on this system"
    );
}
