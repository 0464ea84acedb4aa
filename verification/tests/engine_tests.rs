use sysmon_core::collector::{CheapReading, FullReading, ProcessSample};
use sysmon_core::engine::{AppState, InputAction};
use sysmon_core::types::{CpuCoreUsage, RamSwapUsage, SortOrder};
use sysmon_core::widgets::{CpuWidget, ProcessTableWidget};

fn empty_cheap() -> CheapReading {
    CheapReading {
        cpu: Vec::new(),
        ram: RamSwapUsage { used: 0, total: 0 },
        swap: RamSwapUsage { used: 0, total: 0 },
        interfaces: Vec::new(),
    }
}

fn engine() -> AppState {
    AppState::new("/tmp/sysmon-test".to_string())
}

#[test]
fn scan_rate_walks_the_presets() {
    let mut e = engine();
    assert_eq!(e.collector.process_every, 4);
    e.scan_faster();
    assert_eq!(e.collector.process_every, 2);
    e.scan_faster();
    assert_eq!(e.collector.process_every, 1);
    e.scan_faster();
    assert_eq!(e.collector.process_every, 1); // no-op at the fastest
    e.scan_slower();
    assert_eq!(e.collector.process_every, 2);
    e.scan_slower();
    assert_eq!(e.collector.process_every, 4);
    e.scan_slower();
    assert_eq!(e.collector.process_every, 8);
    e.scan_slower();
    assert_eq!(e.collector.process_every, 20);
    e.scan_slower();
    assert_eq!(e.collector.process_every, 20); // no-op at the slowest
}

#[test]
fn faster_then_slower_returns_to_preset() {
    for preset in [2u32, 4, 8, 20] {
        let mut e = engine();
        e.collector.process_every = preset;
        e.scan_faster();
        e.scan_slower();
        assert_eq!(e.collector.process_every, preset);
    }
}

#[test]
fn scan_keys_step_the_rate() {
    let mut e = engine();
    let a = e.handle_input('[', false);
    assert!(matches!(a, InputAction::NoOp));
    assert_eq!(e.collector.process_every, 2);
    let a = e.handle_input(']', false);
    assert!(matches!(a, InputAction::NoOp));
    assert_eq!(e.collector.process_every, 4);
}

#[test]
fn sort_keys_set_order() {
    let mut e = engine();
    assert!(matches!(e.sort_order, SortOrder::Cpu));
    e.handle_input('m', false);
    assert!(matches!(e.sort_order, SortOrder::Mem));
    e.handle_input('c', false);
    assert!(matches!(e.sort_order, SortOrder::Cpu));
    e.handle_input('M', true);
    assert!(matches!(e.sort_order, SortOrder::Mem));
}

#[test]
fn other_keys_are_ignored() {
    let mut e = engine();
    let a = e.handle_input('x', false);
    assert!(matches!(a, InputAction::NoOp));
    let a = e.handle_input('q', false); // quit is the outer loop's business
    assert!(matches!(a, InputAction::NoOp));
    assert!(matches!(e.sort_order, SortOrder::Cpu));
    assert_eq!(e.collector.process_every, 4);
}

#[test]
fn snapshot_action_carries_path_and_lines() {
    let mut e = engine();
    let _ = e.update_metrics(empty_cheap(), Some(FullReading {
        processes: vec![ProcessSample {
            pid: 9,
            name: "init".to_string(),
            cpu_tenths: 15,
            mem_bytes: 4096,
            disk_read_bytes: 0,
            disk_written_bytes: 0,
        }],
        zones: Vec::new(),
        components: Vec::new(),
    }));
    match e.handle_input('l', false) {
        InputAction::Snapshot { path, lines } => {
            assert!(path.starts_with("/tmp/sysmon-test/snap-"));
            assert!(path.ends_with(".csv"));
            assert_eq!(lines.len(), 2);
            assert_eq!(lines[0], "timestamp,pid,name,cpu_percent,mem_bytes");
            assert!(lines[1].ends_with(",9,init,1.5,4096"));
        }
        _ => panic!("expected a snapshot action"),
    }
    // The engine records nothing until the file is reported written.
    assert!(e.snap_path.is_none());
    e.record_snapshot("/tmp/sysmon-test/snap-x.csv".to_string());
    assert_eq!(e.snap_path.as_deref(), Some("/tmp/sysmon-test/snap-x.csv"));
    assert_eq!(e.snap_ttl, 12);
}

#[test]
fn snapshot_path_clears_exactly_on_twelfth_tick() {
    let mut e = engine();
    e.record_snapshot("/tmp/sysmon-test/snap-x.csv".to_string());
    for tick in 1..=12u32 {
        let _ = e.update_metrics(empty_cheap(), None);
        if tick < 12 {
            assert!(e.snap_path.is_some(), "path gone after tick {}", tick);
            assert_eq!(e.snap_ttl, 12 - tick);
        } else {
            assert!(e.snap_path.is_none(), "path should clear on tick 12");
            assert_eq!(e.snap_ttl, 0);
        }
    }
}

#[test]
fn log_toggle_is_idempotent_in_pairs() {
    let mut e = engine();
    assert!(e.log_path.is_none());
    let path = match e.handle_input('l', true) {
        InputAction::StartLog { path, header } => {
            assert_eq!(header, "timestamp,pid,name,cpu_percent,mem_bytes");
            assert!(path.starts_with("/tmp/sysmon-test/sysmon-"));
            assert!(path.ends_with(".csv"));
            path
        }
        _ => panic!("expected a start-log action"),
    };
    e.record_log_opened(path);
    assert!(e.log_path.is_some());
    // Second toggle: back to inactive, no path recorded.
    let a = e.handle_input('l', true);
    assert!(matches!(a, InputAction::StopLog));
    assert!(e.log_path.is_none());
}

#[test]
fn failed_log_open_leaves_logging_off() {
    let mut e = engine();
    let a = e.handle_input('l', true);
    assert!(matches!(a, InputAction::StartLog { .. }));
    // No record_log_opened call: creation failed, state unchanged.
    assert!(e.log_path.is_none());
    let rows = e.update_metrics(empty_cheap(), None);
    assert!(rows.is_none());
}

#[test]
fn active_log_gets_rows_each_tick() {
    let mut e = engine();
    e.record_log_opened("/tmp/sysmon-test/sysmon-x.csv".to_string());
    let rows = e.update_metrics(empty_cheap(), Some(FullReading {
        processes: vec![
            ProcessSample {
                pid: 1,
                name: "a".to_string(),
                cpu_tenths: 10,
                mem_bytes: 1,
                disk_read_bytes: 0,
                disk_written_bytes: 0,
            },
            ProcessSample {
                pid: 2,
                name: "b".to_string(),
                cpu_tenths: 20,
                mem_bytes: 2,
                disk_read_bytes: 0,
                disk_written_bytes: 0,
            },
        ],
        zones: Vec::new(),
        components: Vec::new(),
    })).expect("rows while logging");
    assert_eq!(rows.len(), 2);
    assert!(rows[0].ends_with(",2,b,2.0,2")); // sorted by CPU descending
    assert!(rows[1].ends_with(",1,a,1.0,1"));
}

#[test]
fn tick_feeds_history_with_new_counters() {
    let mut e = engine();
    let cheap = CheapReading {
        cpu: Vec::new(),
        ram: RamSwapUsage { used: 0, total: 0 },
        swap: RamSwapUsage { used: 0, total: 0 },
        interfaces: vec![sysmon_core::types::NetworkStats {
            received_bytes: 100,
            transmitted_bytes: 10,
        }],
    };
    let _ = e.update_metrics(cheap, Some(FullReading {
        processes: vec![ProcessSample {
            pid: 1,
            name: "a".to_string(),
            cpu_tenths: 0,
            mem_bytes: 0,
            disk_read_bytes: 7,
            disk_written_bytes: 8,
        }],
        zones: Vec::new(),
        components: Vec::new(),
    }));
    assert_eq!(e.history.rx_snapshot(), vec![100]);
    assert_eq!(e.history.tx_snapshot(), vec![10]);
    assert_eq!(e.history.read_snapshot(), vec![7]);
    assert_eq!(e.history.write_snapshot(), vec![8]);
}

#[test]
fn sort_scenario_reverses_with_inverted_memory() {
    // Four cores at 10/20/30/40 percent, RAM 4 GiB of 16 GiB, and two
    // processes whose memory ranks are inverted relative to their CPU
    // ranks: sorting by CPU and by memory return them in opposite orders.
    let mut e = engine();
    let four_gib: u64 = 4 * 1024 * 1024 * 1024;
    let cheap = CheapReading {
        cpu: vec![
            CpuCoreUsage { core_id: 0, usage_tenths: 100 },
            CpuCoreUsage { core_id: 1, usage_tenths: 200 },
            CpuCoreUsage { core_id: 2, usage_tenths: 300 },
            CpuCoreUsage { core_id: 3, usage_tenths: 400 },
        ],
        ram: RamSwapUsage { used: four_gib, total: 4 * four_gib },
        swap: RamSwapUsage { used: 0, total: 0 },
        interfaces: Vec::new(),
    };
    let full = FullReading {
        processes: vec![
            ProcessSample {
                pid: 1,
                name: "cpu-heavy".to_string(),
                cpu_tenths: 900,
                mem_bytes: 1000,
                disk_read_bytes: 0,
                disk_written_bytes: 0,
            },
            ProcessSample {
                pid: 2,
                name: "mem-heavy".to_string(),
                cpu_tenths: 100,
                mem_bytes: 9000,
                disk_read_bytes: 0,
                disk_written_bytes: 0,
            },
        ],
        zones: Vec::new(),
        components: Vec::new(),
    };
    let m = e.update_metrics(cheap, Some(full));
    assert!(m.is_none());
    assert_eq!(e.metrics.cpu.len(), 4);
    let avg = CpuWidget::new(e.metrics.cpu.clone()).average_usage_tenths();
    assert_eq!(avg, 250); // 25.0 percent

    let by_cpu = ProcessTableWidget::new(e.metrics.processes.clone(), SortOrder::Cpu).sorted();
    let cpu_order: Vec<i32> = by_cpu.iter().map(|p| p.pid).collect();
    assert_eq!(cpu_order, vec![1, 2]);

    e.handle_input('m', false);
    let by_mem = ProcessTableWidget::new(e.metrics.processes.clone(), e.sort_order).sorted();
    let mem_order: Vec<i32> = by_mem.iter().map(|p| p.pid).collect();
    assert_eq!(mem_order, vec![2, 1]);
}

#[test]
fn new_engine_is_zeroed() {
    let e = engine();
    assert!(e.metrics.cpu.is_empty());
    assert!(e.metrics.processes.is_empty());
    assert!(e.metrics.thermals.is_empty());
    assert_eq!(e.metrics.ram.used, 0);
    assert_eq!(e.metrics.network.received_bytes, 0);
    assert!(matches!(e.sort_order, SortOrder::Cpu));
    assert_eq!(e.collector.process_every, 4);
    assert!(e.snap_path.is_none());
    assert_eq!(e.snap_ttl, 0);
    assert!(e.log_path.is_none());
    assert_eq!(e.log_dir, "/tmp/sysmon-test");
}
