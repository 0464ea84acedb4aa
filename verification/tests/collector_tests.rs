use sysmon_core::collector::{
    CheapReading, Collector, ComponentReading, FullReading, ProcessSample, ThermalZoneReading,
};
use sysmon_core::types::{CpuCoreUsage, NetworkStats, RamSwapUsage};

fn cheap(interfaces: Vec<NetworkStats>) -> CheapReading {
    CheapReading {
        cpu: vec![CpuCoreUsage { core_id: 0, usage_tenths: 100 }],
        ram: RamSwapUsage { used: 1, total: 2 },
        swap: RamSwapUsage { used: 0, total: 0 },
        interfaces,
    }
}

fn sample(pid: i32, name: &str, cpu_tenths: u32, mem: u64, dr: u64, dw: u64) -> ProcessSample {
    ProcessSample {
        pid,
        name: name.to_string(),
        cpu_tenths,
        mem_bytes: mem,
        disk_read_bytes: dr,
        disk_written_bytes: dw,
    }
}

fn full_with(ps: Vec<ProcessSample>) -> FullReading {
    FullReading { processes: ps, zones: Vec::new(), components: Vec::new() }
}

#[test]
fn network_counters_are_summed() {
    let mut c = Collector::new();
    let m = c.collect(
        cheap(vec![
            NetworkStats { received_bytes: 1, transmitted_bytes: 2 },
            NetworkStats { received_bytes: 30, transmitted_bytes: 40 },
        ]),
        Some(full_with(Vec::new())),
    );
    assert_eq!(m.network.received_bytes, 31);
    assert_eq!(m.network.transmitted_bytes, 42);
}

#[test]
fn network_sum_saturates() {
    let mut c = Collector::new();
    let m = c.collect(
        cheap(vec![
            NetworkStats { received_bytes: u64::MAX, transmitted_bytes: 0 },
            NetworkStats { received_bytes: 1, transmitted_bytes: 5 },
        ]),
        Some(full_with(Vec::new())),
    );
    assert_eq!(m.network.received_bytes, u64::MAX);
    assert_eq!(m.network.transmitted_bytes, 5);
}

#[test]
fn expensive_fields_recomputed_only_on_gate() {
    // With process_every = 2, the expensive fields are recomputed exactly
    // on the calls where the tick counter is a multiple of 2, and the
    // cached values are returned verbatim in between.
    let mut c = Collector::new();
    c.process_every = 2;

    // tick 0: full refresh.
    let m0 = c.collect(cheap(Vec::new()), Some(full_with(vec![sample(1, "a", 10, 5, 100, 200)])));
    assert_eq!(m0.processes.len(), 1);
    assert_eq!(m0.processes[0].name, "a");
    assert_eq!(m0.disk_io.read_bytes, 100);
    assert_eq!(m0.disk_io.write_bytes, 200);

    // tick 1: not a multiple of 2 -- fresh readings are ignored, caches kept.
    let m1 = c.collect(cheap(Vec::new()), Some(full_with(vec![sample(2, "b", 20, 6, 300, 400)])));
    assert_eq!(m1.processes.len(), 1);
    assert_eq!(m1.processes[0].name, "a");
    assert_eq!(m1.disk_io.read_bytes, 100);

    // tick 2: full refresh again, with the new readings.
    let m2 = c.collect(cheap(Vec::new()), Some(full_with(vec![sample(2, "b", 20, 6, 300, 400)])));
    assert_eq!(m2.processes.len(), 1);
    assert_eq!(m2.processes[0].name, "b");
    assert_eq!(m2.disk_io.read_bytes, 300);
    assert_eq!(m2.disk_io.write_bytes, 400);
}

#[test]
fn missing_full_reading_keeps_caches() {
    let mut c = Collector::new();
    c.process_every = 1;
    let m0 = c.collect(cheap(Vec::new()), Some(full_with(vec![sample(7, "x", 10, 5, 11, 13)])));
    assert_eq!(m0.processes.len(), 1);
    // Full refresh due, but the readings are missing: previous values stay.
    let m1 = c.collect(cheap(Vec::new()), None);
    assert_eq!(m1.processes.len(), 1);
    assert_eq!(m1.processes[0].name, "x");
    assert_eq!(m1.disk_io.read_bytes, 11);
}

#[test]
fn processes_sorted_by_cpu_descending() {
    let mut c = Collector::new();
    let m = c.collect(
        cheap(Vec::new()),
        Some(full_with(vec![
            sample(1, "low", 5, 0, 0, 0),
            sample(2, "high", 500, 0, 0, 0),
            sample(3, "mid", 50, 0, 0, 0),
        ])),
    );
    let names: Vec<&str> = m.processes.iter().map(|p| p.name.as_str()).collect();
    assert_eq!(names, vec!["high", "mid", "low"]);
}

#[test]
fn disk_io_is_sum_of_process_counters() {
    let mut c = Collector::new();
    let m = c.collect(
        cheap(Vec::new()),
        Some(full_with(vec![sample(1, "a", 0, 0, 10, 1), sample(2, "b", 0, 0, 20, 2)])),
    );
    assert_eq!(m.disk_io.read_bytes, 30);
    assert_eq!(m.disk_io.write_bytes, 3);
}

#[test]
fn thermals_concatenate_zones_then_components() {
    let mut c = Collector::new();
    let full = FullReading {
        processes: Vec::new(),
        zones: vec![
            ThermalZoneReading { label: "cpu-zone".to_string(), temp_raw: b"45231\n".to_vec() },
            ThermalZoneReading { label: "broken".to_string(), temp_raw: b"oops".to_vec() },
            ThermalZoneReading { label: "gpu-zone".to_string(), temp_raw: b" 51000 ".to_vec() },
        ],
        components: vec![
            ComponentReading {
                label: "hwmon-a".to_string(),
                temp_millic: Some(60500),
                critical_millic: Some(95000),
            },
            ComponentReading {
                label: "hwmon-none".to_string(),
                temp_millic: None,
                critical_millic: Some(90000),
            },
        ],
    };
    let m = c.collect(cheap(Vec::new()), Some(full));
    let labels: Vec<&str> = m.thermals.iter().map(|t| t.label.as_str()).collect();
    assert_eq!(labels, vec!["cpu-zone", "gpu-zone", "hwmon-a"]);
    assert_eq!(m.thermals[0].temp_millic, 45231);
    assert_eq!(m.thermals[0].critical_millic, None);
    assert_eq!(m.thermals[1].temp_millic, 51000);
    assert_eq!(m.thermals[2].temp_millic, 60500);
    assert_eq!(m.thermals[2].critical_millic, Some(95000));
}

#[test]
fn cheap_fields_fresh_every_call() {
    let mut c = Collector::new();
    c.process_every = 20;
    let _ = c.collect(cheap(Vec::new()), Some(full_with(Vec::new())));
    let m = c.collect(
        CheapReading {
            cpu: vec![
                CpuCoreUsage { core_id: 0, usage_tenths: 123 },
                CpuCoreUsage { core_id: 1, usage_tenths: 456 },
            ],
            ram: RamSwapUsage { used: 10, total: 20 },
            swap: RamSwapUsage { used: 1, total: 2 },
            interfaces: Vec::new(),
        },
        None,
    );
    assert_eq!(m.cpu.len(), 2);
    assert_eq!(m.cpu[1].usage_tenths, 456);
    assert_eq!(m.ram.used, 10);
    assert_eq!(m.swap.total, 2);
}

#[test]
fn tick_gate_uses_value_before_increment() {
    let mut c = Collector::new();
    assert!(c.is_full_due());
    let _ = c.collect(cheap(Vec::new()), Some(full_with(Vec::new())));
    // tick is now 1, process_every 4: next three calls are cheap-only.
    assert!(!c.is_full_due());
}
