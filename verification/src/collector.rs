//! Tiered-cadence metrics collection. Every call refreshes the cheap
//! fields (per-core CPU, memory, network totals); the expensive fields
//! (process table, thermal sensors, disk I/O totals) are recomputed only on
//! calls where the internal tick counter is a multiple of the current scan
//! rate, and the cached values of the last full refresh are returned
//! otherwise.
//!
//! The raw readings are handed in as plain values by whatever talks to the
//! OS; a full refresh whose readings are missing keeps the caches, in line
//! with the best-effort policy of retaining the previous value on a failed
//! read.

use vstd::prelude::*;

use crate::psort::{sorted_by_cpu_desc, sorted_processes};
use crate::thermal::{parse_thermal_zone, zone_thermal_spec};
use crate::types::{
    clone_processes, clone_thermals, CpuCoreUsage, DiskIOStats, NetworkStats, ProcessInfo,
    ProcessInfoV, RamSwapUsage, SortOrder, SystemMetrics, ThermalInfo, ThermalInfoV,
};

verus! {

/// One process as reported by the OS stats source, with its per-process
/// disk counters.
pub struct ProcessSample {
    pub pid: i32,
    pub name: String,
    pub cpu_tenths: u32,
    pub mem_bytes: u64,
    pub disk_read_bytes: u64,
    pub disk_written_bytes: u64,
}

/// Mathematical image of a [`ProcessSample`].
pub struct ProcessSampleV {
    pub pid: i32,
    pub name: Seq<char>,
    pub cpu_tenths: u32,
    pub mem_bytes: u64,
    pub disk_read_bytes: u64,
    pub disk_written_bytes: u64,
}

impl View for ProcessSample {
    type V = ProcessSampleV;

    open spec fn view(&self) -> ProcessSampleV {
        ProcessSampleV {
            pid: self.pid,
            name: self.name@,
            cpu_tenths: self.cpu_tenths,
            mem_bytes: self.mem_bytes,
            disk_read_bytes: self.disk_read_bytes,
            disk_written_bytes: self.disk_written_bytes,
        }
    }
}

impl DeepView for ProcessSample {
    type V = ProcessSampleV;

    open spec fn deep_view(&self) -> ProcessSampleV {
        self.view()
    }
}

/// One sysfs thermal zone: its `type` label and the raw bytes of its `temp`
/// file.
pub struct ThermalZoneReading {
    pub label: String,
    pub temp_raw: Vec<u8>,
}

/// Mathematical image of a [`ThermalZoneReading`].
pub struct ThermalZoneReadingV {
    pub label: Seq<char>,
    pub temp_raw: Seq<u8>,
}

impl View for ThermalZoneReading {
    type V = ThermalZoneReadingV;

    open spec fn view(&self) -> ThermalZoneReadingV {
        ThermalZoneReadingV { label: self.label@, temp_raw: self.temp_raw@ }
    }
}

impl DeepView for ThermalZoneReading {
    type V = ThermalZoneReadingV;

    open spec fn deep_view(&self) -> ThermalZoneReadingV {
        self.view()
    }
}

/// One hardware-monitor component: label, temperature if it reports one,
/// and optional critical threshold, in millidegrees Celsius.
pub struct ComponentReading {
    pub label: String,
    pub temp_millic: Option<i64>,
    pub critical_millic: Option<i64>,
}

/// Mathematical image of a [`ComponentReading`].
pub struct ComponentReadingV {
    pub label: Seq<char>,
    pub temp_millic: Option<i64>,
    pub critical_millic: Option<i64>,
}

impl View for ComponentReading {
    type V = ComponentReadingV;

    open spec fn view(&self) -> ComponentReadingV {
        ComponentReadingV {
            label: self.label@,
            temp_millic: self.temp_millic,
            critical_millic: self.critical_millic,
        }
    }
}

impl DeepView for ComponentReading {
    type V = ComponentReadingV;

    open spec fn deep_view(&self) -> ComponentReadingV {
        self.view()
    }
}

/// The readings refreshed on every tick.
pub struct CheapReading {
    pub cpu: Vec<CpuCoreUsage>,
    pub ram: RamSwapUsage,
    pub swap: RamSwapUsage,
    /// Cumulative counters of each network interface.
    pub interfaces: Vec<NetworkStats>,
}

/// The readings gathered only for a full (expensive) refresh.
pub struct FullReading {
    pub processes: Vec<ProcessSample>,
    pub zones: Vec<ThermalZoneReading>,
    pub components: Vec<ComponentReading>,
}

/// Sum of a sequence of counters, as an unbounded integer.
pub open spec fn sum_u64s(s: Seq<u64>) -> int
    decreases s.len(),
{
    if s.len() == 0 {
        0
    } else {
        sum_u64s(s.drop_last()) + s.last()
    }
}

proof fn lemma_sum_u64s_nonneg(s: Seq<u64>)
    ensures
        sum_u64s(s) >= 0,
    decreases s.len(),
{
    if s.len() > 0 {
        lemma_sum_u64s_nonneg(s.drop_last());
    }
}

/// A sum clamped into the counter range, the value a saturating fold
/// computes.
pub open spec fn clamp64(v: int) -> int {
    if v > u64::MAX {
        u64::MAX as int
    } else {
        v
    }
}

pub open spec fn sum_rx(ifs: Seq<NetworkStats>) -> int {
    sum_u64s(ifs.map_values(|n: NetworkStats| n.received_bytes))
}

pub open spec fn sum_tx(ifs: Seq<NetworkStats>) -> int {
    sum_u64s(ifs.map_values(|n: NetworkStats| n.transmitted_bytes))
}

pub open spec fn sum_disk_read(ps: Seq<ProcessSampleV>) -> int {
    sum_u64s(ps.map_values(|p: ProcessSampleV| p.disk_read_bytes))
}

pub open spec fn sum_disk_write(ps: Seq<ProcessSampleV>) -> int {
    sum_u64s(ps.map_values(|p: ProcessSampleV| p.disk_written_bytes))
}

/// The process-table row derived from one sample.
pub open spec fn proc_info_of(s: ProcessSampleV) -> ProcessInfoV {
    ProcessInfoV { pid: s.pid, name: s.name, cpu_tenths: s.cpu_tenths, mem_bytes: s.mem_bytes }
}

pub open spec fn proc_infos_of(s: Seq<ProcessSampleV>) -> Seq<ProcessInfoV> {
    s.map_values(|p: ProcessSampleV| proc_info_of(p))
}

/// Thermal entries contributed by the sysfs zones, in order, zones that do
/// not parse skipped.
pub open spec fn zone_thermals(zs: Seq<ThermalZoneReadingV>) -> Seq<ThermalInfoV>
    decreases zs.len(),
{
    if zs.len() == 0 {
        Seq::empty()
    } else {
        zone_thermals(zs.drop_last()) + match zone_thermal_spec(
            zs.last().label,
            zs.last().temp_raw,
        ) {
            Some(t) => seq![t],
            None => Seq::empty(),
        }
    }
}

/// The thermal entry contributed by one hardware-monitor component, if it
/// reports a temperature.
pub open spec fn component_thermal_spec(c: ComponentReadingV) -> Option<ThermalInfoV> {
    match c.temp_millic {
        Some(t) => Some(
            (ThermalInfoV { label: c.label, temp_millic: t, critical_millic: c.critical_millic }),
        ),
        None => None,
    }
}

/// Thermal entries contributed by the components, in order, components
/// without a temperature skipped.
pub open spec fn component_thermals(cs: Seq<ComponentReadingV>) -> Seq<ThermalInfoV>
    decreases cs.len(),
{
    if cs.len() == 0 {
        Seq::empty()
    } else {
        component_thermals(cs.drop_last()) + match component_thermal_spec(cs.last()) {
            Some(t) => seq![t],
            None => Seq::empty(),
        }
    }
}

/// Both provenances concatenated, sysfs zones first, without
/// de-duplication.
pub open spec fn thermals_of(fd: FullReading) -> Seq<ThermalInfoV> {
    zone_thermals(fd.zones.deep_view()) + component_thermals(fd.components.deep_view())
}

fn sat_add(a: u64, b: u64) -> (r: u64)
    ensures
        r == clamp64(a + b),
{
    if a > u64::MAX - b {
        u64::MAX
    } else {
        a + b
    }
}

/// Sum the per-interface counters into host totals, saturating at the
/// counter range.
fn sum_network(ifs: &Vec<NetworkStats>) -> (n: NetworkStats)
    ensures
        n.received_bytes == clamp64(sum_rx(ifs@)),
        n.transmitted_bytes == clamp64(sum_tx(ifs@)),
{
    let ghost rxs = ifs@.map_values(|x: NetworkStats| x.received_bytes);
    let ghost txs = ifs@.map_values(|x: NetworkStats| x.transmitted_bytes);
    let mut rx: u64 = 0;
    let mut tx: u64 = 0;
    let mut i: usize = 0;
    proof {
        assert(rxs.take(0) =~= Seq::<u64>::empty());
        assert(txs.take(0) =~= Seq::<u64>::empty());
    }
    while i < ifs.len()
        invariant
            i <= ifs@.len(),
            rxs == ifs@.map_values(|x: NetworkStats| x.received_bytes),
            txs == ifs@.map_values(|x: NetworkStats| x.transmitted_bytes),
            rx == clamp64(sum_u64s(rxs.take(i as int))),
            tx == clamp64(sum_u64s(txs.take(i as int))),
        decreases ifs@.len() - i,
    {
        proof {
            assert(rxs.take(i + 1).drop_last() =~= rxs.take(i as int));
            assert(txs.take(i + 1).drop_last() =~= txs.take(i as int));
            lemma_sum_u64s_nonneg(rxs.take(i as int));
            lemma_sum_u64s_nonneg(txs.take(i as int));
        }
        rx = sat_add(rx, ifs[i].received_bytes);
        tx = sat_add(tx, ifs[i].transmitted_bytes);
        i = i + 1;
    }
    proof {
        assert(rxs.take(i as int) =~= rxs);
        assert(txs.take(i as int) =~= txs);
    }
    NetworkStats { received_bytes: rx, transmitted_bytes: tx }
}

/// Sum the per-process disk counters into host totals, saturating at the
/// counter range.
fn sum_process_disk(ps: &Vec<ProcessSample>) -> (d: DiskIOStats)
    ensures
        d.read_bytes == clamp64(sum_disk_read(ps.deep_view())),
        d.write_bytes == clamp64(sum_disk_write(ps.deep_view())),
{
    let ghost rds = ps.deep_view().map_values(|p: ProcessSampleV| p.disk_read_bytes);
    let ghost wrs = ps.deep_view().map_values(|p: ProcessSampleV| p.disk_written_bytes);
    let mut rd: u64 = 0;
    let mut wr: u64 = 0;
    let mut i: usize = 0;
    proof {
        assert(rds.take(0) =~= Seq::<u64>::empty());
        assert(wrs.take(0) =~= Seq::<u64>::empty());
    }
    while i < ps.len()
        invariant
            i <= ps@.len(),
            rds == ps.deep_view().map_values(|p: ProcessSampleV| p.disk_read_bytes),
            wrs == ps.deep_view().map_values(|p: ProcessSampleV| p.disk_written_bytes),
            rd == clamp64(sum_u64s(rds.take(i as int))),
            wr == clamp64(sum_u64s(wrs.take(i as int))),
        decreases ps@.len() - i,
    {
        proof {
            assert(rds.take(i + 1).drop_last() =~= rds.take(i as int));
            assert(wrs.take(i + 1).drop_last() =~= wrs.take(i as int));
            lemma_sum_u64s_nonneg(rds.take(i as int));
            lemma_sum_u64s_nonneg(wrs.take(i as int));
            assert(ps.deep_view()[i as int] == ps@[i as int]@);
        }
        rd = sat_add(rd, ps[i].disk_read_bytes);
        wr = sat_add(wr, ps[i].disk_written_bytes);
        i = i + 1;
    }
    proof {
        assert(rds.take(i as int) =~= rds);
        assert(wrs.take(i as int) =~= wrs);
    }
    DiskIOStats { read_bytes: rd, write_bytes: wr }
}

/// The process-table rows of the samples, in sample order.
fn build_processes(ps: &Vec<ProcessSample>) -> (v: Vec<ProcessInfo>)
    ensures
        v.deep_view() == proc_infos_of(ps.deep_view()),
{
    let mut v: Vec<ProcessInfo> = Vec::new();
    let mut i: usize = 0;
    while i < ps.len()
        invariant
            i <= ps@.len(),
            v.len() == i,
            forall|j: int| 0 <= j < i ==> v@[j]@ == proc_info_of(ps@[j]@),
        decreases ps@.len() - i,
    {
        let p = ProcessInfo {
            pid: ps[i].pid,
            name: ps[i].name.clone(),
            cpu_tenths: ps[i].cpu_tenths,
            mem_bytes: ps[i].mem_bytes,
        };
        v.push(p);
        i = i + 1;
    }
    proof {
        assert forall|j: int| 0 <= j < v@.len() implies v.deep_view()[j] == proc_infos_of(
            ps.deep_view(),
        )[j] by {
            assert(v.deep_view()[j] == v@[j]@);
            assert(ps.deep_view()[j] == ps@[j]@);
        }
        assert(v.deep_view() =~= proc_infos_of(ps.deep_view()));
    }
    v
}

/// The concatenated thermal list: parsed sysfs zones first, then the
/// components that report a temperature.
fn build_thermals(zones: &Vec<ThermalZoneReading>, comps: &Vec<ComponentReading>) -> (v: Vec<
    ThermalInfo,
>)
    ensures
        v.deep_view() == zone_thermals(zones.deep_view()) + component_thermals(comps.deep_view()),
{
    let mut v: Vec<ThermalInfo> = Vec::new();
    let mut i: usize = 0;
    proof {
        assert(zones.deep_view().take(0) =~= Seq::<ThermalZoneReadingV>::empty());
    }
    while i < zones.len()
        invariant
            i <= zones@.len(),
            v.deep_view() == zone_thermals(zones.deep_view().take(i as int)),
        decreases zones@.len() - i,
    {
        let ghost pre = v.deep_view();
        proof {
            assert(zones.deep_view().take(i + 1).drop_last() =~= zones.deep_view().take(i as int));
            assert(zones.deep_view()[i as int] == zones@[i as int]@);
        }
        match parse_thermal_zone(zones[i].label.clone(), zones[i].temp_raw.as_slice()) {
            Some(t) => {
                v.push(t);
                proof {
                    assert(v.deep_view() =~= zone_thermals(zones.deep_view().take(i + 1)));
                }
            },
            None => {
                proof {
                    assert(v.deep_view() =~= zone_thermals(zones.deep_view().take(i + 1)));
                }
            },
        }
        i = i + 1;
    }
    proof {
        assert(zones.deep_view().take(zones@.len() as int) =~= zones.deep_view());
        assert(comps.deep_view().take(0) =~= Seq::<ComponentReadingV>::empty());
        assert(v.deep_view() =~= zone_thermals(zones.deep_view()) + component_thermals(
            comps.deep_view().take(0),
        ));
    }
    let mut i: usize = 0;
    while i < comps.len()
        invariant
            i <= comps@.len(),
            v.deep_view() == zone_thermals(zones.deep_view()) + component_thermals(
                comps.deep_view().take(i as int),
            ),
        decreases comps@.len() - i,
    {
        let ghost pre = v.deep_view();
        proof {
            assert(comps.deep_view().take(i + 1).drop_last() =~= comps.deep_view().take(i as int));
            assert(comps.deep_view().take(i + 1).last() == comps.deep_view()[i as int]);
            assert(comps.deep_view()[i as int] == comps@[i as int]@);
        }
        match comps[i].temp_millic {
            Some(t) => {
                let ti = ThermalInfo {
                    label: comps[i].label.clone(),
                    temp_millic: t,
                    critical_millic: comps[i].critical_millic,
                };
                proof {
                    assert(component_thermal_spec(comps.deep_view()[i as int]) == Some(ti@));
                }
                v.push(ti);
                proof {
                    assert(v.deep_view() =~= pre.push(ti@));
                    assert(component_thermals(comps.deep_view().take(i + 1))
                        == component_thermals(comps.deep_view().take(i as int)) + seq![ti@]);
                    assert(pre.push(ti@) =~= zone_thermals(zones.deep_view())
                        + component_thermals(comps.deep_view().take(i + 1)));
                }
            },
            None => {
                proof {
                    assert(component_thermal_spec(comps.deep_view()[i as int]) is None);
                    assert(component_thermals(comps.deep_view().take(i + 1))
                        == component_thermals(comps.deep_view().take(i as int))
                        + Seq::<ThermalInfoV>::empty());
                    assert(v.deep_view() =~= zone_thermals(zones.deep_view())
                        + component_thermals(comps.deep_view().take(i + 1)));
                }
            },
        }
        i = i + 1;
    }
    proof {
        assert(comps.deep_view().take(comps@.len() as int) =~= comps.deep_view());
    }
    v
}

/// The tick counter after one call, wrapping at the counter range.
pub open spec fn wrap_inc(t: u32) -> u32 {
    if t == u32::MAX {
        0
    } else {
        (t + 1) as u32
    }
}

/// Owns the tick counter, the scan rate and the caches of the last full
/// refresh.
pub struct Collector {
    pub tick: u32,
    /// Ticks between expensive refreshes; one of the scan-rate presets when
    /// driven through the engine.
    pub process_every: u32,
    pub last_disk_io: DiskIOStats,
    pub last_processes: Vec<ProcessInfo>,
    pub last_thermals: Vec<ThermalInfo>,
}

impl Collector {
    pub open spec fn wf(self) -> bool {
        self.process_every >= 1
    }

    /// A call made at this state performs a full refresh.
    pub open spec fn full_due(self) -> bool {
        self.tick % self.process_every == 0
    }

    /// Whether the next call to [`Collector::collect`] performs a full
    /// refresh, so the caller knows to gather the expensive readings.
    pub fn is_full_due(&self) -> (r: bool)
        requires
            self.wf(),
        ensures
            r == self.full_due(),
    {
        self.tick % self.process_every == 0
    }

    /// Everything [`Collector::collect`] promises, relating the state
    /// before and after one call, the readings handed in, and the returned
    /// snapshot.
    pub open spec fn collect_post(
        pre: Collector,
        post: Collector,
        cheap: CheapReading,
        full_data: Option<FullReading>,
        m: SystemMetrics,
    ) -> bool {
        &&& post.process_every == pre.process_every
        &&& post.tick == wrap_inc(pre.tick)
        &&& m@.cpu == cheap.cpu@
        &&& m@.ram == cheap.ram
        &&& m@.swap == cheap.swap
        &&& m@.network.received_bytes == clamp64(sum_rx(cheap.interfaces@))
        &&& m@.network.transmitted_bytes == clamp64(sum_tx(cheap.interfaces@))
        &&& match full_data {
            Some(fd) => {
                if pre.full_due() {
                    &&& m@.disk_io.read_bytes == clamp64(sum_disk_read(fd.processes.deep_view()))
                    &&& m@.disk_io.write_bytes == clamp64(sum_disk_write(fd.processes.deep_view()))
                    &&& sorted_by_cpu_desc(m@.processes)
                    &&& m@.processes.to_multiset() == proc_infos_of(
                        fd.processes.deep_view(),
                    ).to_multiset()
                    &&& m@.thermals == thermals_of(fd)
                } else {
                    Self::kept_caches(pre, m)
                }
            },
            None => Self::kept_caches(pre, m),
        }
        &&& post.last_disk_io == m.disk_io
        &&& post.last_processes.deep_view() == m@.processes
        &&& post.last_thermals.deep_view() == m@.thermals
    }

    /// The expensive fields of `m` are exactly the cached ones.
    pub open spec fn kept_caches(pre: Collector, m: SystemMetrics) -> bool {
        &&& m.disk_io == pre.last_disk_io
        &&& m@.processes == pre.last_processes.deep_view()
        &&& m@.thermals == pre.last_thermals.deep_view()
    }

    /// A fresh collector: tick zero, the default scan rate of one full
    /// refresh every fourth tick, and empty caches.
    pub fn new() -> (r: Self)
        ensures
            r.wf(),
            r.tick == 0,
            r.process_every == 4,
            r.last_disk_io == (DiskIOStats { read_bytes: 0, write_bytes: 0 }),
            r.last_processes.deep_view() == Seq::<ProcessInfoV>::empty(),
            r.last_thermals.deep_view() == Seq::<ThermalInfoV>::empty(),
    {
        let r = Collector {
            tick: 0,
            process_every: 4,
            last_disk_io: DiskIOStats { read_bytes: 0, write_bytes: 0 },
            last_processes: Vec::new(),
            last_thermals: Vec::new(),
        };
        proof {
            assert(r.last_processes.deep_view() =~= Seq::<ProcessInfoV>::empty());
            assert(r.last_thermals.deep_view() =~= Seq::<ThermalInfoV>::empty());
        }
        r
    }

    /// One collection cycle. The cheap readings land in the snapshot as
    /// given (network counters summed); the expensive readings are folded
    /// in, sorted and cached exactly when a full refresh is due and the
    /// readings are present, and the previous caches are returned
    /// otherwise.
    pub fn collect(&mut self, cheap: CheapReading, full_data: Option<FullReading>) -> (m:
        SystemMetrics)
        requires
            old(self).wf(),
        ensures
            final(self).wf(),
            Self::collect_post(*old(self), *final(self), cheap, full_data, m),
    {
        let full: bool = self.tick % self.process_every == 0;
        self.tick = if self.tick == u32::MAX {
            0
        } else {
            self.tick + 1
        };
        let network = sum_network(&cheap.interfaces);

        let fresh: Option<FullReading> = if full {
            full_data
        } else {
            None
        };
        let (disk_io, processes, thermals) = match fresh {
            Some(fd) => {
                let d = sum_process_disk(&fd.processes);
                let rows = build_processes(&fd.processes);
                let sorted = sorted_processes(&rows, SortOrder::Cpu);
                let th = build_thermals(&fd.zones, &fd.components);
                self.last_disk_io = d;
                self.last_processes = clone_processes(&sorted);
                self.last_thermals = clone_thermals(&th);
                (d, sorted, th)
            },
            None => {
                let d = self.last_disk_io;
                let p = clone_processes(&self.last_processes);
                let t = clone_thermals(&self.last_thermals);
                (d, p, t)
            },
        };
        SystemMetrics {
            cpu: cheap.cpu,
            ram: cheap.ram,
            swap: cheap.swap,
            network,
            disk_io,
            processes,
            thermals,
        }
    }
}

} // verus!
