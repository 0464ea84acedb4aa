//! Plain data carried through the sampling pipeline.
//!
//! Fractional readings are held as scaled integers: CPU usage in tenths of a
//! percent, temperatures in millidegrees Celsius. The boundary code that talks
//! to the OS converts to and from these units.

use vstd::prelude::*;

verus! {

/// Usage of one CPU core, in tenths of a percent (so 1000 = 100.0%).
#[derive(Clone, Copy, PartialEq, Eq, Structural, Debug)]
pub struct CpuCoreUsage {
    pub core_id: usize,
    pub usage_tenths: u32,
}

/// A used/total byte pair, for RAM or swap.
#[derive(Clone, Copy, PartialEq, Eq, Structural, Debug)]
pub struct RamSwapUsage {
    pub used: u64,
    pub total: u64,
}

/// Cumulative network counters summed across all interfaces.
#[derive(Clone, Copy, PartialEq, Eq, Structural, Debug)]
pub struct NetworkStats {
    pub received_bytes: u64,
    pub transmitted_bytes: u64,
}

/// Cumulative disk I/O counters summed across all processes.
#[derive(Clone, Copy, PartialEq, Eq, Structural, Debug)]
pub struct DiskIOStats {
    pub read_bytes: u64,
    pub write_bytes: u64,
}

/// One row of the process table. CPU usage is in tenths of a percent.
#[derive(Debug)]
pub struct ProcessInfo {
    pub pid: i32,
    pub name: String,
    pub cpu_tenths: u32,
    pub mem_bytes: u64,
}

/// Mathematical image of a [`ProcessInfo`].
pub struct ProcessInfoV {
    pub pid: i32,
    pub name: Seq<char>,
    pub cpu_tenths: u32,
    pub mem_bytes: u64,
}

impl View for ProcessInfo {
    type V = ProcessInfoV;

    open spec fn view(&self) -> ProcessInfoV {
        ProcessInfoV {
            pid: self.pid,
            name: self.name@,
            cpu_tenths: self.cpu_tenths,
            mem_bytes: self.mem_bytes,
        }
    }
}

impl DeepView for ProcessInfo {
    type V = ProcessInfoV;

    open spec fn deep_view(&self) -> ProcessInfoV {
        self.view()
    }
}

impl Clone for ProcessInfo {
    fn clone(&self) -> (r: Self)
        ensures
            r@ == self@,
    {
        ProcessInfo {
            pid: self.pid,
            name: self.name.clone(),
            cpu_tenths: self.cpu_tenths,
            mem_bytes: self.mem_bytes,
        }
    }
}

/// One thermal sensor reading, in millidegrees Celsius (45231 = 45.231 C).
#[derive(Debug)]
pub struct ThermalInfo {
    pub label: String,
    pub temp_millic: i64,
    pub critical_millic: Option<i64>,
}

/// Mathematical image of a [`ThermalInfo`].
pub struct ThermalInfoV {
    pub label: Seq<char>,
    pub temp_millic: i64,
    pub critical_millic: Option<i64>,
}

impl View for ThermalInfo {
    type V = ThermalInfoV;

    open spec fn view(&self) -> ThermalInfoV {
        ThermalInfoV {
            label: self.label@,
            temp_millic: self.temp_millic,
            critical_millic: self.critical_millic,
        }
    }
}

impl DeepView for ThermalInfo {
    type V = ThermalInfoV;

    open spec fn deep_view(&self) -> ThermalInfoV {
        self.view()
    }
}

impl Clone for ThermalInfo {
    fn clone(&self) -> (r: Self)
        ensures
            r@ == self@,
    {
        ThermalInfo {
            label: self.label.clone(),
            temp_millic: self.temp_millic,
            critical_millic: self.critical_millic,
        }
    }
}

/// Which column the process table is ordered by.
#[derive(Clone, Copy, PartialEq, Eq, Structural, Debug)]
pub enum SortOrder {
    Cpu,
    Mem,
}

/// One self-consistent snapshot of the sampled host state.
///
/// Fields on the cheap path (`cpu`, `ram`, `swap`, `network`) are fresh on
/// every collection; the expensive fields (`processes`, `thermals`,
/// `disk_io`) carry the values of the most recent full refresh.
#[derive(Debug)]
pub struct SystemMetrics {
    pub cpu: Vec<CpuCoreUsage>,
    pub ram: RamSwapUsage,
    pub swap: RamSwapUsage,
    pub network: NetworkStats,
    pub disk_io: DiskIOStats,
    pub processes: Vec<ProcessInfo>,
    pub thermals: Vec<ThermalInfo>,
}

/// Mathematical image of a [`SystemMetrics`].
pub struct SystemMetricsV {
    pub cpu: Seq<CpuCoreUsage>,
    pub ram: RamSwapUsage,
    pub swap: RamSwapUsage,
    pub network: NetworkStats,
    pub disk_io: DiskIOStats,
    pub processes: Seq<ProcessInfoV>,
    pub thermals: Seq<ThermalInfoV>,
}

impl View for SystemMetrics {
    type V = SystemMetricsV;

    open spec fn view(&self) -> SystemMetricsV {
        SystemMetricsV {
            cpu: self.cpu@,
            ram: self.ram,
            swap: self.swap,
            network: self.network,
            disk_io: self.disk_io,
            processes: self.processes.deep_view(),
            thermals: self.thermals.deep_view(),
        }
    }
}

impl Clone for SystemMetrics {
    fn clone(&self) -> (r: Self)
        ensures
            r@ == self@,
    {
        let r = SystemMetrics {
            cpu: self.cpu.clone(),
            ram: self.ram,
            swap: self.swap,
            network: self.network,
            disk_io: self.disk_io,
            processes: clone_processes(&self.processes),
            thermals: clone_thermals(&self.thermals),
        };
        proof {
            assert(r.cpu@ =~= self.cpu@);
            assert(r@ =~= self@);
        }
        r
    }
}

/// Element-wise clone with the deep view preserved.
pub(crate) fn clone_processes(v: &Vec<ProcessInfo>) -> (r: Vec<ProcessInfo>)
    ensures
        r.deep_view() == v.deep_view(),
{
    let mut r: Vec<ProcessInfo> = Vec::new();
    let mut i: usize = 0;
    while i < v.len()
        invariant
            i <= v.len(),
            r.len() == i,
            forall|j: int| 0 <= j < i ==> r.deep_view()[j] == v.deep_view()[j],
        decreases v.len() - i,
    {
        let c = v[i].clone();
        proof {
            assert(c.deep_view() == v.deep_view()[i as int]);
        }
        r.push(c);
        i = i + 1;
    }
    proof {
        assert(r.deep_view() =~= v.deep_view());
    }
    r
}

/// Element-wise clone with the deep view preserved.
pub(crate) fn clone_thermals(v: &Vec<ThermalInfo>) -> (r: Vec<ThermalInfo>)
    ensures
        r.deep_view() == v.deep_view(),
{
    let mut r: Vec<ThermalInfo> = Vec::new();
    let mut i: usize = 0;
    while i < v.len()
        invariant
            i <= v.len(),
            r.len() == i,
            forall|j: int| 0 <= j < i ==> r.deep_view()[j] == v.deep_view()[j],
        decreases v.len() - i,
    {
        let c = v[i].clone();
        proof {
            assert(c.deep_view() == v.deep_view()[i as int]);
        }
        r.push(c);
        i = i + 1;
    }
    proof {
        assert(r.deep_view() =~= v.deep_view());
    }
    r
}

} // verus!
