//! Data behind each dashboard widget, with the little arithmetic the
//! drawing layer needs: the CPU average, the RAM gauge percentage, the
//! sorted process table and the status-bar scan label. Drawing itself is
//! the surrounding program's job; it reads these values and paints them.

use vstd::prelude::*;
use vstd::string::StringExecFns;

use crate::numfmt::{dec_digit, dec_str, digit_str, u64_to_dec};
use crate::psort::{sorted_desc, sorted_processes};
use crate::types::{CpuCoreUsage, ProcessInfo, RamSwapUsage, SortOrder, ThermalInfo};

verus! {

/// Sum of the per-core usages, in tenths of a percent.
pub open spec fn sum_usage_tenths(s: Seq<CpuCoreUsage>) -> int
    decreases s.len(),
{
    if s.len() == 0 {
        0
    } else {
        sum_usage_tenths(s.drop_last()) + s.last().usage_tenths
    }
}

proof fn lemma_sum_usage_bounds(s: Seq<CpuCoreUsage>)
    ensures
        0 <= sum_usage_tenths(s) <= s.len() * (u32::MAX as int),
    decreases s.len(),
{
    if s.len() > 0 {
        lemma_sum_usage_bounds(s.drop_last());
        assert(s.len() * (u32::MAX as int) == (s.len() - 1) * (u32::MAX as int) + (
        u32::MAX as int)) by (nonlinear_arith);
    }
}

/// Compact CPU widget data: per-core usages, in tenths of a percent.
pub struct CpuWidget {
    pub data: Vec<CpuCoreUsage>,
}

impl CpuWidget {
    pub fn new(data: Vec<CpuCoreUsage>) -> (r: Self)
        ensures
            r.data == data,
    {
        CpuWidget { data }
    }

    /// The average usage across all cores, in tenths of a percent,
    /// truncated; zero when there are no cores.
    pub fn average_usage_tenths(&self) -> (a: u32)
        ensures
            self.data@.len() == 0 ==> a == 0,
            self.data@.len() > 0 ==> a == sum_usage_tenths(self.data@) / self.data@.len() as int,
    {
        if self.data.len() == 0 {
            return 0;
        }
        let mut acc: u128 = 0;
        let mut i: usize = 0;
        proof {
            assert(self.data@.take(0) =~= Seq::<CpuCoreUsage>::empty());
        }
        while i < self.data.len()
            invariant
                i <= self.data@.len(),
                acc == sum_usage_tenths(self.data@.take(i as int)),
                acc <= (i as int) * (u32::MAX as int),
            decreases self.data@.len() - i,
        {
            proof {
                assert(self.data@.take(i + 1).drop_last() =~= self.data@.take(i as int));
                lemma_sum_usage_bounds(self.data@.take(i as int));
                assert((i + 1) * (u32::MAX as int) == (i as int) * (u32::MAX as int) + (
                u32::MAX as int)) by (nonlinear_arith);
            }
            acc = acc + (self.data[i].usage_tenths as u128);
            i = i + 1;
        }
        proof {
            assert(self.data@.take(i as int) =~= self.data@);
        }
        let n: u128 = self.data.len() as u128;
        let avg: u128 = acc / n;
        proof {
            assert(avg <= u32::MAX) by (nonlinear_arith)
                requires
                    avg == acc / n,
                    acc <= n * (u32::MAX as int),
                    n >= 1,
            ;
        }
        avg as u32
    }
}

/// RAM gauge percentage: used over total, truncated, saturating at the
/// display range; zero when the total is unknown.
pub open spec fn ram_percent_spec(d: RamSwapUsage) -> int {
    if d.total == 0 {
        0
    } else if d.used * 100 / (d.total as int) > u16::MAX {
        u16::MAX as int
    } else {
        d.used * 100 / (d.total as int)
    }
}

/// RAM usage gauge data.
pub struct RamGaugeWidget {
    pub data: RamSwapUsage,
}

impl RamGaugeWidget {
    pub fn new(data: RamSwapUsage) -> (r: Self)
        ensures
            r.data == data,
    {
        RamGaugeWidget { data }
    }

    /// The gauge percentage.
    pub fn percent(&self) -> (p: u16)
        ensures
            p == ram_percent_spec(self.data),
    {
        if self.data.total == 0 {
            return 0;
        }
        let scaled: u128 = (self.data.used as u128) * 100;
        let ratio: u128 = scaled / (self.data.total as u128);
        if ratio > 65535 {
            65535
        } else {
            ratio as u16
        }
    }
}

/// Thermal sensor table data.
pub struct ThermalWidget {
    pub data: Vec<ThermalInfo>,
}

impl ThermalWidget {
    pub fn new(data: Vec<ThermalInfo>) -> (r: Self)
        ensures
            r.data == data,
    {
        ThermalWidget { data }
    }
}

/// Network sparkline data: rx and tx history, oldest first.
pub struct NetworkSparklineWidget {
    pub rx: Vec<u64>,
    pub tx: Vec<u64>,
}

impl NetworkSparklineWidget {
    pub fn new(rx: Vec<u64>, tx: Vec<u64>) -> (r: Self)
        ensures
            r.rx == rx,
            r.tx == tx,
    {
        NetworkSparklineWidget { rx, tx }
    }
}

/// Disk I/O sparkline data: read and write history, oldest first.
pub struct DiskIOSparkWidget {
    pub read: Vec<u64>,
    pub write: Vec<u64>,
}

impl DiskIOSparkWidget {
    pub fn new(read: Vec<u64>, write: Vec<u64>) -> (r: Self)
        ensures
            r.read == read,
            r.write == write,
    {
        DiskIOSparkWidget { read, write }
    }
}

/// Process table data with its current sort order.
pub struct ProcessTableWidget {
    pub data: Vec<ProcessInfo>,
    pub sort_order: SortOrder,
}

impl ProcessTableWidget {
    pub fn new(data: Vec<ProcessInfo>, sort_order: SortOrder) -> (r: Self)
        ensures
            r.data == data,
            r.sort_order == sort_order,
    {
        ProcessTableWidget { data, sort_order }
    }

    /// The rows in display order: descending by the selected column, ties
    /// in unspecified relative order.
    pub fn sorted(&self) -> (r: Vec<ProcessInfo>)
        ensures
            r.deep_view().to_multiset() == self.data.deep_view().to_multiset(),
            r.deep_view().len() == self.data.deep_view().len(),
            sorted_desc(r.deep_view(), self.sort_order),
    {
        sorted_processes(&self.data, self.sort_order)
    }
}

/// The status-bar label for the process-scan interval: whole milliseconds
/// below one second, otherwise seconds with one (truncated) decimal place.
pub open spec fn scan_label_spec(process_every: nat, tick_ms: nat) -> Seq<char> {
    let ms = process_every * tick_ms;
    if ms >= 1000 {
        dec_str(ms / 1000) + seq!['.', dec_digit((ms % 1000) / 100), 's']
    } else {
        dec_str(ms) + seq!['m', 's']
    }
}

/// Status bar data: scan rate, tick length and the transient paths.
pub struct StatusBarWidget {
    pub process_every: u32,
    pub tick_ms: u32,
    pub snap_path: Option<String>,
    pub log_path: Option<String>,
}

impl StatusBarWidget {
    pub fn new(
        process_every: u32,
        tick_ms: u32,
        snap_path: Option<String>,
        log_path: Option<String>,
    ) -> (r: Self)
        ensures
            r.process_every == process_every,
            r.tick_ms == tick_ms,
            r.snap_path == snap_path,
            r.log_path == log_path,
    {
        StatusBarWidget { process_every, tick_ms, snap_path, log_path }
    }

    /// The scan-interval label.
    pub fn scan_label(&self) -> (s: String)
        ensures
            s@ == scan_label_spec(self.process_every as nat, self.tick_ms as nat),
    {
        proof {
            reveal_strlit(".");
            reveal_strlit("s");
            reveal_strlit("ms");
            assert((self.process_every as int) * (self.tick_ms as int) < 0x10000000000000000)
                by (nonlinear_arith)
                requires
                    self.process_every <= u32::MAX,
                    self.tick_ms <= u32::MAX,
            ;
        }
        let ms: u64 = (self.process_every as u64) * (self.tick_ms as u64);
        if ms >= 1000 {
            let mut s = u64_to_dec(ms / 1000);
            s.append(".");
            let tenth: u64 = (ms % 1000) / 100;
            s.append(digit_str(tenth));
            s.append("s");
            proof {
                assert(s@ =~= scan_label_spec(self.process_every as nat, self.tick_ms as nat));
            }
            s
        } else {
            let mut s = u64_to_dec(ms);
            s.append("ms");
            proof {
                assert(s@ =~= scan_label_spec(self.process_every as nat, self.tick_ms as nat));
            }
            s
        }
    }
}

} // verus!
