//! The interactive state engine: one state machine over one event at a
//! time. A tick collects metrics, feeds the history, runs the snapshot-path
//! countdown and yields the rows to append while continuous logging is
//! active; a key press changes the sort order, steps the scan rate, or asks
//! the surrounding program to perform a snapshot or toggle the log file.
//!
//! File creation and writing stay outside: the engine hands out the path
//! and the exact lines, and records a snapshot or an opened log only when
//! told the file was actually created, so a failed write leaves the state
//! untouched.

use vstd::prelude::*;

use crate::clock::{now_compact, now_iso, now_stamps};
use crate::collector::{CheapReading, Collector, FullReading};
use crate::csvfmt::{
    csv_header, csv_header_spec, csv_rows, csv_rows_spec, log_path, log_path_spec, snap_path,
    snap_path_spec,
};
use crate::history::{window_push, SparklineHistory};
use crate::types::{
    DiskIOStats, NetworkStats, ProcessInfoV, RamSwapUsage, SortOrder, SystemMetrics,
};

verus! {

/// The fixed ascending presets for the scan rate: ticks between full
/// refreshes.
pub open spec fn is_scan_preset(v: u32) -> bool {
    v == 1 || v == 2 || v == 4 || v == 8 || v == 20
}

/// The largest preset strictly below `v`, or `v` itself when there is none.
pub open spec fn step_faster(v: u32) -> u32 {
    if v > 20 {
        20
    } else if v > 8 {
        8
    } else if v > 4 {
        4
    } else if v > 2 {
        2
    } else if v > 1 {
        1
    } else {
        v
    }
}

/// The smallest preset strictly above `v`, or `v` itself when there is none.
pub open spec fn step_slower(v: u32) -> u32 {
    if v < 1 {
        1
    } else if v < 2 {
        2
    } else if v < 4 {
        4
    } else if v < 8 {
        8
    } else if v < 20 {
        20
    } else {
        v
    }
}

/// Scan-rate navigation is confined to the presets: from any preset,
/// stepping faster strictly decreases the rate except at the fastest
/// preset, stepping slower strictly increases it except at the slowest,
/// and from any preset but the fastest a faster step followed by a slower
/// step returns to the original preset. (From the fastest preset the faster
/// step is a no-op, so the following slower step moves up instead.)
pub proof fn lemma_scan_round_trip(p: u32)
    requires
        is_scan_preset(p),
    ensures
        is_scan_preset(step_faster(p)),
        is_scan_preset(step_slower(p)),
        p > 1 ==> step_faster(p) < p,
        p == 1 ==> step_faster(p) == p,
        p < 20 ==> step_slower(p) > p,
        p == 20 ==> step_slower(p) == p,
        p > 1 ==> step_slower(step_faster(p)) == p,
{
}

fn step_faster_exec(v: u32) -> (r: u32)
    ensures
        r == step_faster(v),
{
    if v > 20 {
        20
    } else if v > 8 {
        8
    } else if v > 4 {
        4
    } else if v > 2 {
        2
    } else if v > 1 {
        1
    } else {
        v
    }
}

fn step_slower_exec(v: u32) -> (r: u32)
    ensures
        r == step_slower(v),
{
    if v < 2 {
        if v < 1 {
            1
        } else {
            2
        }
    } else if v < 4 {
        4
    } else if v < 8 {
        8
    } else if v < 20 {
        20
    } else {
        v
    }
}

/// What the surrounding program must do after one key press.
pub enum InputAction {
    /// Nothing; the press was pure state change or ignored.
    NoOp,
    /// Write `lines` (header first) to a new file at `path`; on success,
    /// report back through [`AppState::record_snapshot`].
    Snapshot { path: String, lines: Vec<String> },
    /// Create a new log file at `path`, write `header`, keep it open for
    /// appending; on success, report back through
    /// [`AppState::record_log_opened`].
    StartLog { path: String, header: String },
    /// Close the open log file; the engine has already cleared its state.
    StopLog,
}

/// The countdown step run on every tick.
pub open spec fn step_ttl(t: u32) -> u32 {
    if t > 0 {
        (t - 1) as u32
    } else {
        0
    }
}

/// The countdown after `k` ticks.
pub open spec fn ttl_after(t: u32, k: nat) -> u32
    decreases k,
{
    if k == 0 {
        t
    } else {
        step_ttl(ttl_after(t, (k - 1) as nat))
    }
}

proof fn lemma_ttl_linear(t: u32, k: nat)
    requires
        k <= t,
    ensures
        ttl_after(t, k) == t - k,
    decreases k,
{
    if k > 0 {
        lemma_ttl_linear(t, (k - 1) as nat);
    }
}

/// Snapshot countdown: a fresh snapshot starts the countdown at twelve, the
/// displayed path survives the next eleven ticks, and the twelfth tick is
/// exactly the one that clears it (the countdown reaches zero there, and
/// [`AppState::update_metrics`] clears the path exactly when the old
/// countdown is one).
pub proof fn lemma_snapshot_countdown(k: nat)
    ensures
        k < 12 ==> ttl_after(12, k) == 12 - k,
        ttl_after(12, 12) == 0,
{
    if k < 12 {
        lemma_ttl_linear(12, k);
    }
    lemma_ttl_linear(12, 12);
}

/// The whole interactive state: current snapshot, history, sort order,
/// collector (scan rate and caches), the transient snapshot path with its
/// countdown, and the recorded path of the open continuous log.
pub struct AppState {
    pub metrics: SystemMetrics,
    pub sort_order: SortOrder,
    pub collector: Collector,
    pub history: SparklineHistory,
    pub log_dir: String,
    pub snap_path: Option<String>,
    pub snap_ttl: u32,
    pub log_path: Option<String>,
}

impl AppState {
    pub open spec fn wf(self) -> bool {
        &&& self.collector.wf()
        &&& self.history.wf()
        &&& (self.snap_path is Some <==> self.snap_ttl > 0)
        &&& self.snap_ttl <= 12
    }

    /// The engine after one press of the toggle key combined with the
    /// surrounding program's acknowledgement: an active log is closed and
    /// its recorded path cleared; an inactive one records `opened`, the
    /// path of the file the program managed to create (`None` when creation
    /// failed, in which case no acknowledgement comes and logging stays
    /// off). [`AppState::handle_input`] performs the first half of this
    /// step and [`AppState::record_log_opened`] the second.
    pub open spec fn after_log_toggle(self, opened: Option<String>) -> AppState {
        if self.log_path is Some {
            AppState { log_path: None, ..self }
        } else {
            AppState { log_path: opened, ..self }
        }
    }

    /// The log toggle is idempotent in pairs: starting with logging
    /// inactive, a toggle whose file creation succeeds followed by a second
    /// toggle leaves logging inactive with no path recorded, whatever the
    /// second toggle's open outcome would have been.
    pub proof fn lemma_log_toggle_pair(self, p: String, opened2: Option<String>)
        requires
            self.log_path is None,
        ensures
            self.after_log_toggle(Some(p)).after_log_toggle(opened2).log_path is None,
    {
    }

    /// A fresh engine: zeroed metrics, CPU sort order, a fresh collector,
    /// an empty history of capacity 120, no transient snapshot path and no
    /// open log. The log directory is configuration handed in by the
    /// caller.
    pub fn new(log_dir: String) -> (r: Self)
        ensures
            r.wf(),
            r.metrics@.cpu == Seq::<crate::types::CpuCoreUsage>::empty(),
            r.metrics.ram == (RamSwapUsage { used: 0, total: 0 }),
            r.metrics.swap == (RamSwapUsage { used: 0, total: 0 }),
            r.metrics.network == (NetworkStats { received_bytes: 0, transmitted_bytes: 0 }),
            r.metrics.disk_io == (DiskIOStats { read_bytes: 0, write_bytes: 0 }),
            r.metrics@.processes == Seq::<ProcessInfoV>::empty(),
            r.metrics@.thermals == Seq::<crate::types::ThermalInfoV>::empty(),
            r.sort_order == SortOrder::Cpu,
            r.collector.tick == 0,
            r.collector.process_every == 4,
            r.history.cap() == 120,
            r.history.net_rx@ == Seq::<u64>::empty(),
            r.log_dir == log_dir,
            r.snap_path is None,
            r.snap_ttl == 0,
            r.log_path is None,
    {
        let metrics = SystemMetrics {
            cpu: Vec::new(),
            ram: RamSwapUsage { used: 0, total: 0 },
            swap: RamSwapUsage { used: 0, total: 0 },
            network: NetworkStats { received_bytes: 0, transmitted_bytes: 0 },
            disk_io: DiskIOStats { read_bytes: 0, write_bytes: 0 },
            processes: Vec::new(),
            thermals: Vec::new(),
        };
        proof {
            assert(metrics@.cpu =~= Seq::<crate::types::CpuCoreUsage>::empty());
            assert(metrics@.processes =~= Seq::<ProcessInfoV>::empty());
            assert(metrics@.thermals =~= Seq::<crate::types::ThermalInfoV>::empty());
        }
        AppState {
            metrics,
            sort_order: SortOrder::Cpu,
            collector: Collector::new(),
            history: SparklineHistory::new(120),
            log_dir,
            snap_path: None,
            snap_ttl: 0,
            log_path: None,
        }
    }

    /// One tick: collect a snapshot from the readings, replace the current
    /// metrics, push the new network and disk counters into the history,
    /// run the snapshot-path countdown, and, while continuous logging is
    /// active, return the CSV rows (one per process, with a fresh
    /// timestamp) to append to the log file.
    pub fn update_metrics(&mut self, cheap: CheapReading, full_data: Option<FullReading>) -> (rows:
        Option<Vec<String>>)
        requires
            old(self).wf(),
        ensures
            final(self).wf(),
            Collector::collect_post(
                old(self).collector,
                final(self).collector,
                cheap,
                full_data,
                final(self).metrics,
            ),
            final(self).history.cap() == old(self).history.cap(),
            final(self).history.net_rx@ == window_push(
                old(self).history.net_rx@,
                old(self).history.cap(),
                final(self).metrics.network.received_bytes,
            ),
            final(self).history.net_tx@ == window_push(
                old(self).history.net_tx@,
                old(self).history.cap(),
                final(self).metrics.network.transmitted_bytes,
            ),
            final(self).history.disk_read@ == window_push(
                old(self).history.disk_read@,
                old(self).history.cap(),
                final(self).metrics.disk_io.read_bytes,
            ),
            final(self).history.disk_write@ == window_push(
                old(self).history.disk_write@,
                old(self).history.cap(),
                final(self).metrics.disk_io.write_bytes,
            ),
            final(self).snap_ttl == step_ttl(old(self).snap_ttl),
            final(self).snap_path == if old(self).snap_ttl == 1 {
                None::<String>
            } else {
                old(self).snap_path
            },
            final(self).sort_order == old(self).sort_order,
            final(self).log_dir == old(self).log_dir,
            final(self).log_path == old(self).log_path,
            rows is Some <==> old(self).log_path is Some,
            match rows {
                Some(r) => exists|ts: Seq<char>|
                    r.deep_view() == #[trigger] csv_rows_spec(ts, final(self).metrics@.processes),
                None => true,
            },
    {
        let m = self.collector.collect(cheap, full_data);
        self.history.push(&m.network, &m.disk_io);
        self.metrics = m;
        let rows: Option<Vec<String>> = if self.log_path.is_some() {
            let ts = now_iso();
            let r = csv_rows(ts.as_str(), &self.metrics.processes);
            Some(r)
        } else {
            None
        };
        if self.snap_ttl > 0 {
            self.snap_ttl = self.snap_ttl - 1;
            if self.snap_ttl == 0 {
                self.snap_path = None;
            }
        }
        rows
    }

    /// Step the scan rate to the next smaller preset; a no-op at the
    /// smallest.
    pub fn scan_faster(&mut self)
        requires
            old(self).wf(),
        ensures
            final(self).wf(),
            final(self).collector.process_every == step_faster(old(self).collector.process_every),
            final(self).collector.tick == old(self).collector.tick,
            final(self).collector.last_disk_io == old(self).collector.last_disk_io,
            final(self).collector.last_processes == old(self).collector.last_processes,
            final(self).collector.last_thermals == old(self).collector.last_thermals,
            final(self).metrics == old(self).metrics,
            final(self).sort_order == old(self).sort_order,
            final(self).history == old(self).history,
            final(self).log_dir == old(self).log_dir,
            final(self).snap_path == old(self).snap_path,
            final(self).snap_ttl == old(self).snap_ttl,
            final(self).log_path == old(self).log_path,
    {
        self.collector.process_every = step_faster_exec(self.collector.process_every);
    }

    /// Step the scan rate to the next larger preset; a no-op at the
    /// largest.
    pub fn scan_slower(&mut self)
        requires
            old(self).wf(),
        ensures
            final(self).wf(),
            final(self).collector.process_every == step_slower(old(self).collector.process_every),
            final(self).collector.tick == old(self).collector.tick,
            final(self).collector.last_disk_io == old(self).collector.last_disk_io,
            final(self).collector.last_processes == old(self).collector.last_processes,
            final(self).collector.last_thermals == old(self).collector.last_thermals,
            final(self).metrics == old(self).metrics,
            final(self).sort_order == old(self).sort_order,
            final(self).history == old(self).history,
            final(self).log_dir == old(self).log_dir,
            final(self).snap_path == old(self).snap_path,
            final(self).snap_ttl == old(self).snap_ttl,
            final(self).log_path == old(self).log_path,
    {
        self.collector.process_every = step_slower_exec(self.collector.process_every);
    }

    /// Handle one key press. Sort and scan-rate keys change state here;
    /// the snapshot and log-toggle keys hand the file work to the caller
    /// as an [`InputAction`]. Any other key is ignored.
    pub fn handle_input(&mut self, ch: char, alt: bool) -> (a: InputAction)
        requires
            old(self).wf(),
        ensures
            final(self).wf(),
            (ch == 'c' || ch == 'C') ==> *final(self) == (AppState {
                sort_order: SortOrder::Cpu,
                ..*old(self)
            }) && a is NoOp,
            (ch == 'm' || ch == 'M') ==> *final(self) == (AppState {
                sort_order: SortOrder::Mem,
                ..*old(self)
            }) && a is NoOp,
            (ch == 'l' && alt && old(self).log_path is Some) ==> *final(self) == old(
                self,
            ).after_log_toggle(None::<String>) && a is StopLog,
            (ch == 'l' && alt && old(self).log_path is None) ==> *final(self) == *old(self)
                && match a {
                InputAction::StartLog { path, header } => {
                    &&& header@ == csv_header_spec()
                    &&& exists|ts: Seq<char>| path@ == #[trigger] log_path_spec(
                        old(self).log_dir@,
                        ts,
                    )
                },
                _ => false,
            },
            ((ch == 'l' && !alt) || ch == 'L') ==> *final(self) == *old(self) && match a {
                InputAction::Snapshot { path, lines } => exists|tsf: Seq<char>, tsr: Seq<char>|
                    {
                        &&& path@ == #[trigger] snap_path_spec(old(self).log_dir@, tsf)
                        &&& lines.deep_view() == seq![csv_header_spec()] + #[trigger] csv_rows_spec(
                            tsr,
                            old(self).metrics@.processes,
                        )
                    },
                _ => false,
            },
            ch == '[' ==> *final(self) == (AppState {
                collector: (Collector {
                    process_every: step_faster(old(self).collector.process_every),
                    ..old(self).collector
                }),
                ..*old(self)
            }) && a is NoOp,
            ch == ']' ==> *final(self) == (AppState {
                collector: (Collector {
                    process_every: step_slower(old(self).collector.process_every),
                    ..old(self).collector
                }),
                ..*old(self)
            }) && a is NoOp,
            !(ch == 'c' || ch == 'C' || ch == 'm' || ch == 'M' || ch == 'l' || ch == 'L' || ch
                == '[' || ch == ']') ==> *final(self) == *old(self) && a is NoOp,
    {
        if ch == 'c' || ch == 'C' {
            self.sort_order = SortOrder::Cpu;
            InputAction::NoOp
        } else if ch == 'm' || ch == 'M' {
            self.sort_order = SortOrder::Mem;
            InputAction::NoOp
        } else if ch == 'l' && alt {
            if self.log_path.is_some() {
                self.log_path = None;
                InputAction::StopLog
            } else {
                let ts = now_compact();
                let path = log_path(self.log_dir.as_str(), ts.as_str());
                let header = csv_header();
                InputAction::StartLog { path, header }
            }
        } else if ch == 'l' || ch == 'L' {
            let stamps = now_stamps();
            let path = snap_path(self.log_dir.as_str(), stamps.0.as_str());
            let mut lines: Vec<String> = Vec::new();
            lines.push(csv_header());
            let mut rows = csv_rows(stamps.1.as_str(), &self.metrics.processes);
            let ghost rows0 = rows.deep_view();
            lines.append(&mut rows);
            proof {
                assert(lines.deep_view() =~= seq![csv_header_spec()] + rows0);
                assert(path@ == snap_path_spec(self.log_dir@, stamps.0@));
                assert(lines.deep_view() == seq![csv_header_spec()] + csv_rows_spec(
                    stamps.1@,
                    self.metrics@.processes,
                ));
            }
            InputAction::Snapshot { path, lines }
        } else if ch == '[' {
            self.scan_faster();
            InputAction::NoOp
        } else if ch == ']' {
            self.scan_slower();
            InputAction::NoOp
        } else {
            InputAction::NoOp
        }
    }

    /// Record that a one-shot snapshot file was actually written: remember
    /// its path and start the display countdown at twelve ticks.
    pub fn record_snapshot(&mut self, path: String)
        requires
            old(self).wf(),
        ensures
            final(self).wf(),
            *final(self) == (AppState {
                snap_path: Some(path),
                snap_ttl: 12u32,
                ..*old(self)
            }),
    {
        self.snap_path = Some(path);
        self.snap_ttl = 12;
    }

    /// Record that a continuous-log file was actually created and is open:
    /// logging is active from the next tick on. Only an inactive engine
    /// opens a log, so this completes the toggle step begun by
    /// [`AppState::handle_input`].
    pub fn record_log_opened(&mut self, path: String)
        requires
            old(self).wf(),
            old(self).log_path is None,
        ensures
            final(self).wf(),
            *final(self) == old(self).after_log_toggle(Some(path)),
    {
        self.log_path = Some(path);
    }
}

} // verus!

