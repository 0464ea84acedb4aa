//! The CSV schema shared by one-shot snapshots and the continuous log:
//! a fixed header row and one data row per process, with the CPU column
//! formatted to one decimal place. Also the timestamp-derived file paths
//! inside the configured log directory.

use vstd::prelude::*;
use vstd::string::StringExecFns;

use crate::numfmt::{dec_str, dec_str_signed, i32_to_dec, tenths_str, tenths_to_dec, u64_to_dec};
use crate::types::{ProcessInfo, ProcessInfoV};

verus! {

/// The header row of every CSV file this library emits.
pub open spec fn csv_header_spec() -> Seq<char> {
    "timestamp,pid,name,cpu_percent,mem_bytes"@
}

/// One data row: timestamp, pid, name, cpu to one decimal place, memory.
pub open spec fn csv_row_spec(ts: Seq<char>, p: ProcessInfoV) -> Seq<char> {
    ts + seq![','] + dec_str_signed(p.pid as int) + seq![','] + p.name + seq![',']
        + tenths_str(p.cpu_tenths as nat) + seq![','] + dec_str(p.mem_bytes as nat)
}

/// One row per process, in the given order.
pub open spec fn csv_rows_spec(ts: Seq<char>, ps: Seq<ProcessInfoV>) -> Seq<Seq<char>> {
    ps.map_values(|p: ProcessInfoV| csv_row_spec(ts, p))
}

/// Path of a one-shot snapshot file for timestamp `ts`.
pub open spec fn snap_path_spec(dir: Seq<char>, ts: Seq<char>) -> Seq<char> {
    dir + "/snap-"@ + ts + ".csv"@
}

/// Path of a continuous-log file for timestamp `ts`.
pub open spec fn log_path_spec(dir: Seq<char>, ts: Seq<char>) -> Seq<char> {
    dir + "/sysmon-"@ + ts + ".csv"@
}

/// The header row of every CSV file this library emits.
pub fn csv_header() -> (s: String)
    ensures
        s@ == csv_header_spec(),
{
    "timestamp,pid,name,cpu_percent,mem_bytes".to_owned()
}

/// One data row of the process CSV.
pub fn csv_row(ts: &str, p: &ProcessInfo) -> (s: String)
    ensures
        s@ == csv_row_spec(ts@, p@),
{
    proof {
        reveal_strlit(",");
    }
    let mut s: String = ts.to_owned();
    s.append(",");
    s.append(i32_to_dec(p.pid).as_str());
    s.append(",");
    s.append(p.name.as_str());
    s.append(",");
    s.append(tenths_to_dec(p.cpu_tenths as u64).as_str());
    s.append(",");
    s.append(u64_to_dec(p.mem_bytes).as_str());
    proof {
        assert(s@ =~= csv_row_spec(ts@, p@));
    }
    s
}

/// The header followed by one row per process, in order: the full contents
/// of a one-shot snapshot file, and the rows appended per tick while the
/// continuous log is active (without the header).
pub fn csv_rows(ts: &str, ps: &Vec<ProcessInfo>) -> (rows: Vec<String>)
    ensures
        rows.deep_view() == csv_rows_spec(ts@, ps.deep_view()),
{
    let mut rows: Vec<String> = Vec::new();
    let mut i: usize = 0;
    while i < ps.len()
        invariant
            i <= ps.len(),
            rows.len() == i,
            forall|j: int| 0 <= j < i ==> rows@[j]@ == csv_row_spec(ts@, ps@[j]@),
        decreases ps.len() - i,
    {
        let row = csv_row(ts, &ps[i]);
        rows.push(row);
        i = i + 1;
    }
    proof {
        assert forall|j: int| 0 <= j < rows@.len() implies rows.deep_view()[j] == csv_rows_spec(
            ts@,
            ps.deep_view(),
        )[j] by {
            assert(rows.deep_view()[j] == rows@[j]@);
            assert(ps.deep_view()[j] == ps@[j]@);
        }
        assert(rows.deep_view() =~= csv_rows_spec(ts@, ps.deep_view()));
    }
    rows
}

/// Path of the one-shot snapshot file for timestamp `ts` inside `dir`.
pub fn snap_path(dir: &str, ts: &str) -> (s: String)
    ensures
        s@ == snap_path_spec(dir@, ts@),
{
    let mut s: String = dir.to_owned();
    s.append("/snap-");
    s.append(ts);
    s.append(".csv");
    proof {
        assert(s@ =~= snap_path_spec(dir@, ts@));
    }
    s
}

/// Path of the continuous-log file for timestamp `ts` inside `dir`.
pub fn log_path(dir: &str, ts: &str) -> (s: String)
    ensures
        s@ == log_path_spec(dir@, ts@),
{
    let mut s: String = dir.to_owned();
    s.append("/sysmon-");
    s.append(ts);
    s.append(".csv");
    proof {
        assert(s@ =~= log_path_spec(dir@, ts@));
    }
    s
}

} // verus!
