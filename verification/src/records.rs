//! Persistent relocation records, operation logs and health snapshots, and the
//! rules that select which stored rows a query returns.

use crate::models::{RelocationResult, RelocationSummary};
use crate::paths::{joined_path, path_join};
use crate::text::{str_eq};
use vstd::prelude::*;

verus! {

/// Location of the metadata store.
#[derive(Debug)]
pub struct Database {
    pub location: String,
}

impl Database {
    /// A store kept in the file at `location`.
    pub fn new(location: String) -> (d: Database)
        ensures
            d.location == location,
    {
        Database { location }
    }

    /// The store in the data directory `base_dir`: the file
    /// `disk-relocator.sqlite3` there.
    pub fn in_dir(base_dir: &str) -> (d: Database)
        ensures
            d.location@ == joined_path(base_dir@, "disk-relocator.sqlite3"@),
    {
        Database { location: path_join(base_dir, "disk-relocator.sqlite3") }
    }

    /// The file that holds the store.
    pub fn path(&self) -> (p: &str)
        ensures
            p@ == self.location@,
    {
        self.location.as_str()
    }
}

/// What the application's commands share: the metadata store.
#[derive(Debug)]
pub struct AppState {
    pub db: Database,
}

/// A stored relocation.
#[derive(Debug)]
pub struct RelocationRecord {
    pub relocation_id: String,
    pub app_id: String,
    pub tier: String,
    pub mode: String,
    pub source_path: String,
    pub target_root: String,
    pub target_path: String,
    pub backup_path: Option<String>,
    pub state: String,
    pub health_state: String,
    pub last_error_code: Option<String>,
    pub trace_id: String,
    pub source_size_bytes: i64,
    pub target_size_bytes: i64,
    pub created_at: String,
    pub updated_at: String,
}

/// A relocation to insert.
#[derive(Debug)]
pub struct NewRelocationRecord {
    pub relocation_id: String,
    pub app_id: String,
    pub tier: String,
    pub mode: String,
    pub source_path: String,
    pub target_root: String,
    pub target_path: String,
    pub backup_path: Option<String>,
    pub state: String,
    pub health_state: String,
    pub last_error_code: Option<String>,
    pub trace_id: String,
    pub source_size_bytes: i64,
    pub target_size_bytes: i64,
    pub created_at: String,
    pub updated_at: String,
    pub completed_at: Option<String>,
}

/// An operation log entry to insert.
#[derive(Debug)]
pub struct NewOperationLogEntry {
    pub log_id: String,
    pub relocation_id: String,
    pub trace_id: String,
    pub stage: String,
    pub step: String,
    pub status: String,
    pub error_code: Option<String>,
    pub duration_ms: Option<i64>,
    pub message: Option<String>,
    pub details_json: String,
    pub created_at: String,
}

/// A health snapshot to insert.
#[derive(Debug)]
pub struct NewHealthSnapshot {
    pub snapshot_id: String,
    pub relocation_id: String,
    pub state: String,
    pub check_code: String,
    pub details_json: String,
    pub observed_at: String,
}

/// The latest snapshot of one relocation.
#[derive(Debug)]
pub struct LatestHealthSnapshot {
    pub relocation_id: String,
    pub app_id: String,
    pub state: String,
    pub check_code: String,
    pub details_json: String,
    pub observed_at: String,
}

/// A stored health snapshot with its application.
#[derive(Debug)]
pub struct HealthEventRecord {
    pub snapshot_id: String,
    pub relocation_id: String,
    pub app_id: String,
    pub state: String,
    pub check_code: String,
    pub details_json: String,
    pub observed_at: String,
}

/// A stored operation log entry.
#[derive(Debug)]
pub struct OperationLogRecord {
    pub log_id: String,
    pub relocation_id: String,
    pub trace_id: String,
    pub stage: String,
    pub step: String,
    pub status: String,
    pub error_code: Option<String>,
    pub duration_ms: Option<i64>,
    pub message: Option<String>,
    pub details_json: String,
    pub created_at: String,
}

/// A state from which a relocation has not yet settled.
pub open spec fn unfinished_state(s: Seq<char>) -> bool {
    ||| s == "PRECHECKING"@
    ||| s == "BOOTSTRAP_INIT"@
    ||| s == "COPYING"@
    ||| s == "VERIFYING"@
    ||| s == "SWITCHING"@
    ||| s == "POSTCHECKING"@
    ||| s == "FAILED_NEEDS_ROLLBACK"@
    ||| s == "ROLLING_BACK"@
}

/// A state of a relocation whose source is expected to be a live link.
pub open spec fn active_state(s: Seq<char>) -> bool {
    s == "HEALTHY"@ || s == "DEGRADED"@ || s == "BROKEN"@
}

pub fn is_unfinished_state(s: &str) -> (r: bool)
    ensures
        r == unfinished_state(s@),
{
    str_eq(s, "PRECHECKING") || str_eq(s, "BOOTSTRAP_INIT") || str_eq(s, "COPYING") || str_eq(
        s,
        "VERIFYING",
    ) || str_eq(s, "SWITCHING") || str_eq(s, "POSTCHECKING") || str_eq(s, "FAILED_NEEDS_ROLLBACK")
        || str_eq(s, "ROLLING_BACK")
}

pub fn is_active_state(s: &str) -> (r: bool)
    ensures
        r == active_state(s@),
{
    str_eq(s, "HEALTHY") || str_eq(s, "DEGRADED") || str_eq(s, "BROKEN")
}

/// The unfinished relocations of `rows`, in their stored order.
pub open spec fn unfinished_rows(rows: Seq<RelocationRecord>) -> Seq<RelocationRecord>
    decreases rows.len(),
{
    if rows.len() == 0 {
        rows
    } else if unfinished_state(rows.last().state@) {
        unfinished_rows(rows.drop_last()).push(rows.last())
    } else {
        unfinished_rows(rows.drop_last())
    }
}

/// From relocations ordered newest first: for each application, its newest
/// relocation in an active state.
pub open spec fn monitored_rows(rows: Seq<RelocationRecord>) -> Seq<RelocationRecord>
    decreases rows.len(),
{
    if rows.len() == 0 {
        rows
    } else {
        let acc = monitored_rows(rows.drop_last());
        let r = rows.last();
        if active_state(r.state@) && !(exists|j: int| 0 <= j < acc.len() && acc[j].app_id@ == r.app_id@) {
            acc.push(r)
        } else {
            acc
        }
    }
}

pub open spec fn opt_matches(filter: Option<Seq<char>>, value: Seq<char>) -> bool {
    match filter {
        Some(f) => f == value,
        None => true,
    }
}

/// The log entries that match both optional filters, in stored order.
pub open spec fn filtered_logs(
    rows: Seq<OperationLogRecord>,
    relocation_id: Option<Seq<char>>,
    trace_id: Option<Seq<char>>,
) -> Seq<OperationLogRecord>
    decreases rows.len(),
{
    if rows.len() == 0 {
        rows
    } else if opt_matches(relocation_id, rows.last().relocation_id@) && opt_matches(
        trace_id,
        rows.last().trace_id@,
    ) {
        filtered_logs(rows.drop_last(), relocation_id, trace_id).push(rows.last())
    } else {
        filtered_logs(rows.drop_last(), relocation_id, trace_id)
    }
}

pub fn clone_opt(o: &Option<String>) -> (r: Option<String>)
    ensures
        r == *o,
{
    match o {
        Some(s) => Some(s.clone()),
        None => None,
    }
}

impl RelocationRecord {
    /// An identical copy.
    pub fn copy(&self) -> (r: RelocationRecord)
        ensures
            r == *self,
    {
        RelocationRecord {
            relocation_id: self.relocation_id.clone(),
            app_id: self.app_id.clone(),
            tier: self.tier.clone(),
            mode: self.mode.clone(),
            source_path: self.source_path.clone(),
            target_root: self.target_root.clone(),
            target_path: self.target_path.clone(),
            backup_path: clone_opt(&self.backup_path),
            state: self.state.clone(),
            health_state: self.health_state.clone(),
            last_error_code: clone_opt(&self.last_error_code),
            trace_id: self.trace_id.clone(),
            source_size_bytes: self.source_size_bytes,
            target_size_bytes: self.target_size_bytes,
            created_at: self.created_at.clone(),
            updated_at: self.updated_at.clone(),
        }
    }
}

impl OperationLogRecord {
    /// An identical copy.
    pub fn copy(&self) -> (r: OperationLogRecord)
        ensures
            r == *self,
    {
        OperationLogRecord {
            log_id: self.log_id.clone(),
            relocation_id: self.relocation_id.clone(),
            trace_id: self.trace_id.clone(),
            stage: self.stage.clone(),
            step: self.step.clone(),
            status: self.status.clone(),
            error_code: clone_opt(&self.error_code),
            duration_ms: self.duration_ms,
            message: clone_opt(&self.message),
            details_json: self.details_json.clone(),
            created_at: self.created_at.clone(),
        }
    }
}

/// Keeps the unfinished relocations of `rows` (ordered oldest update first).
pub fn select_unfinished(rows: &Vec<RelocationRecord>) -> (r: Vec<RelocationRecord>)
    ensures
        r@ == unfinished_rows(rows@),
{
    let mut out: Vec<RelocationRecord> = Vec::new();
    let mut i: usize = 0;
    while i < rows.len()
        invariant
            i <= rows.len(),
            out@ == unfinished_rows(rows@.take(i as int)),
        decreases rows.len() - i,
    {
        proof {
            assert(rows@.take(i + 1).drop_last() =~= rows@.take(i as int));
            assert(rows@.take(i + 1).last() == rows@[i as int]);
        }
        if is_unfinished_state(&rows[i].state) {
            out.push(rows[i].copy());
        }
        i = i + 1;
    }
    assert(rows@.take(rows.len() as int) =~= rows@);
    out
}

fn app_listed(acc: &Vec<RelocationRecord>, app_id: &str) -> (r: bool)
    ensures
        r == exists|j: int| 0 <= j < acc@.len() && acc@[j].app_id@ == app_id@,
{
    let mut j: usize = 0;
    while j < acc.len()
        invariant
            j <= acc.len(),
            forall|m: int| 0 <= m < j ==> acc@[m].app_id@ != app_id@,
        decreases acc.len() - j,
    {
        if str_eq(&acc[j].app_id, app_id) {
            return true;
        }
        j = j + 1;
    }
    false
}

/// From relocations ordered newest first, the newest active relocation of
/// each application.
pub fn select_health_monitoring(rows: &Vec<RelocationRecord>) -> (r: Vec<RelocationRecord>)
    ensures
        r@ == monitored_rows(rows@),
{
    let mut out: Vec<RelocationRecord> = Vec::new();
    let mut i: usize = 0;
    while i < rows.len()
        invariant
            i <= rows.len(),
            out@ == monitored_rows(rows@.take(i as int)),
        decreases rows.len() - i,
    {
        proof {
            assert(rows@.take(i + 1).drop_last() =~= rows@.take(i as int));
            assert(rows@.take(i + 1).last() == rows@[i as int]);
        }
        if is_active_state(&rows[i].state) && !app_listed(&out, &rows[i].app_id) {
            out.push(rows[i].copy());
        }
        i = i + 1;
    }
    assert(rows@.take(rows.len() as int) =~= rows@);
    out
}

fn filter_matches(filter: Option<&str>, value: &str) -> (r: bool)
    ensures
        r == opt_matches(
            match filter {
                Some(f) => Some(f@),
                None => None,
            },
            value@,
        ),
{
    match filter {
        Some(f) => str_eq(f, value),
        None => true,
    }
}

/// The operation log entries that match the optional relocation and trace
/// filters, keeping the stored (time) order.
pub fn select_operation_logs(
    rows: &Vec<OperationLogRecord>,
    relocation_id: Option<&str>,
    trace_id: Option<&str>,
) -> (r: Vec<OperationLogRecord>)
    ensures
        r@ == filtered_logs(
            rows@,
            match relocation_id {
                Some(f) => Some(f@),
                None => None,
            },
            match trace_id {
                Some(f) => Some(f@),
                None => None,
            },
        ),
{
    let ghost rf = match relocation_id {
        Some(f) => Some(f@),
        None => None,
    };
    let ghost tf = match trace_id {
        Some(f) => Some(f@),
        None => None,
    };
    let mut out: Vec<OperationLogRecord> = Vec::new();
    let mut i: usize = 0;
    while i < rows.len()
        invariant
            i <= rows.len(),
            rf == match relocation_id {
                Some(f) => Some(f@),
                None => None::<Seq<char>>,
            },
            tf == match trace_id {
                Some(f) => Some(f@),
                None => None::<Seq<char>>,
            },
            out@ == filtered_logs(rows@.take(i as int), rf, tf),
        decreases rows.len() - i,
    {
        proof {
            assert(rows@.take(i + 1).drop_last() =~= rows@.take(i as int));
            assert(rows@.take(i + 1).last() == rows@[i as int]);
        }
        if filter_matches(relocation_id, &rows[i].relocation_id) && filter_matches(trace_id, &rows[i].trace_id) {
            out.push(rows[i].copy());
        }
        i = i + 1;
    }
    assert(rows@.take(rows.len() as int) =~= rows@);
    out
}

/// The result reported for a stored relocation.
pub fn relocation_to_result(row: RelocationRecord) -> (r: RelocationResult)
    ensures
        r.relocation_id == row.relocation_id,
        r.app_id == row.app_id,
        r.state == row.state,
        r.health_state == row.health_state,
        r.source_path == row.source_path,
        r.target_path == row.target_path,
        r.backup_path == row.backup_path,
        r.trace_id == row.trace_id,
        r.started_at == row.created_at,
        r.updated_at == row.updated_at,
{
    RelocationResult {
        relocation_id: row.relocation_id,
        app_id: row.app_id,
        state: row.state,
        health_state: row.health_state,
        source_path: row.source_path,
        target_path: row.target_path,
        backup_path: row.backup_path,
        trace_id: row.trace_id,
        started_at: row.created_at,
        updated_at: row.updated_at,
    }
}

/// The listing entry of a stored relocation.
pub fn relocation_to_summary(row: RelocationRecord) -> (r: RelocationSummary)
    ensures
        r.relocation_id == row.relocation_id,
        r.app_id == row.app_id,
        r.state == row.state,
        r.health_state == row.health_state,
        r.source_path == row.source_path,
        r.target_path == row.target_path,
        r.source_size_bytes == row.source_size_bytes,
        r.target_size_bytes == row.target_size_bytes,
        r.updated_at == row.updated_at,
{
    RelocationSummary {
        relocation_id: row.relocation_id,
        app_id: row.app_id,
        state: row.state,
        health_state: row.health_state,
        source_path: row.source_path,
        target_path: row.target_path,
        source_size_bytes: row.source_size_bytes,
        target_size_bytes: row.target_size_bytes,
        updated_at: row.updated_at,
    }
}

/// A requested limit clamped to `[min, max]`, or `default` when absent.
pub fn clamp_limit(requested: Option<u32>, default: u32, min: u32, max: u32) -> (r: usize)
    requires
        min <= max,
    ensures
        r as int == {
            let v = match requested {
                Some(n) => n as int,
                None => default as int,
            };
            if v < min {
                min as int
            } else if v > max {
                max as int
            } else {
                v
            }
        },
{
    let v = match requested {
        Some(n) => n,
        None => default,
    };
    let c = if v < min {
        min
    } else if v > max {
        max
    } else {
        v
    };
    c as usize
}

/// Position from which the last `limit` of `len` entries start.
pub fn tail_start(len: usize, limit: usize) -> (r: usize)
    ensures
        r == if len > limit {
            len - limit
        } else {
            0
        },
{
    if len > limit {
        len - limit
    } else {
        0
    }
}

} // verus!
