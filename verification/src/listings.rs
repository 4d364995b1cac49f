//! What the listing requests return: scanned applications, operation log
//! entries, health events, and the options of a reconciliation request.

use crate::models::{details2, details_view, AppScanPath, AppScanResult, Details, HealthEvent, HealthEventsRequest, ReconcileRequest};
use crate::planning::MigrationUnitPlan;
use crate::profiles::{opt_view, texts_view, AppProfile, LocalizedText};
use crate::records::{clamp_limit, clone_opt, tail_start, HealthEventRecord, OperationLogRecord};
use crate::text::owned;
use crate::models::Val;
use vstd::prelude::*;

verus! {

/// What is found at a unit's source path: nothing, or an entry (a link or
/// not) with its measured size, when that could be measured.
#[derive(Debug)]
pub enum PathObservation {
    Missing,
    Found { is_symlink: bool, size_bytes: Option<u64> },
}

/// The scanned size of a found path: zero for a link or an unmeasured path.
pub open spec fn scanned_size(o: PathObservation) -> u64 {
    match o {
        PathObservation::Missing => 0,
        PathObservation::Found { is_symlink, size_bytes } => if is_symlink {
            0
        } else {
            match size_bytes {
                Some(n) => n,
                None => 0,
            }
        },
    }
}

/// `p` is the scan entry of `unit` when `obs` is found at its source path.
pub open spec fn is_scan_path(p: AppScanPath, unit: MigrationUnitPlan, obs: PathObservation) -> bool {
    &&& opt_view(p.unit_id) == Some(unit.unit_id@)
    &&& opt_view(p.display_name) == Some(unit.display_name@)
    &&& p.default_enabled == Some(unit.default_enabled)
    &&& p.enabled == Some(unit.enabled)
    &&& opt_view(p.risk_level) == Some(unit.risk_level@)
    &&& p.requires_confirmation == Some(unit.requires_confirmation)
    &&& p.blocked_reason == unit.blocked_reason
    &&& p.allow_bootstrap_if_source_missing == Some(unit.allow_bootstrap_if_source_missing)
    &&& opt_view(p.category) == Some(unit.category@)
    &&& p.path@ == unit.source_path@
    &&& p.exists == (obs is Found)
    &&& p.is_symlink == (obs matches PathObservation::Found { is_symlink, .. } && is_symlink)
    &&& p.size_bytes == scanned_size(obs)
}

/// The scan entry of one unit.
pub fn scan_path(unit: &MigrationUnitPlan, obs: &PathObservation) -> (p: AppScanPath)
    ensures
        is_scan_path(p, *unit, *obs),
{
    let (exists, is_symlink, size_bytes) = match obs {
        PathObservation::Missing => (false, false, 0),
        PathObservation::Found { is_symlink, size_bytes } => {
            let size = if *is_symlink {
                0
            } else {
                match size_bytes {
                    Some(n) => *n,
                    None => 0,
                }
            };
            (true, *is_symlink, size)
        },
    };
    AppScanPath {
        unit_id: Some(unit.unit_id.clone()),
        display_name: Some(unit.display_name.clone()),
        default_enabled: Some(unit.default_enabled),
        enabled: Some(unit.enabled),
        risk_level: Some(unit.risk_level.clone()),
        requires_confirmation: Some(unit.requires_confirmation),
        blocked_reason: clone_opt(&unit.blocked_reason),
        allow_bootstrap_if_source_missing: Some(unit.allow_bootstrap_if_source_missing),
        category: Some(unit.category.clone()),
        path: unit.source_path.clone(),
        exists,
        is_symlink,
        size_bytes,
    }
}

fn copy_texts(v: &Vec<LocalizedText>) -> (r: Vec<LocalizedText>)
    ensures
        texts_view(r@) == texts_view(v@),
{
    let mut r: Vec<LocalizedText> = Vec::new();
    let mut i: usize = 0;
    while i < v.len()
        invariant
            i <= v@.len(),
            texts_view(r@) == texts_view(v@.take(i as int)),
        decreases v@.len() - i,
    {
        let ghost prev = r@;
        r.push(LocalizedText { locale: v[i].locale.clone(), text: v[i].text.clone() });
        assert(texts_view(r@) =~= texts_view(prev).push((v@[i as int].locale@, v@[i as int].text@)));
        assert(texts_view(v@.take(i + 1)) =~= texts_view(v@.take(i as int)).push(
            (v@[i as int].locale@, v@[i as int].text@),
        ));
        i = i + 1;
    }
    assert(v@.take(i as int) =~= v@);
    r
}

/// The scan entry of one application: `None` when none of its paths exists,
/// it does not run and no bundle of it is installed; otherwise its units'
/// entries in order (`observations` are those of `units`, position by
/// position).
pub fn scan_result(
    profile: &AppProfile,
    units: &Vec<MigrationUnitPlan>,
    observations: &Vec<PathObservation>,
    running: bool,
    installed: bool,
    display_name: String,
    icon_path: Option<String>,
    icon_data_url: Option<String>,
    now: &str,
) -> (r: Option<AppScanResult>)
    requires
        observations@.len() == units@.len(),
    ensures
        ({
            let detected = exists|i: int| 0 <= i < observations@.len() && (observations@[i] is Found);
            match r {
                None => !detected && !running && !installed,
                Some(s) => {
                    &&& detected || running || installed
                    &&& s.app_id@ == profile.app_id@
                    &&& s.display_name == display_name
                    &&& texts_view(s.description_i18n@) == texts_view(profile.description_i18n@)
                    &&& s.icon_path == icon_path
                    &&& s.icon_data_url == icon_data_url
                    &&& s.availability@ == profile.availability@
                    &&& s.blocked_reason == profile.blocked_reason
                    &&& s.detected_paths@.len() == units@.len()
                    &&& forall|i: int|
                        0 <= i < units@.len() ==> is_scan_path(#[trigger] s.detected_paths@[i], units@[i], observations@[i])
                    &&& s.running == running
                    &&& s.allow_bootstrap_if_source_missing == profile.precheck_rules.allow_bootstrap_if_source_missing
                    &&& s.last_verified_at@ == now@
                },
            }
        }),
{
    let mut paths: Vec<AppScanPath> = Vec::new();
    let mut detected = false;
    let mut i: usize = 0;
    while i < units.len()
        invariant
            i <= units@.len(),
            observations@.len() == units@.len(),
            paths@.len() == i,
            detected == exists|k: int| 0 <= k < i && (observations@[k] is Found),
            forall|k: int| 0 <= k < i ==> is_scan_path(#[trigger] paths@[k], units@[k], observations@[k]),
        decreases units@.len() - i,
    {
        let p = scan_path(&units[i], &observations[i]);
        if p.exists {
            detected = true;
        }
        paths.push(p);
        i = i + 1;
    }
    if !detected && !running && !installed {
        return None;
    }
    Some(
        AppScanResult {
            app_id: profile.app_id.clone(),
            display_name,
            description_i18n: copy_texts(&profile.description_i18n),
            icon_path,
            icon_data_url,
            availability: profile.availability.clone(),
            blocked_reason: clone_opt(&profile.blocked_reason),
            detected_paths: paths,
            running,
            allow_bootstrap_if_source_missing: profile.precheck_rules.allow_bootstrap_if_source_missing,
            last_verified_at: owned(now),
        },
    )
}

// ---------------------------------------------------------------------------
// Operation logs and health events
// ---------------------------------------------------------------------------

/// Whether a text is a JSON document, as `serde_json` parses it.
pub uninterp spec fn parses_as_json(text: Seq<char>) -> bool;

/// `serde_json::from_str::<serde_json::Value>` succeeds on `text`.
#[verifier::external_body]
fn json_parses(text: &str) -> (r: bool)
    ensures
        r == parses_as_json(text@),
{
    serde_json::from_str::<serde_json::Value>(text).is_ok()
}

/// The string member `key` of a JSON object text, as `serde_json` reads it.
pub uninterp spec fn json_text_member(text: Seq<char>, key: Seq<char>) -> Option<Seq<char>>;

/// `serde_json::from_str::<serde_json::Value>` on `text`, then
/// `Value::get(key)` and `Value::as_str`: the member's text when `text` is a
/// JSON object whose member `key` is a string.
#[verifier::external_body]
fn json_text_field(text: &str, key: &str) -> (r: Option<String>)
    ensures
        opt_view(r) == json_text_member(text@, key@),
{
    match serde_json::from_str::<serde_json::Value>(text) {
        Ok(value) => match value.get(key) {
            Some(member) => match member.as_str() {
                Some(s) => Some(s.to_string()),
                None => None,
            },
            None => None,
        },
        Err(_) => None,
    }
}

/// The details of a listed log entry: its stored JSON text when that is
/// valid JSON, else a note of the parse failure with the raw text.
#[derive(Debug)]
pub enum ItemDetails {
    Json(String),
    Fields(Details),
}

/// One listed operation log entry.
#[derive(Debug)]
pub struct OperationLogItem {
    pub log_id: String,
    pub relocation_id: String,
    pub trace_id: String,
    pub stage: String,
    pub step: String,
    pub status: String,
    pub error_code: Option<String>,
    pub duration_ms: Option<i64>,
    pub message: Option<String>,
    pub details: ItemDetails,
    pub created_at: String,
}

/// `item` is the listed form of the stored entry `row`: every field copied,
/// and the details kept as JSON text when `details_are_json`, else replaced
/// by a parse-error record holding the raw text.
pub open spec fn is_log_item(item: OperationLogItem, row: OperationLogRecord, details_are_json: bool) -> bool {
    &&& item.log_id == row.log_id
    &&& item.relocation_id == row.relocation_id
    &&& item.trace_id == row.trace_id
    &&& item.stage == row.stage
    &&& item.step == row.step
    &&& item.status == row.status
    &&& item.error_code == row.error_code
    &&& item.duration_ms == row.duration_ms
    &&& item.message == row.message
    &&& item.created_at == row.created_at
    &&& details_are_json ==> item.details == ItemDetails::Json(row.details_json)
    &&& !details_are_json ==> (item.details matches ItemDetails::Fields(d) && details_view(d) == seq![
        ("_parse_error"@, Val::Text("invalid details_json payload"@)),
        ("_raw"@, Val::Text(row.details_json@)),
    ])
}

/// The listed form of a stored entry, given whether its details are JSON.
pub fn log_item_from(row: OperationLogRecord, details_are_json: bool) -> (item: OperationLogItem)
    ensures
        is_log_item(item, row, details_are_json),
{
    let details = if details_are_json {
        ItemDetails::Json(row.details_json)
    } else {
        ItemDetails::Fields(
            details2("_parse_error", "invalid details_json payload", "_raw", row.details_json.as_str()),
        )
    };
    OperationLogItem {
        log_id: row.log_id,
        relocation_id: row.relocation_id,
        trace_id: row.trace_id,
        stage: row.stage,
        step: row.step,
        status: row.status,
        error_code: row.error_code,
        duration_ms: row.duration_ms,
        message: row.message,
        details,
        created_at: row.created_at,
    }
}

/// The listed form of a stored entry.
pub fn operation_log_to_item(row: OperationLogRecord) -> (item: OperationLogItem)
    ensures
        is_log_item(item, row, parses_as_json(row.details_json@)),
{
    let ok = json_parses(row.details_json.as_str());
    log_item_from(row, ok)
}

/// The listed entries: the last `limit` of `rows` (400 when not given,
/// kept within 1 to 5000), in stored order.
pub fn operation_log_items(rows: Vec<OperationLogRecord>, limit: Option<u32>) -> (items: Vec<OperationLogItem>)
    ensures
        ({
            let l = clamp_spec(limit, 400, 1, 5000);
            let start = if rows@.len() > l {
                rows@.len() - l
            } else {
                0
            };
            &&& items@.len() == rows@.len() - start
            &&& forall|i: int|
                0 <= i < items@.len() ==> is_log_item(
                    #[trigger] items@[i],
                    rows@[start + i],
                    parses_as_json(rows@[start + i].details_json@),
                )
        }),
{
    let l = clamp_limit(limit, 400, 1, 5000);
    let start = tail_start(rows.len(), l);
    let mut items: Vec<OperationLogItem> = Vec::new();
    let mut rows = rows;
    let ghost orig = rows@;
    let mut i: usize = start;
    while i < rows.len()
        invariant
            start <= i <= rows@.len(),
            rows@ == orig,
            items@.len() == i - start,
            forall|k: int|
                0 <= k < items@.len() ==> is_log_item(
                    #[trigger] items@[k],
                    orig[start + k],
                    parses_as_json(orig[start + k].details_json@),
                ),
        decreases rows@.len() - i,
    {
        let row = rows[i].copy();
        items.push(operation_log_to_item(row));
        i = i + 1;
    }
    items
}

/// `requested` (or `default`) kept within `[min, max]`.
pub open spec fn clamp_spec(requested: Option<u32>, default: u32, min: u32, max: u32) -> int {
    let v = match requested {
        Some(n) => n as int,
        None => default as int,
    };
    if v < min {
        min as int
    } else if v > max {
        max as int
    } else {
        v
    }
}

/// The number of health events to list: 200 when not given, within 1 to
/// 1000.
pub fn health_events_limit(req: &Option<HealthEventsRequest>) -> (n: usize)
    ensures
        n == clamp_spec(
            match req {
                Some(r) => r.limit,
                None => None,
            },
            200,
            1,
            1000,
        ),
{
    let requested = match req {
        Some(r) => r.limit,
        None => None,
    };
    clamp_limit(requested, 200, 1, 1000)
}

/// A health event from its stored snapshot and the message found in its
/// details (a default message when there is none).
pub fn health_event_from(row: HealthEventRecord, message: Option<String>) -> (e: HealthEvent)
    ensures
        e.snapshot_id == row.snapshot_id,
        e.relocation_id == row.relocation_id,
        e.app_id == row.app_id,
        e.state == row.state,
        e.check_code == row.check_code,
        e.observed_at == row.observed_at,
        e.message@ == match message {
            Some(m) => m@,
            None => "health event captured"@,
        },
{
    let message = match message {
        Some(m) => m,
        None => owned("health event captured"),
    };
    HealthEvent {
        snapshot_id: row.snapshot_id,
        relocation_id: row.relocation_id,
        app_id: row.app_id,
        state: row.state,
        check_code: row.check_code,
        message,
        observed_at: row.observed_at,
    }
}

/// A health event from its stored snapshot: the message is the string
/// member `message` of the snapshot's JSON details.
pub fn health_event_to_model(row: HealthEventRecord) -> (e: HealthEvent)
    ensures
        e.snapshot_id == row.snapshot_id,
        e.relocation_id == row.relocation_id,
        e.app_id == row.app_id,
        e.observed_at == row.observed_at,
        e.state == row.state,
        e.check_code == row.check_code,
        e.message@ == match json_text_member(row.details_json@, "message"@) {
            Some(m) => m,
            None => "health event captured"@,
        },
{
    let message = json_text_field(row.details_json.as_str(), "message");
    health_event_from(row, message)
}

/// Whether a reconciliation applies safe fixes (not unless asked), and how
/// many relocations it scans (500 when not given, within 1 to 5000).
pub fn reconcile_options(req: &Option<ReconcileRequest>) -> (r: (bool, usize))
    ensures
        r.0 == match req {
            Some(q) => match q.apply_safe_fixes {
                Some(b) => b,
                None => false,
            },
            None => false,
        },
        r.1 == clamp_spec(
            match req {
                Some(q) => q.limit,
                None => None,
            },
            500,
            1,
            5000,
        ),
{
    let (apply, limit) = match req {
        Some(q) => (
            match q.apply_safe_fixes {
                Some(b) => b,
                None => false,
            },
            q.limit,
        ),
        None => (false, None),
    };
    (apply, clamp_limit(limit, 500, 1, 5000))
}

} // verus!
