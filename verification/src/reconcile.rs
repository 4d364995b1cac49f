//! Reconciliation of stored relocations with the file system: which drifts a
//! record shows, which of them have a safe fix, and what a run reports.

use crate::health::{same_path, paths_equal, SourceObservation};
use crate::models::{details1, details2, details3, details_view, opt_text_field, text_field, DetailValue, Details, ReconcileIssue, ReconcileResult};
use crate::paths::{temp_path_for, temp_path_spec, volume_root};
use crate::plans::{log_plan, snapshot_plan, state_update, Completion, LogPlan, SnapshotPlan, StateUpdate};
use crate::records::{active_state, is_active_state, RelocationRecord};
use crate::text::{owned, str_eq};
use crate::models::{lemma_object_view, nested_view, opt_val, Val};
use vstd::prelude::*;

verus! {

/// A repair that reconciliation may apply on its own.
#[derive(Clone, Copy, Debug)]
pub enum SafeFixAction {
    CleanupTempPath,
    MarkHealthy,
    MarkRolledBack,
    RecreateSourceAndMarkRolledBack,
}

pub open spec fn action_name(a: SafeFixAction) -> Seq<char> {
    match a {
        SafeFixAction::CleanupTempPath => "cleanup_temp_path"@,
        SafeFixAction::MarkHealthy => "mark_state_healthy"@,
        SafeFixAction::MarkRolledBack => "mark_state_rolled_back"@,
        SafeFixAction::RecreateSourceAndMarkRolledBack => "recreate_source_and_mark_state_rolled_back"@,
    }
}

impl SafeFixAction {
    pub fn as_str(&self) -> (s: String)
        ensures
            s@ == action_name(*self),
    {
        match self {
            SafeFixAction::CleanupTempPath => owned("cleanup_temp_path"),
            SafeFixAction::MarkHealthy => owned("mark_state_healthy"),
            SafeFixAction::MarkRolledBack => owned("mark_state_rolled_back"),
            SafeFixAction::RecreateSourceAndMarkRolledBack => owned("recreate_source_and_mark_state_rolled_back"),
        }
    }
}

/// A detected drift together with its safe fix, if any.
#[derive(Debug)]
pub struct InternalIssue {
    pub issue: ReconcileIssue,
    pub safe_fix_action: Option<SafeFixAction>,
}

/// What is observed on disk for one relocation.
#[derive(Debug)]
pub struct ReconcileObservation {
    pub source: SourceObservation,
    pub target_exists: bool,
    /// The temporary copy path `<target>.tmp.<relocation_id>` exists.
    pub temp_exists: bool,
    /// The recorded backup path exists.
    pub backup_exists: bool,
    /// The volume mount point of the target root exists.
    pub mount_root_exists: bool,
}

pub struct IssueView {
    pub relocation_id: Seq<char>,
    pub app_id: Seq<char>,
    pub code: Seq<char>,
    pub severity: Seq<char>,
    pub message: Seq<char>,
    pub suggestion: Seq<char>,
    pub action: Option<SafeFixAction>,
    pub action_name: Option<Seq<char>>,
    pub applied: bool,
    pub details: Seq<(Seq<char>, Val)>,
}

pub open spec fn issue_view(i: InternalIssue) -> IssueView {
    IssueView {
        relocation_id: i.issue.relocation_id@,
        app_id: i.issue.app_id@,
        code: i.issue.code@,
        severity: i.issue.severity@,
        message: i.issue.message@,
        suggestion: i.issue.suggestion@,
        action: i.safe_fix_action,
        action_name: match i.issue.safe_fix_action {
            Some(a) => Some(a@),
            None => None,
        },
        applied: i.issue.safe_fix_applied,
        details: details_view(i.issue.details),
    }
}

pub open spec fn issues_view(v: Seq<InternalIssue>) -> Seq<IssueView> {
    v.map_values(|i: InternalIssue| issue_view(i))
}

pub open spec fn iv(
    r: RelocationRecord,
    code: Seq<char>,
    severity: Seq<char>,
    message: Seq<char>,
    suggestion: Seq<char>,
    action: Option<SafeFixAction>,
    details: Seq<(Seq<char>, Val)>,
) -> IssueView {
    IssueView {
        relocation_id: r.relocation_id@,
        app_id: r.app_id@,
        code,
        severity,
        message,
        suggestion,
        action,
        action_name: match action {
            Some(a) => Some(action_name(a)),
            None => None,
        },
        applied: false,
        details,
    }
}


/// The target's volume is present (targets outside `/Volumes` count as present).
pub open spec fn mount_online(r: RelocationRecord, o: ReconcileObservation) -> bool {
    match volume_root(r.target_root@) {
        Some(_) => o.mount_root_exists,
        None => true,
    }
}

/// Whether the volume of a relocation's target is present, given whether its
/// mount point exists: a target outside `/Volumes` counts as present.
pub fn target_mount_online(record: &RelocationRecord, mount_root_exists: bool) -> (r: bool)
    ensures
        r == match volume_root(record.target_root@) {
            Some(_) => mount_root_exists,
            None => true,
        },
{
    match crate::paths::volume_mount_root(&record.target_root) {
        Some(_) => mount_root_exists,
        None => true,
    }
}

/// Neither the target, the temporary copy nor a backup remains.
pub open spec fn nothing_left(r: RelocationRecord, o: ReconcileObservation) -> bool {
    !o.target_exists && !o.temp_exists && !(o.backup_exists && r.backup_path is Some)
}

pub open spec fn stpath(r: RelocationRecord) -> Seq<(Seq<char>, Val)> {
    seq![
        ("state"@, Val::Text(r.state@)),
        ("source_path"@, Val::Text(r.source_path@)),
        ("target_path"@, Val::Text(r.target_path@)),
    ]
}

/// Whether the source's link points at the recorded target (as paths); true
/// when the source is no link.
pub open spec fn link_matches_target(r: RelocationRecord, o: ReconcileObservation) -> bool {
    match o.source {
        SourceObservation::Link { target } => same_path(target@, r.target_path@),
        _ => true,
    }
}

/// The drifts of one relocation, in the order they are reported.
pub open spec fn record_issues(r: RelocationRecord, o: ReconcileObservation) -> Seq<IssueView> {
    record_issues_given(r, o, link_matches_target(r, o))
}

/// The drifts of one relocation when `linked_to_target` tells whether the
/// source's link points at the recorded target.
pub open spec fn record_issues_given(r: RelocationRecord, o: ReconcileObservation, linked_to_target: bool) -> Seq<
    IssueView,
> {
    let temp = if o.temp_exists {
        seq![
            iv(
                r,
                "RECON_TEMP_PATH_RESIDUE"@,
                "warning"@,
                "temporary migration path residue detected."@,
                "run safe-fix to cleanup temporary path."@,
                Some(SafeFixAction::CleanupTempPath),
                seq![("temp_path"@, Val::Text(temp_path_spec(r.target_path@, r.relocation_id@)))],
            ),
        ]
    } else {
        Seq::empty()
    };
    let rest = match o.source {
        SourceObservation::Missing { error } => if nothing_left(r, o) && mount_online(r, o) {
            seq![
                iv(
                    r,
                    "RECON_SOURCE_MISSING_RECOVERABLE"@,
                    "warning"@,
                    "source path missing while target and backup paths are absent."@,
                    "run safe-fix to recreate an empty source path and resync metadata to ROLLED_BACK."@,
                    Some(SafeFixAction::RecreateSourceAndMarkRolledBack),
                    seq![
                        ("source_path"@, Val::Text(r.source_path@)),
                        ("target_path"@, Val::Text(r.target_path@)),
                        ("backup_path"@, opt_val(r.backup_path)),
                        ("target_root"@, Val::Text(r.target_root@)),
                        ("error"@, Val::Text(error@)),
                    ],
                ),
            ]
        } else {
            seq![
                iv(
                    r,
                    "RECON_SOURCE_MISSING"@,
                    "critical"@,
                    "source path missing during reconciliation."@,
                    "run rollback to restore source path, then re-check."@,
                    None,
                    seq![("source_path"@, Val::Text(r.source_path@)), ("error"@, Val::Text(error@))],
                ),
            ]
        },
        SourceObservation::LinkUnreadable { error } => seq![
            iv(
                r,
                "RECON_SYMLINK_READ_FAILED"@,
                "critical"@,
                "failed to resolve source symlink target."@,
                "run rollback to restore source path, then re-check."@,
                None,
                seq![("source_path"@, Val::Text(r.source_path@)), ("error"@, Val::Text(error@))],
            ),
        ],
        SourceObservation::Link { target } => if !linked_to_target {
            seq![
                iv(
                    r,
                    "RECON_SOURCE_TARGET_MISMATCH"@,
                    "warning"@,
                    "source symlink target mismatches metadata target path."@,
                    "run rollback and optionally migrate again to recover consistency."@,
                    None,
                    seq![
                        ("source_path"@, Val::Text(r.source_path@)),
                        ("linked_target"@, Val::Text(target@)),
                        ("expected_target"@, Val::Text(r.target_path@)),
                    ],
                ),
            ]
        } else {
            let first = if !o.target_exists {
                seq![
                    iv(
                        r,
                        "RECON_TARGET_MISSING"@,
                        "critical"@,
                        "source symlink exists but target path is missing."@,
                        "reconnect target disk or run rollback to recover source path."@,
                        None,
                        seq![("source_path"@, Val::Text(r.source_path@)), ("target_path"@, Val::Text(r.target_path@))],
                    ),
                ]
            } else if !active_state(r.state@) {
                seq![
                    iv(
                        r,
                        "RECON_STATE_STALE_ACTIVE"@,
                        "warning"@,
                        "metadata state is stale while filesystem indicates active relocation."@,
                        "run safe-fix to resync metadata state to HEALTHY."@,
                        Some(SafeFixAction::MarkHealthy),
                        stpath(r),
                    ),
                ]
            } else {
                Seq::empty()
            };
            let second = if o.backup_exists && r.backup_path is Some {
                seq![
                    iv(
                        r,
                        "RECON_BACKUP_PATH_RESIDUE"@,
                        "warning"@,
                        "backup path residue detected after relocation."@,
                        "validate backup content then cleanup manually if not needed."@,
                        None,
                        seq![("backup_path"@, opt_val(r.backup_path))],
                    ),
                ]
            } else {
                Seq::empty()
            };
            first + second
        },
        SourceObservation::NotSymlink => if active_state(r.state@) {
            if nothing_left(r, o) {
                seq![
                    iv(
                        r,
                        "RECON_STATE_STALE_ROLLED_BACK"@,
                        "warning"@,
                        "metadata indicates active relocation but filesystem looks rolled back."@,
                        "run safe-fix to resync metadata to ROLLED_BACK."@,
                        Some(SafeFixAction::MarkRolledBack),
                        stpath(r),
                    ),
                ]
            } else {
                seq![
                    iv(
                        r,
                        "RECON_EXPECTED_SYMLINK_MISSING"@,
                        "critical"@,
                        "active relocation state expects source symlink, but source is not symlink."@,
                        "run rollback to recover source path and clear inconsistent state."@,
                        None,
                        stpath(r),
                    ),
                ]
            }
        } else if r.state@ == "ROLLBACK_FAILED"@ || r.state@ == "FAILED_NEEDS_ROLLBACK"@ {
            if nothing_left(r, o) {
                seq![
                    iv(
                        r,
                        "RECON_STATE_STALE_ROLLED_BACK"@,
                        "warning"@,
                        "rollback-failed metadata is stale while filesystem indicates rolled-back state."@,
                        "run safe-fix to resync metadata to ROLLED_BACK."@,
                        Some(SafeFixAction::MarkRolledBack),
                        stpath(r),
                    ),
                ]
            } else {
                Seq::empty()
            }
        } else if r.state@ == "ROLLED_BACK"@ && o.target_exists {
            seq![
                iv(
                    r,
                    "RECON_TARGET_RESIDUE_AFTER_ROLLBACK"@,
                    "warning"@,
                    "target path residue detected after rolled-back state."@,
                    "confirm target data is unnecessary, then clean up manually."@,
                    None,
                    seq![("target_path"@, Val::Text(r.target_path@))],
                ),
            ]
        } else {
            Seq::empty()
        },
    };
    temp + rest
}

/// A safe fix that records a relocation as rolled back (by itself, or after
/// recreating an empty source) is offered only when nothing of the relocated
/// data is left: neither the target, the temporary copy nor the backup
/// exists.  An active relocation whose source is a real directory while its
/// target still exists has, beside a temporary-copy residue, exactly one
/// issue: a critical one that no safe fix may touch.  Likewise an empty source
/// is recreated only where the source is missing and the target's disk is
/// present, a relocation is marked healthy only where its link points at an
/// existing target, and a temporary path is removed only where it exists.
pub proof fn rolled_back_fixes_only_when_nothing_left(r: RelocationRecord, o: ReconcileObservation, linked_to_target: bool)
    ensures
        ({
            let issues = record_issues_given(r, o, linked_to_target);
            &&& forall|i: int|
                0 <= i < issues.len() && ((#[trigger] issues[i]).action matches Some(SafeFixAction::MarkRolledBack)
                    || issues[i].action matches Some(SafeFixAction::RecreateSourceAndMarkRolledBack)) ==> !o.target_exists
                    && !o.temp_exists && !(o.backup_exists && r.backup_path is Some)
            &&& forall|i: int|
                0 <= i < issues.len() && ((#[trigger] issues[i]).action matches Some(
                    SafeFixAction::RecreateSourceAndMarkRolledBack,
                )) ==> (o.source is Missing) && mount_online(r, o)
            &&& forall|i: int|
                0 <= i < issues.len() && ((#[trigger] issues[i]).action matches Some(SafeFixAction::MarkHealthy)) ==> (
                o.source is Link) && linked_to_target && o.target_exists && !active_state(r.state@)
            &&& forall|i: int|
                0 <= i < issues.len() && ((#[trigger] issues[i]).action matches Some(SafeFixAction::CleanupTempPath))
                    ==> o.temp_exists
            &&& (o.source is NotSymlink && active_state(r.state@) && o.target_exists) ==> {
                &&& issues.len() == if o.temp_exists {
                    2int
                } else {
                    1int
                }
                &&& issues.last().code == "RECON_EXPECTED_SYMLINK_MISSING"@
                &&& issues.last().severity == "critical"@
                &&& issues.last().action is None
                &&& forall|i: int| 0 <= i < issues.len() ==> (#[trigger] issues[i]).action is None || issues[i].action matches Some(
                    SafeFixAction::CleanupTempPath,
                )
            }
        }),
{
}

fn new_issue(
    record: &RelocationRecord,
    code: &str,
    severity: &str,
    message: &str,
    suggestion: &str,
    action: Option<SafeFixAction>,
    details: Details,
) -> (i: InternalIssue)
    ensures
        issue_view(i) == iv(*record, code@, severity@, message@, suggestion@, action, details_view(details)),
{
    let name = match action {
        Some(a) => Some(a.as_str()),
        None => None,
    };
    InternalIssue {
        issue: ReconcileIssue {
            relocation_id: record.relocation_id.clone(),
            app_id: record.app_id.clone(),
            code: owned(code),
            severity: owned(severity),
            message: owned(message),
            suggestion: owned(suggestion),
            safe_fix_action: name,
            safe_fix_applied: false,
            details,
        },
        safe_fix_action: action,
    }
}

fn state_details(r: &RelocationRecord) -> (d: Details)
    ensures
        details_view(d) == stpath(*r),
{
    details3("state", &r.state, "source_path", &r.source_path, "target_path", &r.target_path)
}

fn recoverable_details(r: &RelocationRecord, error: &str) -> (d: Details)
    ensures
        details_view(d) == seq![
            ("source_path"@, Val::Text(r.source_path@)),
            ("target_path"@, Val::Text(r.target_path@)),
            ("backup_path"@, opt_val(r.backup_path)),
            ("target_root"@, Val::Text(r.target_root@)),
            ("error"@, Val::Text(error@)),
        ],
{
    let d = Details {
        fields: vec![
            text_field("source_path", &r.source_path),
            text_field("target_path", &r.target_path),
            opt_text_field("backup_path", &r.backup_path),
            text_field("target_root", &r.target_root),
            text_field("error", error),
        ],
    };
    assert(details_view(d) =~= seq![
        ("source_path"@, Val::Text(r.source_path@)),
        ("target_path"@, Val::Text(r.target_path@)),
        ("backup_path"@, opt_val(r.backup_path)),
        ("target_root"@, Val::Text(r.target_root@)),
        ("error"@, Val::Text(error@)),
    ]);
    d
}

fn backup_details(r: &RelocationRecord) -> (d: Details)
    ensures
        details_view(d) == seq![("backup_path"@, opt_val(r.backup_path))],
{
    let d = Details { fields: vec![opt_text_field("backup_path", &r.backup_path)] };
    assert(details_view(d) =~= seq![("backup_path"@, opt_val(r.backup_path))]);
    d
}

/// The drifts that one relocation shows given what is observed on disk.
pub fn evaluate_record(record: &RelocationRecord, obs: &ReconcileObservation) -> (issues: Vec<InternalIssue>)
    ensures
        issues_view(issues@) == record_issues(*record, *obs),
{
    let linked_to_target = match &obs.source {
        SourceObservation::Link { target } => paths_equal(target, &record.target_path),
        _ => true,
    };
    record_drifts(record, obs, linked_to_target)
}

/// The drifts that one relocation shows, when `linked_to_target` tells
/// whether the source's link points at the recorded target.
pub fn record_drifts(record: &RelocationRecord, obs: &ReconcileObservation, linked_to_target: bool) -> (issues: Vec<
    InternalIssue,
>)
    ensures
        issues_view(issues@) == record_issues_given(*record, *obs, linked_to_target),
{
    let mut issues: Vec<InternalIssue> = Vec::new();
    if obs.temp_exists {
        let temp = temp_path_for(&record.target_path, &record.relocation_id);
        issues.push(
            new_issue(
                record,
                "RECON_TEMP_PATH_RESIDUE",
                "warning",
                "temporary migration path residue detected.",
                "run safe-fix to cleanup temporary path.",
                Some(SafeFixAction::CleanupTempPath),
                details1("temp_path", &temp),
            ),
        );
    }
    let ghost temp_part = issues_view(issues@);
    let backup_present = obs.backup_exists && record.backup_path.is_some();
    let nothing_left = !obs.target_exists && !obs.temp_exists && !backup_present;
    let mut rest: Vec<InternalIssue> = Vec::new();
    match &obs.source {
        SourceObservation::Missing { error } => {
            let online = target_mount_online(record, obs.mount_root_exists);
            if nothing_left && online {
                rest.push(
                    new_issue(
                        record,
                        "RECON_SOURCE_MISSING_RECOVERABLE",
                        "warning",
                        "source path missing while target and backup paths are absent.",
                        "run safe-fix to recreate an empty source path and resync metadata to ROLLED_BACK.",
                        Some(SafeFixAction::RecreateSourceAndMarkRolledBack),
                        recoverable_details(record, error),
                    ),
                );
            } else {
                rest.push(
                    new_issue(
                        record,
                        "RECON_SOURCE_MISSING",
                        "critical",
                        "source path missing during reconciliation.",
                        "run rollback to restore source path, then re-check.",
                        None,
                        details2("source_path", &record.source_path, "error", error),
                    ),
                );
            }
        },
        SourceObservation::LinkUnreadable { error } => {
            rest.push(
                new_issue(
                    record,
                    "RECON_SYMLINK_READ_FAILED",
                    "critical",
                    "failed to resolve source symlink target.",
                    "run rollback to restore source path, then re-check.",
                    None,
                    details2("source_path", &record.source_path, "error", error),
                ),
            );
        },
        SourceObservation::Link { target } => {
            if !linked_to_target {
                rest.push(
                    new_issue(
                        record,
                        "RECON_SOURCE_TARGET_MISMATCH",
                        "warning",
                        "source symlink target mismatches metadata target path.",
                        "run rollback and optionally migrate again to recover consistency.",
                        None,
                        details3(
                            "source_path",
                            &record.source_path,
                            "linked_target",
                            target,
                            "expected_target",
                            &record.target_path,
                        ),
                    ),
                );
            } else {
                if !obs.target_exists {
                    rest.push(
                        new_issue(
                            record,
                            "RECON_TARGET_MISSING",
                            "critical",
                            "source symlink exists but target path is missing.",
                            "reconnect target disk or run rollback to recover source path.",
                            None,
                            details2("source_path", &record.source_path, "target_path", &record.target_path),
                        ),
                    );
                } else if !is_active_state(&record.state) {
                    rest.push(
                        new_issue(
                            record,
                            "RECON_STATE_STALE_ACTIVE",
                            "warning",
                            "metadata state is stale while filesystem indicates active relocation.",
                            "run safe-fix to resync metadata state to HEALTHY.",
                            Some(SafeFixAction::MarkHealthy),
                            state_details(record),
                        ),
                    );
                }
                let ghost first_part = issues_view(rest@);
                if backup_present {
                    rest.push(
                        new_issue(
                            record,
                            "RECON_BACKUP_PATH_RESIDUE",
                            "warning",
                            "backup path residue detected after relocation.",
                            "validate backup content then cleanup manually if not needed.",
                            None,
                            backup_details(record),
                        ),
                    );
                }
                assert(issues_view(rest@) =~= first_part + if backup_present {
                    issues_view(rest@).subrange(first_part.len() as int, issues_view(rest@).len() as int)
                } else {
                    Seq::empty()
                });
            }
        },
        SourceObservation::NotSymlink => {
            if is_active_state(&record.state) {
                if nothing_left {
                    rest.push(
                        new_issue(
                            record,
                            "RECON_STATE_STALE_ROLLED_BACK",
                            "warning",
                            "metadata indicates active relocation but filesystem looks rolled back.",
                            "run safe-fix to resync metadata to ROLLED_BACK.",
                            Some(SafeFixAction::MarkRolledBack),
                            state_details(record),
                        ),
                    );
                } else {
                    rest.push(
                        new_issue(
                            record,
                            "RECON_EXPECTED_SYMLINK_MISSING",
                            "critical",
                            "active relocation state expects source symlink, but source is not symlink.",
                            "run rollback to recover source path and clear inconsistent state.",
                            None,
                            state_details(record),
                        ),
                    );
                }
            } else if str_eq(&record.state, "ROLLBACK_FAILED") || str_eq(&record.state, "FAILED_NEEDS_ROLLBACK") {
                if nothing_left {
                    rest.push(
                        new_issue(
                            record,
                            "RECON_STATE_STALE_ROLLED_BACK",
                            "warning",
                            "rollback-failed metadata is stale while filesystem indicates rolled-back state.",
                            "run safe-fix to resync metadata to ROLLED_BACK.",
                            Some(SafeFixAction::MarkRolledBack),
                            state_details(record),
                        ),
                    );
                }
            } else if str_eq(&record.state, "ROLLED_BACK") && obs.target_exists {
                rest.push(
                    new_issue(
                        record,
                        "RECON_TARGET_RESIDUE_AFTER_ROLLBACK",
                        "warning",
                        "target path residue detected after rolled-back state.",
                        "confirm target data is unnecessary, then clean up manually.",
                        None,
                        details1("target_path", &record.target_path),
                    ),
                );
            }
        },
    }
    let ghost rest_part = issues_view(rest@);
    issues.append(&mut rest);
    assert(issues_view(issues@) =~= temp_part + rest_part);
    issues
}

/// From relocations ordered newest first: the newest relocation of each
/// (application, source path) pair, in order.
pub open spec fn latest_per_source(rows: Seq<RelocationRecord>) -> Seq<RelocationRecord>
    decreases rows.len(),
{
    if rows.len() == 0 {
        rows
    } else {
        let acc = latest_per_source(rows.drop_last());
        let r = rows.last();
        if exists|j: int|
            0 <= j < acc.len() && acc[j].app_id@ == r.app_id@ && acc[j].source_path@ == r.source_path@ {
            acc
        } else {
            acc.push(r)
        }
    }
}

/// Number of records a run scans at most (a limit of zero still scans one).
pub open spec fn scan_cap(limit: usize) -> int {
    if limit == 0 {
        1
    } else {
        limit as int
    }
}

proof fn lemma_latest_prefix(rows: Seq<RelocationRecord>, k: int)
    requires
        0 <= k <= rows.len(),
    ensures
        latest_per_source(rows.take(k)).len() <= latest_per_source(rows).len(),
        latest_per_source(rows.take(k)) == latest_per_source(rows).take(
            latest_per_source(rows.take(k)).len() as int,
        ),
    decreases rows.len() - k,
{
    if k == rows.len() {
        assert(rows.take(k) =~= rows);
        assert(latest_per_source(rows).take(latest_per_source(rows).len() as int) =~= latest_per_source(rows));
    } else {
        lemma_latest_prefix(rows, k + 1);
        let a = latest_per_source(rows.take(k));
        let b = latest_per_source(rows.take(k + 1));
        assert(rows.take(k + 1).drop_last() =~= rows.take(k));
        assert(b == a || b == a.push(rows[k]));
        let full = latest_per_source(rows);
        assert(b == full.take(b.len() as int));
        assert(a =~= full.take(a.len() as int));
    }
}

fn pair_listed(acc: &Vec<RelocationRecord>, r: &RelocationRecord) -> (b: bool)
    ensures
        b == exists|j: int|
            0 <= j < acc@.len() && acc@[j].app_id@ == r.app_id@ && acc@[j].source_path@ == r.source_path@,
{
    let mut j: usize = 0;
    while j < acc.len()
        invariant
            j <= acc.len(),
            forall|m: int|
                0 <= m < j ==> !(acc@[m].app_id@ == r.app_id@ && acc@[m].source_path@ == r.source_path@),
        decreases acc.len() - j,
    {
        if str_eq(&acc[j].app_id, &r.app_id) && str_eq(&acc[j].source_path, &r.source_path) {
            return true;
        }
        j = j + 1;
    }
    false
}

/// The relocations a reconciliation run scans: from relocations ordered newest
/// first, the newest of each (application, source path) pair, at most
/// `limit` of them (at least one when there is any).
pub fn select_for_reconcile(rows: &Vec<RelocationRecord>, limit: usize) -> (r: Vec<RelocationRecord>)
    ensures
        r@ == latest_per_source(rows@).take(
            if scan_cap(limit) < latest_per_source(rows@).len() {
                scan_cap(limit)
            } else {
                latest_per_source(rows@).len() as int
            },
        ),
{
    let mut out: Vec<RelocationRecord> = Vec::new();
    let mut i: usize = 0;
    while i < rows.len()
        invariant
            i <= rows.len(),
            out@ == latest_per_source(rows@.take(i as int)),
            out@.len() < scan_cap(limit),
        decreases rows.len() - i,
    {
        proof {
            assert(rows@.take(i + 1).drop_last() =~= rows@.take(i as int));
            assert(rows@.take(i + 1).last() == rows@[i as int]);
        }
        if !pair_listed(&out, &rows[i]) {
            out.push(rows[i].copy());
            if out.len() >= limit {
                proof {
                    lemma_latest_prefix(rows@, i + 1);
                }
                return out;
            }
        }
        i = i + 1;
    }
    proof {
        assert(rows@.take(i as int) =~= rows@);
        assert(out@.take(out@.len() as int) =~= out@);
    }
    out
}

/// Whether a safe fix was attempted for an issue, and how it went.
#[derive(Clone, Copy, Debug)]
pub enum FixOutcome {
    NotAttempted,
    Applied,
    Failed,
}

/// An outcome that the issue allows: a fix is attempted only for an issue
/// with a safe fix, and only when fixes are requested.
pub open spec fn outcome_allowed(apply_safe_fixes: bool, issue: InternalIssue, o: FixOutcome) -> bool {
    (o is NotAttempted) || (apply_safe_fixes && issue.safe_fix_action is Some)
}

/// The outcome of an issue from the result of its safe fix: not attempted
/// when the issue has no fix to attempt (or fixes are not requested) or none
/// was tried, applied when it succeeded, failed otherwise.
pub fn fix_outcome(apply_safe_fixes: bool, issue: &InternalIssue, attempt: &Option<Result<(), String>>) -> (o: FixOutcome)
    ensures
        o == if !apply_safe_fixes || issue.safe_fix_action is None {
            FixOutcome::NotAttempted
        } else {
            match attempt {
                None => FixOutcome::NotAttempted,
                Some(Ok(())) => FixOutcome::Applied,
                Some(Err(_)) => FixOutcome::Failed,
            }
        },
        outcome_allowed(apply_safe_fixes, *issue, o),
{
    if fix_to_attempt(apply_safe_fixes, issue).is_none() {
        return FixOutcome::NotAttempted;
    }
    match attempt {
        None => FixOutcome::NotAttempted,
        Some(Ok(())) => FixOutcome::Applied,
        Some(Err(_)) => FixOutcome::Failed,
    }
}

pub open spec fn count_fixable(s: Seq<InternalIssue>) -> nat
    decreases s.len(),
{
    if s.len() == 0 {
        0
    } else {
        count_fixable(s.drop_last()) + if s.last().safe_fix_action is Some {
            1nat
        } else {
            0nat
        }
    }
}

pub open spec fn count_applied(s: Seq<FixOutcome>) -> nat
    decreases s.len(),
{
    if s.len() == 0 {
        0
    } else {
        count_applied(s.drop_last()) + if s.last() is Applied {
            1nat
        } else {
            0nat
        }
    }
}

proof fn lemma_counts(issues: Seq<InternalIssue>, outcomes: Seq<FixOutcome>, apply_safe_fixes: bool)
    requires
        outcomes.len() == issues.len(),
        forall|i: int| 0 <= i < issues.len() ==> outcome_allowed(apply_safe_fixes, #[trigger] issues[i], outcomes[i]),
    ensures
        count_applied(outcomes) <= count_fixable(issues) <= issues.len(),
        !apply_safe_fixes ==> count_applied(outcomes) == 0,
    decreases issues.len(),
{
    if issues.len() > 0 {
        let n = issues.len() - 1;
        assert(outcome_allowed(apply_safe_fixes, issues[n as int], outcomes[n as int]));
        assert forall|i: int| 0 <= i < issues.drop_last().len() implies outcome_allowed(
            apply_safe_fixes,
            #[trigger] issues.drop_last()[i],
            outcomes.drop_last()[i],
        ) by {
            assert(outcome_allowed(apply_safe_fixes, issues[i], outcomes[i]));
        }
        lemma_counts(issues.drop_last(), outcomes.drop_last(), apply_safe_fixes);
    }
}

/// A reconciliation fixes no more issues than have a safe fix, and no more
/// of those than it found; when fixes are not requested it fixes none.
pub proof fn fixes_stay_within_fixable(issues: Seq<InternalIssue>, outcomes: Seq<FixOutcome>, apply_safe_fixes: bool)
    requires
        outcomes.len() == issues.len(),
        forall|i: int| 0 <= i < issues.len() ==> outcome_allowed(apply_safe_fixes, #[trigger] issues[i], outcomes[i]),
    ensures
        count_applied(outcomes) <= count_fixable(issues) <= issues.len(),
        !apply_safe_fixes ==> count_applied(outcomes) == 0,
{
    lemma_counts(issues, outcomes, apply_safe_fixes);
}

/// The safe fix to attempt for an issue: its fix when fixes are requested.
pub fn fix_to_attempt(apply_safe_fixes: bool, issue: &InternalIssue) -> (r: Option<SafeFixAction>)
    ensures
        r == if apply_safe_fixes {
            issue.safe_fix_action
        } else {
            None
        },
{
    if apply_safe_fixes {
        issue.safe_fix_action
    } else {
        None
    }
}

/// The report of a run over `scanned` relocations: every issue found, marked
/// applied exactly when its fix succeeded, with the drift, fixable and fixed
/// counts.  A fix is attempted only for an issue that has one, so no more
/// issues are fixed than are fixable.
pub fn reconcile_result(
    trace_id: &str,
    observed_at: &str,
    scanned: usize,
    issues: Vec<InternalIssue>,
    outcomes: &Vec<FixOutcome>,
) -> (r: ReconcileResult)
    requires
        outcomes@.len() == issues@.len(),
        forall|i: int| 0 <= i < issues@.len() ==> outcome_allowed(true, #[trigger] issues@[i], outcomes@[i]),
    ensures
        r.fixed_count <= r.safe_fixable_count <= r.drift_count,
        r.trace_id@ == trace_id@,
        r.observed_at@ == observed_at@,
        r.scanned == scanned,
        r.drift_count == issues@.len(),
        r.safe_fixable_count == count_fixable(issues@),
        r.fixed_count == count_applied(outcomes@),
        r.issues@.len() == issues@.len(),
        forall|i: int|
            #![trigger r.issues@[i]]
            0 <= i < issues@.len() ==> {
                let a = r.issues@[i];
                let b = issues@[i].issue;
                &&& a.relocation_id == b.relocation_id
                &&& a.app_id == b.app_id
                &&& a.code == b.code
                &&& a.severity == b.severity
                &&& a.message == b.message
                &&& a.suggestion == b.suggestion
                &&& a.safe_fix_action == b.safe_fix_action
                &&& a.details == b.details
                &&& a.safe_fix_applied == (outcomes@[i] is Applied)
            },
{
    let ghost orig = issues@;
    proof {
        lemma_counts(issues@, outcomes@, true);
    }
    let n = issues.len();
    let mut issues = issues;
    let mut reversed: Vec<InternalIssue> = Vec::new();
    while issues.len() > 0
        invariant
            issues@.len() + reversed@.len() == orig.len(),
            forall|k: int| 0 <= k < issues@.len() ==> issues@[k] == orig[k],
            forall|k: int| 0 <= k < reversed@.len() ==> reversed@[k] == orig[orig.len() - 1 - k],
        decreases issues.len(),
    {
        let e = issues.pop().unwrap();
        reversed.push(e);
    }
    let mut out: Vec<ReconcileIssue> = Vec::new();
    let mut fixable: usize = 0;
    let mut fixed: usize = 0;
    let mut i: usize = 0;
    while i < n
        invariant
            i <= n,
            n == orig.len(),
            outcomes@.len() == n,
            reversed@.len() == n - i,
            forall|k: int| 0 <= k < reversed@.len() ==> reversed@[k] == orig[n - 1 - k],
            out@.len() == i,
            fixable <= i,
            fixed <= i,
            fixable == count_fixable(orig.take(i as int)),
            fixed == count_applied(outcomes@.take(i as int)),
            forall|j: int|
                #![trigger out@[j]]
                0 <= j < i ==> {
                    let a = out@[j];
                    let b = orig[j].issue;
                    &&& a.relocation_id == b.relocation_id
                    &&& a.app_id == b.app_id
                    &&& a.code == b.code
                    &&& a.severity == b.severity
                    &&& a.message == b.message
                    &&& a.suggestion == b.suggestion
                    &&& a.safe_fix_action == b.safe_fix_action
                    &&& a.details == b.details
                    &&& a.safe_fix_applied == (outcomes@[j] is Applied)
                },
        decreases n - i,
    {
        let internal = reversed.pop().unwrap();
        assert(internal == orig[i as int]);
        proof {
            assert(orig.take(i + 1).drop_last() =~= orig.take(i as int));
            assert(outcomes@.take(i + 1).drop_last() =~= outcomes@.take(i as int));
        }
        if internal.safe_fix_action.is_some() {
            fixable = fixable + 1;
        }
        let applied = match outcomes[i] {
            FixOutcome::Applied => true,
            _ => false,
        };
        if applied {
            fixed = fixed + 1;
        }
        let mut issue = internal.issue;
        issue.safe_fix_applied = applied;
        let ghost old_out = out@;
        out.push(issue);
        assert forall|j: int| #![trigger out@[j]] 0 <= j < i + 1 implies {
            let a = out@[j];
            let b = orig[j].issue;
            &&& a.relocation_id == b.relocation_id
            &&& a.app_id == b.app_id
            &&& a.code == b.code
            &&& a.severity == b.severity
            &&& a.message == b.message
            &&& a.suggestion == b.suggestion
            &&& a.safe_fix_action == b.safe_fix_action
            &&& a.details == b.details
            &&& a.safe_fix_applied == (outcomes@[j] is Applied)
        } by {
            if j < i {
                assert(out@[j] == old_out[j]);
            }
        }
        i = i + 1;
    }
    proof {
        assert(orig.take(n as int) =~= orig);
        assert(outcomes@.take(n as int) =~= outcomes@);
    }
    ReconcileResult {
        trace_id: owned(trace_id),
        observed_at: owned(observed_at),
        scanned,
        drift_count: n,
        safe_fixable_count: fixable,
        fixed_count: fixed,
        issues: out,
    }
}

/// The operation log entry written when an issue is detected.
pub fn detect_log(issue: &InternalIssue) -> (l: LogPlan)
    ensures
        l.stage@ == "health"@,
        l.step@ == "reconcile_detect"@,
        l.status@ == "failed"@,
        l.error_code == Some(issue.issue.code),
        l.message@ == issue.issue.message@,
        details_view(l.details) == seq![
            ("severity"@, Val::Text(issue.issue.severity@)),
            ("suggestion"@, Val::Text(issue.issue.suggestion@)),
            ("details"@, nested_view(details_view(issue.issue.details))),
        ],
{
    let inner = Details { fields: crate::models::copy_fields(&issue.issue.details.fields) };
    proof {
        lemma_object_view(inner);
        assert(details_view(inner) == details_view(issue.issue.details));
    }
    let d = Details {
        fields: vec![
            text_field("severity", &issue.issue.severity),
            text_field("suggestion", &issue.issue.suggestion),
            crate::models::DetailField { key: owned("details"), value: DetailValue::Object(inner.fields) },
        ],
    };
    assert(details_view(d) =~= seq![
        ("severity"@, Val::Text(issue.issue.severity@)),
        ("suggestion"@, Val::Text(issue.issue.suggestion@)),
        ("details"@, nested_view(details_view(issue.issue.details))),
    ]);
    log_plan("health", "reconcile_detect", "failed", Some(issue.issue.code.clone()), &issue.issue.message, d)
}

/// The operation log entry written after a safe fix was attempted.
pub fn fix_log(action: SafeFixAction, code: &str, error: Option<&str>) -> (l: LogPlan)
    ensures
        l.stage@ == "health"@,
        l.step@ == "reconcile_safe_fix"@,
        match error {
            None => {
                &&& l.status@ == "succeeded"@
                &&& l.error_code is None
                &&& l.message@ == "reconcile safe-fix applied."@
                &&& details_view(l.details) == seq![("action"@, Val::Text(action_name(action))), ("code"@, Val::Text(code@))]
            },
            Some(e) => {
                &&& l.status@ == "failed"@
                &&& l.error_code matches Some(c) && c@ == "HEALTH_METADATA_DRIFT"@
                &&& l.message@ == "reconcile safe-fix failed."@
                &&& details_view(l.details) == seq![
                    ("action"@, Val::Text(action_name(action))),
                    ("code"@, Val::Text(code@)),
                    ("error"@, Val::Text(e@)),
                ]
            },
        },
{
    let name = action.as_str();
    match error {
        None => log_plan(
            "health",
            "reconcile_safe_fix",
            "succeeded",
            None,
            "reconcile safe-fix applied.",
            details2("action", &name, "code", code),
        ),
        Some(e) => log_plan(
            "health",
            "reconcile_safe_fix",
            "failed",
            Some(owned("HEALTH_METADATA_DRIFT")),
            "reconcile safe-fix failed.",
            details3("action", &name, "code", code, "error", e),
        ),
    }
}

/// What a safe fix does besides its file-system step: the state change and
/// the snapshot it records.
#[derive(Debug)]
pub struct SafeFixPlan {
    pub cleanup_temp_path: Option<String>,
    pub recreate_source: bool,
    pub update: Option<StateUpdate>,
    pub snapshot: Option<SnapshotPlan>,
}

/// The steps of a safe fix of `record`.
pub fn safe_fix_plan(record: &RelocationRecord, action: SafeFixAction) -> (p: SafeFixPlan)
    ensures
        match action {
            SafeFixAction::CleanupTempPath => {
                &&& p.cleanup_temp_path matches Some(t) && t@ == temp_path_spec(record.target_path@, record.relocation_id@)
                &&& !p.recreate_source
                &&& p.update is None
                &&& p.snapshot is None
            },
            SafeFixAction::MarkHealthy => {
                &&& p.cleanup_temp_path is None
                &&& !p.recreate_source
                &&& p.update matches Some(u) && u.state@ == "HEALTHY"@ && u.health_state@ == "healthy"@
                    && u.last_error_code is None && u.completion is Keep
                &&& p.snapshot matches Some(s) && s.state@ == "healthy"@ && s.check_code@ == "HEALTH_RECONCILE_RESYNC_ACTIVE"@
            },
            SafeFixAction::MarkRolledBack => {
                &&& p.cleanup_temp_path is None
                &&& !p.recreate_source
                &&& p.update matches Some(u) && u.state@ == "ROLLED_BACK"@ && u.health_state@ == "healthy"@
                    && u.last_error_code is None && u.completion is Now
                &&& p.snapshot matches Some(s) && s.state@ == "healthy"@ && s.check_code@ == "HEALTH_RECONCILE_RESYNC_ROLLED_BACK"@
            },
            SafeFixAction::RecreateSourceAndMarkRolledBack => {
                &&& p.cleanup_temp_path is None
                &&& p.recreate_source
                &&& p.update matches Some(u) && u.state@ == "ROLLED_BACK"@ && u.health_state@ == "healthy"@
                    && u.last_error_code is None && u.completion is Now
                &&& p.snapshot matches Some(s) && s.state@ == "healthy"@ && s.check_code@
                    == "HEALTH_RECONCILE_RECREATE_SOURCE_ROLLED_BACK"@
            },
        },
{
    match action {
        SafeFixAction::CleanupTempPath => SafeFixPlan {
            cleanup_temp_path: Some(temp_path_for(&record.target_path, &record.relocation_id)),
            recreate_source: false,
            update: None,
            snapshot: None,
        },
        SafeFixAction::MarkHealthy => SafeFixPlan {
            cleanup_temp_path: None,
            recreate_source: false,
            update: Some(state_update("HEALTHY", "healthy", None, Completion::Keep)),
            snapshot: Some(
                snapshot_plan(
                    "healthy",
                    "HEALTH_RECONCILE_RESYNC_ACTIVE",
                    details1("message", "reconcile safe-fix resynced state to HEALTHY"),
                ),
            ),
        },
        SafeFixAction::MarkRolledBack => SafeFixPlan {
            cleanup_temp_path: None,
            recreate_source: false,
            update: Some(state_update("ROLLED_BACK", "healthy", None, Completion::Now)),
            snapshot: Some(
                snapshot_plan(
                    "healthy",
                    "HEALTH_RECONCILE_RESYNC_ROLLED_BACK",
                    details1("message", "reconcile safe-fix resynced state to ROLLED_BACK"),
                ),
            ),
        },
        SafeFixAction::RecreateSourceAndMarkRolledBack => {
            let d = Details {
                fields: vec![
                    text_field(
                        "message",
                        "reconcile safe-fix recreated empty source path and resynced state to ROLLED_BACK",
                    ),
                    text_field("source_path", &record.source_path),
                    crate::models::DetailField { key: owned("data_recovered"), value: DetailValue::Flag(false) },
                ],
            };
            SafeFixPlan {
                cleanup_temp_path: None,
                recreate_source: true,
                update: Some(state_update("ROLLED_BACK", "healthy", None, Completion::Now)),
                snapshot: Some(snapshot_plan("healthy", "HEALTH_RECONCILE_RECREATE_SOURCE_ROLLED_BACK", d)),
            }
        },
    }
}

/// What the source path is when a recreate-source fix inspects it.
#[derive(Debug)]
pub enum SourceEntry {
    Missing,
    Symlink,
    Directory,
    OtherEntry,
    Unreadable { error: String },
}

/// Whether the recreate-source fix may proceed, and whether it must create
/// the source directory: a missing source is created, an existing directory
/// is kept, anything else stops the fix with the reason.
pub fn recreate_source_check(entry: &SourceEntry) -> (r: Result<bool, String>)
    ensures
        match entry {
            SourceEntry::Missing => r == Ok::<bool, String>(true),
            SourceEntry::Directory => r == Ok::<bool, String>(false),
            SourceEntry::Symlink => r matches Err(e) && e@
                == "source path is symlink while recreate-source safe-fix expects directory."@,
            SourceEntry::OtherEntry => r matches Err(e) && e@
                == "source path exists but is not a directory for recreate-source safe-fix."@,
            SourceEntry::Unreadable { error } => r matches Err(e) && e@ == "inspect source path safe-fix failed: "@
                + error@,
        },
{
    match entry {
        SourceEntry::Missing => Ok(true),
        SourceEntry::Directory => Ok(false),
        SourceEntry::Symlink => Err(owned("source path is symlink while recreate-source safe-fix expects directory.")),
        SourceEntry::OtherEntry => Err(owned("source path exists but is not a directory for recreate-source safe-fix.")),
        SourceEntry::Unreadable { error } => Err(crate::text::join2("inspect source path safe-fix failed: ", error)),
    }
}

/// Every applied fix is a fix of an issue that has one.
pub open spec fn outcomes_consistent(issues: Seq<InternalIssue>, outcomes: Seq<FixOutcome>) -> bool {
    &&& issues.len() == outcomes.len()
    &&& forall|i: int| 0 <= i < issues.len() && !(outcomes[i] is NotAttempted) ==> issues[i].safe_fix_action is Some
}

/// A run never reports more fixed issues than fixable ones.
pub proof fn fixed_never_exceeds_fixable(issues: Seq<InternalIssue>, outcomes: Seq<FixOutcome>)
    requires
        outcomes_consistent(issues, outcomes),
    ensures
        count_applied(outcomes) <= count_fixable(issues),
    decreases issues.len(),
{
    if issues.len() > 0 {
        let i2 = issues.drop_last();
        let o2 = outcomes.drop_last();
        assert forall|i: int| 0 <= i < i2.len() && !(o2[i] is NotAttempted) implies i2[i].safe_fix_action is Some by {
            assert(o2[i] == outcomes[i]);
            assert(i2[i] == issues[i]);
        }
        fixed_never_exceeds_fixable(i2, o2);
    }
}

} // verus!
