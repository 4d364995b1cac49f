//! Health evaluation of active relocations: the verdict reached from what is
//! observed on disk, and the records a health check writes.

use crate::models::{details1, details2, details3, details_view, Details, HealthCheck, HealthStatus};
use crate::records::RelocationRecord;
use crate::text::{owned, str_eq};
use crate::models::Val;
use vstd::prelude::*;

verus! {

/// `std::path::Path` equality of two paths (component-wise).
pub uninterp spec fn same_path(a: Seq<char>, b: Seq<char>) -> bool;

/// `Path::new(a) == Path::new(b)`.
#[verifier::external_body]
pub(crate) fn paths_equal(a: &str, b: &str) -> (r: bool)
    ensures
        r == same_path(a@, b@),
{
    std::path::Path::new(a) == std::path::Path::new(b)
}

/// The verdict of a health evaluation.
#[derive(Debug)]
pub struct HealthEvaluation {
    pub state: String,
    pub check_code: String,
    pub message: String,
    pub details: Details,
}

/// What the source path of a relocation is.
#[derive(Debug)]
pub enum SourceObservation {
    /// No entry at the source path.
    Missing { error: String },
    /// An entry that is not a symbolic link.
    NotSymlink,
    /// A symbolic link whose target could not be read.
    LinkUnreadable { error: String },
    /// A symbolic link to `target` (made absolute against the source's parent).
    Link { target: String },
}

/// What the target path of a relocation is.
#[derive(Debug)]
pub enum TargetObservation {
    Missing { error: String },
    NotDirectory,
    Directory,
}

/// Outcome of writing and removing a probe file in the target directory.
#[derive(Debug)]
pub enum ProbeObservation {
    Written,
    CreateDenied { error: String },
    CreateFailed { error: String },
    WriteFailed { error: String },
    CleanupFailed { probe_file: String, error: String },
}

/// What has been observed so far of one relocation.
#[derive(Debug)]
pub struct HealthObservation {
    pub source: SourceObservation,
    pub target_root_is_dir: Option<bool>,
    pub target: Option<TargetObservation>,
    pub probe: Option<ProbeObservation>,
}

/// The next step of a health evaluation.
#[derive(Debug)]
pub enum HealthStep {
    Verdict(HealthEvaluation),
    InspectTargetRoot,
    InspectTarget,
    RunProbe,
}

pub enum HealthOutcome {
    Verdict {
        state: Seq<char>,
        code: Seq<char>,
        message: Seq<char>,
        details: Seq<(Seq<char>, Val)>,
    },
    InspectTargetRoot,
    InspectTarget,
    RunProbe,
}

pub open spec fn verdict(
    state: Seq<char>,
    code: Seq<char>,
    message: Seq<char>,
    details: Seq<(Seq<char>, Val)>,
) -> HealthOutcome {
    HealthOutcome::Verdict { state, code, message, details }
}

/// Whether the source's link points at the recorded target (as paths); true
/// when the source is no link.
pub open spec fn link_matches(r: RelocationRecord, o: HealthObservation) -> bool {
    match o.source {
        SourceObservation::Link { target } => same_path(target@, r.target_path@),
        _ => true,
    }
}

/// The health verdict of a relocation given what is observed, checking in
/// order: the source is a link, the link points at the recorded target, the
/// target disk is present, the target is a directory, and a probe file can be
/// written and removed there.
pub open spec fn health_outcome(r: RelocationRecord, o: HealthObservation) -> HealthOutcome {
    health_outcome_given(r, o, link_matches(r, o))
}

/// The health verdict when `linked_to_target` tells whether the source's
/// link points at the recorded target.
pub open spec fn health_outcome_given(r: RelocationRecord, o: HealthObservation, linked_to_target: bool) -> HealthOutcome {
    let src = ("source_path"@, Val::Text(r.source_path@));
    match o.source {
        SourceObservation::Missing { error } => verdict(
            "broken"@,
            "HEALTH_SYMLINK_MISSING"@,
            "source path symlink missing."@,
            seq![src, ("error"@, Val::Text(error@))],
        ),
        SourceObservation::NotSymlink => verdict(
            "broken"@,
            "HEALTH_SYMLINK_MISSING"@,
            "source path is not a symlink."@,
            seq![src],
        ),
        SourceObservation::LinkUnreadable { error } => verdict(
            "broken"@,
            "HEALTH_SYMLINK_MISSING"@,
            "failed to resolve source symlink."@,
            seq![src, ("error"@, Val::Text(error@))],
        ),
        SourceObservation::Link { target } => if !linked_to_target {
            verdict(
                "degraded"@,
                "HEALTH_METADATA_DRIFT"@,
                "symlink target differs from relocation metadata."@,
                seq![src, ("linked_target"@, Val::Text(target@)), ("expected_target"@, Val::Text(r.target_path@))],
            )
        } else {
            match o.target_root_is_dir {
                None => HealthOutcome::InspectTargetRoot,
                Some(false) => verdict(
                    "degraded"@,
                    "HEALTH_DISK_OFFLINE"@,
                    "target disk appears offline or not mounted."@,
                    seq![("target_root"@, Val::Text(r.target_root@))],
                ),
                Some(true) => match o.target {
                    None => HealthOutcome::InspectTarget,
                    Some(TargetObservation::Missing { error }) => verdict(
                        "broken"@,
                        "HEALTH_TARGET_MISSING"@,
                        "target path is missing."@,
                        seq![("target_path"@, Val::Text(r.target_path@)), ("error"@, Val::Text(error@))],
                    ),
                    Some(TargetObservation::NotDirectory) => verdict(
                        "broken"@,
                        "HEALTH_TARGET_MISSING"@,
                        "target path is not a directory."@,
                        seq![("target_path"@, Val::Text(r.target_path@))],
                    ),
                    Some(TargetObservation::Directory) => match o.probe {
                        None => HealthOutcome::RunProbe,
                        Some(ProbeObservation::CreateDenied { error }) => verdict(
                            "degraded"@,
                            "HEALTH_TARGET_READONLY"@,
                            "target path is read-only for health probe."@,
                            seq![("target_path"@, Val::Text(r.target_path@)), ("error"@, Val::Text(error@))],
                        ),
                        Some(ProbeObservation::CreateFailed { error }) => verdict(
                            "degraded"@,
                            "HEALTH_RW_PROBE_FAILED"@,
                            "failed to create health probe file."@,
                            seq![("target_path"@, Val::Text(r.target_path@)), ("error"@, Val::Text(error@))],
                        ),
                        Some(ProbeObservation::WriteFailed { error }) => verdict(
                            "degraded"@,
                            "HEALTH_RW_PROBE_FAILED"@,
                            "failed to write health probe file."@,
                            seq![("target_path"@, Val::Text(r.target_path@)), ("error"@, Val::Text(error@))],
                        ),
                        Some(ProbeObservation::CleanupFailed { probe_file, error }) => verdict(
                            "degraded"@,
                            "HEALTH_RW_PROBE_FAILED"@,
                            "failed to clean health probe file."@,
                            seq![("probe_file"@, Val::Text(probe_file@)), ("error"@, Val::Text(error@))],
                        ),
                        Some(ProbeObservation::Written) => verdict(
                            "healthy"@,
                            "HEALTH_RW_PROBE_OK"@,
                            "symlink and rw probe are healthy."@,
                            seq![src, ("target_path"@, Val::Text(r.target_path@))],
                        ),
                    },
                },
            }
        },
    }
}

/// A relocation is judged healthy only when everything was checked and
/// passed: its source is a link to the recorded target, the target disk is
/// mounted, the target is a directory, and the probe file was written and
/// removed there.  A verdict is healthy exactly when its check is
/// `HEALTH_RW_PROBE_OK`; every other verdict (a failed or refused probe, a
/// read-only target, an offline disk, a missing link or target) is degraded
/// or broken.
pub proof fn healthy_only_after_probe(r: RelocationRecord, o: HealthObservation, linked_to_target: bool)
    ensures
        health_outcome_given(r, o, linked_to_target) matches HealthOutcome::Verdict { state, code, .. } ==> {
            &&& (state == "healthy"@) == (code == "HEALTH_RW_PROBE_OK"@)
            &&& state == "healthy"@ || state == "degraded"@ || state == "broken"@
            &&& state == "healthy"@ ==> (o.source is Link && linked_to_target && o.target_root_is_dir == Some(true)
                && (o.target matches Some(TargetObservation::Directory)) && (o.probe matches Some(
                ProbeObservation::Written,
            )))
            &&& (o.probe matches Some(p) && !(p is Written)) ==> state != "healthy"@
        },
{
    reveal_strlit("healthy");
    reveal_strlit("degraded");
    reveal_strlit("broken");
    reveal_strlit("HEALTH_RW_PROBE_OK");
    reveal_strlit("HEALTH_TARGET_READONLY");
    reveal_strlit("HEALTH_RW_PROBE_FAILED");
    reveal_strlit("HEALTH_DISK_OFFLINE");
    reveal_strlit("HEALTH_METADATA_DRIFT");
    reveal_strlit("HEALTH_SYMLINK_MISSING");
    reveal_strlit("HEALTH_TARGET_MISSING");
    assert("healthy"@.len() == 7 && "degraded"@.len() == 8 && "broken"@.len() == 6);
    assert("HEALTH_RW_PROBE_OK"@.len() == 18);
    assert("HEALTH_TARGET_READONLY"@.len() != 18 && "HEALTH_RW_PROBE_FAILED"@.len() != 18);
    assert("HEALTH_DISK_OFFLINE"@.len() != 18 && "HEALTH_METADATA_DRIFT"@.len() != 18);
    assert("HEALTH_SYMLINK_MISSING"@.len() != 18 && "HEALTH_TARGET_MISSING"@.len() != 18);
}

pub open spec fn step_view(s: HealthStep) -> HealthOutcome {
    match s {
        HealthStep::Verdict(e) => verdict(e.state@, e.check_code@, e.message@, details_view(e.details)),
        HealthStep::InspectTargetRoot => HealthOutcome::InspectTargetRoot,
        HealthStep::InspectTarget => HealthOutcome::InspectTarget,
        HealthStep::RunProbe => HealthOutcome::RunProbe,
    }
}

fn eval(state: &str, code: &str, message: &str, details: Details) -> (e: HealthEvaluation)
    ensures
        e.state@ == state@,
        e.check_code@ == code@,
        e.message@ == message@,
        e.details == details,
{
    HealthEvaluation { state: owned(state), check_code: owned(code), message: owned(message), details }
}

/// The next step, or the verdict, of the health evaluation of `record`.
pub fn evaluate_health(record: &RelocationRecord, obs: &HealthObservation) -> (s: HealthStep)
    ensures
        step_view(s) == health_outcome(*record, *obs),
{
    let linked_to_target = match &obs.source {
        SourceObservation::Link { target } => paths_equal(target, &record.target_path),
        _ => true,
    };
    health_step(record, obs, linked_to_target)
}

/// The next step, or the verdict, of the health evaluation of `record`, when
/// `linked_to_target` tells whether the source's link points at the recorded
/// target.
pub fn health_step(record: &RelocationRecord, obs: &HealthObservation, linked_to_target: bool) -> (s: HealthStep)
    ensures
        step_view(s) == health_outcome_given(*record, *obs, linked_to_target),
{
    let src = record.source_path.as_str();
    match &obs.source {
        SourceObservation::Missing { error } => {
            return HealthStep::Verdict(
                eval(
                    "broken",
                    "HEALTH_SYMLINK_MISSING",
                    "source path symlink missing.",
                    details2("source_path", src, "error", error),
                ),
            );
        },
        SourceObservation::NotSymlink => {
            return HealthStep::Verdict(
                eval(
                    "broken",
                    "HEALTH_SYMLINK_MISSING",
                    "source path is not a symlink.",
                    details1("source_path", src),
                ),
            );
        },
        SourceObservation::LinkUnreadable { error } => {
            return HealthStep::Verdict(
                eval(
                    "broken",
                    "HEALTH_SYMLINK_MISSING",
                    "failed to resolve source symlink.",
                    details2("source_path", src, "error", error),
                ),
            );
        },
        SourceObservation::Link { target } => {
            if !linked_to_target {
                return HealthStep::Verdict(
                    eval(
                        "degraded",
                        "HEALTH_METADATA_DRIFT",
                        "symlink target differs from relocation metadata.",
                        details3(
                            "source_path",
                            src,
                            "linked_target",
                            target,
                            "expected_target",
                            &record.target_path,
                        ),
                    ),
                );
            }
        },
    }
    match obs.target_root_is_dir {
        None => {
            return HealthStep::InspectTargetRoot;
        },
        Some(false) => {
            return HealthStep::Verdict(
                eval(
                    "degraded",
                    "HEALTH_DISK_OFFLINE",
                    "target disk appears offline or not mounted.",
                    details1("target_root", &record.target_root),
                ),
            );
        },
        Some(true) => {},
    }
    let tp = record.target_path.as_str();
    match &obs.target {
        None => {
            return HealthStep::InspectTarget;
        },
        Some(TargetObservation::Missing { error }) => {
            return HealthStep::Verdict(
                eval(
                    "broken",
                    "HEALTH_TARGET_MISSING",
                    "target path is missing.",
                    details2("target_path", tp, "error", error),
                ),
            );
        },
        Some(TargetObservation::NotDirectory) => {
            return HealthStep::Verdict(
                eval(
                    "broken",
                    "HEALTH_TARGET_MISSING",
                    "target path is not a directory.",
                    details1("target_path", tp),
                ),
            );
        },
        Some(TargetObservation::Directory) => {},
    }
    match &obs.probe {
        None => HealthStep::RunProbe,
        Some(ProbeObservation::CreateDenied { error }) => HealthStep::Verdict(
            eval(
                "degraded",
                "HEALTH_TARGET_READONLY",
                "target path is read-only for health probe.",
                details2("target_path", tp, "error", error),
            ),
        ),
        Some(ProbeObservation::CreateFailed { error }) => HealthStep::Verdict(
            eval(
                "degraded",
                "HEALTH_RW_PROBE_FAILED",
                "failed to create health probe file.",
                details2("target_path", tp, "error", error),
            ),
        ),
        Some(ProbeObservation::WriteFailed { error }) => HealthStep::Verdict(
            eval(
                "degraded",
                "HEALTH_RW_PROBE_FAILED",
                "failed to write health probe file.",
                details2("target_path", tp, "error", error),
            ),
        ),
        Some(ProbeObservation::CleanupFailed { probe_file, error }) => HealthStep::Verdict(
            eval(
                "degraded",
                "HEALTH_RW_PROBE_FAILED",
                "failed to clean health probe file.",
                details2("probe_file", probe_file, "error", error),
            ),
        ),
        Some(ProbeObservation::Written) => HealthStep::Verdict(
            eval(
                "healthy",
                "HEALTH_RW_PROBE_OK",
                "symlink and rw probe are healthy.",
                details2("source_path", src, "target_path", tp),
            ),
        ),
    }
}

/// Relocation state recorded for a health state.
pub open spec fn relocation_state_for(health: Seq<char>) -> Seq<char> {
    if health == "healthy"@ {
        "HEALTHY"@
    } else if health == "broken"@ {
        "BROKEN"@
    } else {
        "DEGRADED"@
    }
}

/// Only a healthy verdict records a relocation as `HEALTHY`, and only a
/// broken one as `BROKEN`; any other verdict records it as `DEGRADED`.
pub proof fn relocation_state_follows_health(health: Seq<char>)
    ensures
        (relocation_state_for(health) == "HEALTHY"@) == (health == "healthy"@),
        (relocation_state_for(health) == "BROKEN"@) == (health == "broken"@),
        (relocation_state_for(health) == "DEGRADED"@) == (health != "healthy"@ && health != "broken"@),
{
    reveal_strlit("HEALTHY");
    reveal_strlit("BROKEN");
    reveal_strlit("DEGRADED");
    reveal_strlit("healthy");
    reveal_strlit("broken");
    assert("HEALTHY"@.len() == 7 && "BROKEN"@.len() == 6 && "DEGRADED"@.len() == 8);
    assert("healthy"@.len() == 7 && "broken"@.len() == 6);
}

pub fn relocation_state_from_health(health_state: &str) -> (r: String)
    ensures
        r@ == relocation_state_for(health_state@),
{
    if str_eq(health_state, "healthy") {
        owned("HEALTHY")
    } else if str_eq(health_state, "broken") {
        owned("BROKEN")
    } else {
        owned("DEGRADED")
    }
}

/// What one health check of one relocation records: the relocation's new
/// state, a snapshot, optionally an operation log entry, and the reported
/// status.
#[derive(Debug)]
pub struct HealthRecordPlan {
    pub relocation_id: String,
    pub relocation_state: String,
    pub health_state: String,
    pub error_code: Option<String>,
    pub check_code: String,
    pub message: String,
    pub details: Details,
    pub observed_at: String,
    /// Stage and step of the operation log entry, when one is written.
    pub log_stage: String,
    pub log_step: String,
    pub log_status: Option<String>,
    pub status: HealthStatus,
}

/// `p` holds the records written for `record` after its evaluation: state
/// and health state, the failing check code unless healthy, (when logging) a
/// log entry marked `succeeded` or `failed`, and the reported status with its
/// one check.
pub open spec fn is_record_plan(
    p: HealthRecordPlan,
    record: RelocationRecord,
    evaluation: HealthEvaluation,
    observed_at: Seq<char>,
    write_operation_logs: bool,
) -> bool {
    let healthy = evaluation.state@ == "healthy"@;
    &&& p.relocation_id@ == record.relocation_id@
    &&& p.health_state@ == evaluation.state@
    &&& p.relocation_state@ == relocation_state_for(evaluation.state@)
    &&& p.error_code == if healthy {
        None::<String>
    } else {
        Some(evaluation.check_code)
    }
    &&& p.check_code@ == evaluation.check_code@
    &&& p.message@ == evaluation.message@
    &&& p.details == evaluation.details
    &&& p.observed_at@ == observed_at
    &&& p.log_stage@ == "health"@
    &&& p.log_step@ == "evaluate_relocation"@
    &&& !write_operation_logs ==> p.log_status is None
    &&& write_operation_logs ==> (p.log_status matches Some(s) && s@ == if healthy {
        "succeeded"@
    } else {
        "failed"@
    })
    &&& p.status.relocation_id@ == record.relocation_id@
    &&& p.status.app_id@ == record.app_id@
    &&& p.status.state@ == evaluation.state@
    &&& p.status.observed_at@ == observed_at
    &&& p.status.checks@.len() == 1
    &&& p.status.checks@[0].code@ == evaluation.check_code@
    &&& p.status.checks@[0].ok == healthy
    &&& p.status.checks@[0].message@ == evaluation.message@
}

/// The records written for `record` after its evaluation.
pub fn health_record_plan(
    record: &RelocationRecord,
    evaluation: HealthEvaluation,
    observed_at: &str,
    write_operation_logs: bool,
) -> (p: HealthRecordPlan)
    ensures
        is_record_plan(p, *record, evaluation, observed_at@, write_operation_logs),
{
    let is_ok = str_eq(&evaluation.state, "healthy");
    let relocation_state = relocation_state_from_health(&evaluation.state);
    let error_code = if is_ok {
        None
    } else {
        Some(evaluation.check_code.clone())
    };
    let log_status = if write_operation_logs {
        if is_ok {
            Some(owned("succeeded"))
        } else {
            Some(owned("failed"))
        }
    } else {
        None
    };
    let status = HealthStatus {
        relocation_id: record.relocation_id.clone(),
        app_id: record.app_id.clone(),
        state: evaluation.state.clone(),
        checks: vec![
            HealthCheck {
                code: evaluation.check_code.clone(),
                ok: is_ok,
                message: evaluation.message.clone(),
            },
        ],
        observed_at: owned(observed_at),
    };
    HealthRecordPlan {
        relocation_id: record.relocation_id.clone(),
        relocation_state,
        health_state: evaluation.state,
        error_code,
        check_code: evaluation.check_code,
        message: evaluation.message,
        details: evaluation.details,
        observed_at: owned(observed_at),
        log_stage: owned("health"),
        log_step: owned("evaluate_relocation"),
        log_status,
        status,
    }
}

/// A health check over monitored relocations: one plan per relocation and
/// evaluation, in order.
pub fn run_health_check(
    records: &Vec<RelocationRecord>,
    evaluations: Vec<HealthEvaluation>,
    observed_at: &Vec<String>,
    write_operation_logs: bool,
) -> (plans: Vec<HealthRecordPlan>)
    requires
        evaluations@.len() == records@.len(),
        observed_at@.len() == records@.len(),
    ensures
        plans@.len() == records@.len(),
        forall|i: int|
            #![trigger plans@[i]]
            0 <= i < plans@.len() ==> is_record_plan(
                plans@[i],
                records@[i],
                evaluations@[i],
                observed_at@[i]@,
                write_operation_logs,
            ),
{
    let ghost evs = evaluations@;
    let mut rest = evaluations;
    let mut plans: Vec<HealthRecordPlan> = Vec::new();
    let n = records.len();
    let mut i: usize = 0;
    while i < n
        invariant
            i <= n,
            n == records@.len(),
            n == evs.len(),
            observed_at@.len() == n,
            rest@ == evs.skip(i as int),
            plans@.len() == i,
            forall|j: int|
                #![trigger plans@[j]]
                0 <= j < i ==> is_record_plan(plans@[j], records@[j], evs[j], observed_at@[j]@, write_operation_logs),
        decreases n - i,
    {
        let e = rest.remove(0);
        assert(e == evs[i as int]);
        assert(rest@ =~= evs.skip(i + 1));
        let p = health_record_plan(&records[i], e, &observed_at[i], write_operation_logs);
        plans.push(p);
        i = i + 1;
    }
    plans
}

} // verus!
