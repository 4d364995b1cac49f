//! Startup recovery of relocations left unfinished: how each one is resolved
//! from what is found on disk, what is recorded for it, and the tally.

use crate::fsops::{err_is, switch_error, BootstrapSwitchOutcome, SwitchError};
use crate::models::{details1, details2, details3, details4, details_view};
use crate::paths::{backup_path_spec, backup_path_for, temp_path_spec, temp_path_for};
use crate::plans::{log_plan, snapshot_plan, state_update, Completion, LogPlan, SnapshotPlan, StateUpdate};
use crate::records::{unfinished_state, RelocationRecord};
use crate::text::{join2, owned, str_eq};
use crate::models::Val;
use vstd::prelude::*;

verus! {

/// Counts of a recovery run.
#[derive(Debug)]
pub struct RecoverySummary {
    pub total: usize,
    pub healthy: usize,
    pub rolled_back: usize,
    pub failed: usize,
}

impl Default for RecoverySummary {
    fn default() -> (s: Self)
        ensures
            s.total == 0,
            s.healthy == 0,
            s.rolled_back == 0,
            s.failed == 0,
    {
        RecoverySummary { total: 0, healthy: 0, rolled_back: 0, failed: 0 }
    }
}

/// The two relocation modes that recovery knows.
#[derive(Clone, Copy, Debug)]
pub enum RecoveryKind {
    Bootstrap,
    Migrate,
}

/// How a recovered relocation ended.
#[derive(Clone, Copy, Debug)]
pub enum RecoveryOutcome {
    /// The link was in place: the relocation is healthy.
    Healthy,
    /// The relocation was undone.
    RolledBack,
}

/// A successful recovery and its message.
#[derive(Debug)]
pub struct RecoveryResolution {
    pub outcome: RecoveryOutcome,
    pub message: String,
}

pub open spec fn unsupported_mode(mode: Seq<char>) -> bool {
    mode != "bootstrap"@ && mode != "migrate"@
}

/// The recovery kind of a relocation mode; other modes cannot be recovered.
pub fn recovery_kind(mode: &str) -> (r: Result<RecoveryKind, SwitchError>)
    ensures
        mode@ == "bootstrap"@ ==> r == Ok::<RecoveryKind, SwitchError>(RecoveryKind::Bootstrap),
        mode@ == "migrate"@ ==> r == Ok::<RecoveryKind, SwitchError>(RecoveryKind::Migrate),
        unsupported_mode(mode@) ==> (r matches Err(e) && err_is(
            e,
            "ROLLBACK_METADATA_RESTORE_FAILED"@,
            "unsupported relocation mode in recovery."@,
            true,
            seq![("mode"@, Val::Text(mode@))],
        )),
{
    proof {
        reveal_strlit("bootstrap");
        reveal_strlit("migrate");
        assert("bootstrap"@[0] != "migrate"@[0]);
    }
    if str_eq(mode, "bootstrap") {
        Ok(RecoveryKind::Bootstrap)
    } else if str_eq(mode, "migrate") {
        Ok(RecoveryKind::Migrate)
    } else {
        Err(
            switch_error(
                "ROLLBACK_METADATA_RESTORE_FAILED",
                "unsupported relocation mode in recovery.",
                true,
                details1("mode", mode),
            ),
        )
    }
}

/// The log entry written when the recovery of a relocation starts.
pub fn recovery_started_log(record: &RelocationRecord) -> (l: LogPlan)
    ensures
        l.stage@ == "rollback"@,
        l.step@ == "recovery_reconcile"@,
        l.status@ == "started"@,
        l.error_code is None,
        l.message@ == "startup recovery started"@,
        details_view(l.details) == seq![
            ("mode"@, Val::Text(record.mode@)),
            ("state"@, Val::Text(record.state@)),
            ("source_path"@, Val::Text(record.source_path@)),
            ("target_path"@, Val::Text(record.target_path@)),
        ],
{
    let d = details4(
        "mode",
        record.mode.as_str(),
        "state",
        record.state.as_str(),
        "source_path",
        record.source_path.as_str(),
        "target_path",
        record.target_path.as_str(),
    );
    log_plan("rollback", "recovery_reconcile", "started", None, "startup recovery started", d)
}

/// The resolution when the link of an unfinished relocation is in place.
pub fn recovered_healthy(kind: RecoveryKind) -> (r: RecoveryResolution)
    ensures
        r.outcome is Healthy,
        r.message@ == match kind {
            RecoveryKind::Bootstrap => "Recovered unfinished bootstrap into healthy state."@,
            RecoveryKind::Migrate => "Recovered unfinished migrate into healthy state."@,
        },
{
    let message = match kind {
        RecoveryKind::Bootstrap => "Recovered unfinished bootstrap into healthy state.",
        RecoveryKind::Migrate => "Recovered unfinished migrate into healthy state.",
    };
    RecoveryResolution { outcome: RecoveryOutcome::Healthy, message: owned(message) }
}

/// The first step of recovering a bootstrap relocation.
#[derive(Debug)]
pub enum BootstrapRecoveryStep {
    /// The source is a link and the target exists.
    Healthy,
    /// Undo the switch, taking as changed what the paths show.
    Rollback(BootstrapSwitchOutcome),
}

/// A bootstrap relocation whose source is a link to an existing target is
/// healthy; otherwise the switch is undone, as if the source placeholder had
/// been removed when the source is missing and the target created when it
/// exists.
pub fn bootstrap_recovery_start(source_is_symlink: bool, source_exists: bool, target_exists: bool) -> (s:
    BootstrapRecoveryStep)
    ensures
        source_is_symlink && target_exists ==> (s is Healthy),
        !(source_is_symlink && target_exists) ==> (s matches BootstrapRecoveryStep::Rollback(o)
            && o.source_placeholder_removed == !source_exists && o.target_dir_created == target_exists),
{
    if source_is_symlink && target_exists {
        BootstrapRecoveryStep::Healthy
    } else {
        BootstrapRecoveryStep::Rollback(
            BootstrapSwitchOutcome { source_placeholder_removed: !source_exists, target_dir_created: target_exists },
        )
    }
}

/// The error of a failed rollback during recovery: the rollback's error with
/// its message prefixed by the mode.
pub fn rollback_recovery_failed(kind: RecoveryKind, err: SwitchError) -> (e: SwitchError)
    ensures
        e.code@ == err.code@,
        e.retryable == err.retryable,
        e.details == err.details,
        e.message@ == match kind {
            RecoveryKind::Bootstrap => "bootstrap rollback recovery failed: "@,
            RecoveryKind::Migrate => "migrate rollback recovery failed: "@,
        } + err.message@,
{
    let prefix = match kind {
        RecoveryKind::Bootstrap => "bootstrap rollback recovery failed: ",
        RecoveryKind::Migrate => "migrate rollback recovery failed: ",
    };
    let message = join2(prefix, err.message.as_str());
    SwitchError { code: err.code, message, retryable: err.retryable, details: err.details }
}

/// The end of a bootstrap recovery after its rollback: `recreate` is the
/// result of recreating a still missing source directory, `None` when the
/// source was present.
pub fn bootstrap_recovery_finish(source_path: &str, recreate: &Option<Result<(), String>>) -> (r: Result<
    RecoveryResolution,
    SwitchError,
>)
    ensures
        match *recreate {
            Some(Err(error)) => r matches Err(e) && err_is(
                e,
                "ROLLBACK_RESTORE_BACKUP_FAILED"@,
                "failed to recreate source path in bootstrap recovery."@,
                false,
                seq![("source_path"@, Val::Text(source_path@)), ("error"@, Val::Text(error@))],
            ),
            _ => r matches Ok(res) && (res.outcome is RolledBack) && res.message@
                == "Recovered unfinished bootstrap by rollback cleanup."@,
        },
{
    match recreate {
        Some(Err(error)) => Err(
            switch_error(
                "ROLLBACK_RESTORE_BACKUP_FAILED",
                "failed to recreate source path in bootstrap recovery.",
                false,
                details2("source_path", source_path, "error", error.as_str()),
            ),
        ),
        _ => Ok(
            RecoveryResolution {
                outcome: RecoveryOutcome::RolledBack,
                message: owned("Recovered unfinished bootstrap by rollback cleanup."),
            },
        ),
    }
}

/// Backup and temporary paths of a migrate relocation under recovery.
#[derive(Debug)]
pub struct MigrateRecoveryPaths {
    pub backup_path: String,
    pub temp_path: String,
}

/// The recorded backup path (or `<source>.bak`) and the temporary copy path.
pub fn migrate_recovery_paths(record: &RelocationRecord) -> (p: MigrateRecoveryPaths)
    ensures
        p.backup_path@ == match record.backup_path {
            Some(b) => b@,
            None => backup_path_spec(record.source_path@),
        },
        p.temp_path@ == temp_path_spec(record.target_path@, record.relocation_id@),
{
    let backup_path = match &record.backup_path {
        Some(b) => b.clone(),
        None => backup_path_for(record.source_path.as_str()),
    };
    MigrateRecoveryPaths {
        backup_path,
        temp_path: temp_path_for(record.target_path.as_str(), record.relocation_id.as_str()),
    }
}

/// The first step of recovering a migrate relocation.
#[derive(Debug)]
pub enum MigrateRecoveryStep {
    Healthy,
    Rollback,
}

pub open spec fn migrate_ambiguous(
    source_exists: bool,
    target_exists: bool,
    backup_exists: bool,
    temp_exists: bool,
) -> bool {
    source_exists && target_exists && !backup_exists && !temp_exists
}

/// Startup recovery of a migrate relocation refuses to guess only when both
/// copies of the data are present: the source and the target both exist and
/// neither a backup nor a temporary copy does.  With the target missing, the
/// source missing, or a backup or temporary copy present, it rolls back.
pub proof fn ambiguous_only_with_source_and_target(
    source_exists: bool,
    target_exists: bool,
    backup_exists: bool,
    temp_exists: bool,
)
    ensures
        migrate_ambiguous(source_exists, target_exists, backup_exists, temp_exists) ==> source_exists && target_exists,
        !target_exists ==> !migrate_ambiguous(source_exists, target_exists, backup_exists, temp_exists),
        !source_exists ==> !migrate_ambiguous(source_exists, target_exists, backup_exists, temp_exists),
        backup_exists || temp_exists ==> !migrate_ambiguous(source_exists, target_exists, backup_exists, temp_exists),
        source_exists && target_exists && !backup_exists && !temp_exists ==> migrate_ambiguous(
            source_exists,
            target_exists,
            backup_exists,
            temp_exists,
        ),
{
}

/// A migrate relocation whose source is a link to an existing target is
/// healthy; one whose source and target both exist with neither a backup nor
/// a temporary copy cannot be resolved safely; any other is rolled back.
pub fn migrate_recovery_start(
    record: &RelocationRecord,
    source_is_symlink: bool,
    source_exists: bool,
    target_exists: bool,
    backup_exists: bool,
    temp_exists: bool,
) -> (r: Result<MigrateRecoveryStep, SwitchError>)
    ensures
        source_is_symlink && target_exists ==> (r matches Ok(s) && (s is Healthy)),
        !(source_is_symlink && target_exists) && migrate_ambiguous(source_exists, target_exists, backup_exists, temp_exists)
            ==> (r matches Err(e) && err_is(
            e,
            "HEALTH_METADATA_DRIFT"@,
            "ambiguous migrate recovery state: source and target both exist without backup."@,
            false,
            seq![("source_path"@, Val::Text(record.source_path@)), ("target_path"@, Val::Text(record.target_path@))],
        )),
        !(source_is_symlink && target_exists) && !migrate_ambiguous(source_exists, target_exists, backup_exists, temp_exists)
            ==> (r matches Ok(s) && (s is Rollback)),
        r is Err ==> source_exists && target_exists && !backup_exists && !temp_exists,
        !target_exists ==> (r matches Ok(s) && (s is Rollback)),
{
    if source_is_symlink && target_exists {
        return Ok(MigrateRecoveryStep::Healthy);
    }
    if source_exists && target_exists && !backup_exists && !temp_exists {
        return Err(
            switch_error(
                "HEALTH_METADATA_DRIFT",
                "ambiguous migrate recovery state: source and target both exist without backup.",
                false,
                details2("source_path", record.source_path.as_str(), "target_path", record.target_path.as_str()),
            ),
        );
    }
    Ok(MigrateRecoveryStep::Rollback)
}

/// The end of a migrate recovery after its rollback: the source must be back.
pub fn migrate_recovery_finish(record: &RelocationRecord, backup_path: &str, source_exists: bool) -> (r: Result<
    RecoveryResolution,
    SwitchError,
>)
    ensures
        source_exists ==> (r matches Ok(res) && (res.outcome is RolledBack) && res.message@
            == "Recovered unfinished migrate by rollback cleanup."@),
        !source_exists ==> (r matches Err(e) && err_is(
            e,
            "ROLLBACK_RESTORE_BACKUP_FAILED"@,
            "source path still missing after migrate rollback recovery."@,
            false,
            seq![
                ("source_path"@, Val::Text(record.source_path@)),
                ("target_path"@, Val::Text(record.target_path@)),
                ("backup_path"@, Val::Text(backup_path@)),
            ],
        )),
{
    if !source_exists {
        return Err(
            switch_error(
                "ROLLBACK_RESTORE_BACKUP_FAILED",
                "source path still missing after migrate rollback recovery.",
                false,
                details3(
                    "source_path",
                    record.source_path.as_str(),
                    "target_path",
                    record.target_path.as_str(),
                    "backup_path",
                    backup_path,
                ),
            ),
        );
    }
    Ok(
        RecoveryResolution {
            outcome: RecoveryOutcome::RolledBack,
            message: owned("Recovered unfinished migrate by rollback cleanup."),
        },
    )
}

/// What is written for a recovered (or failed) relocation.
#[derive(Debug)]
pub struct RecoveryRecords {
    pub update: StateUpdate,
    pub log: LogPlan,
    pub snapshot: SnapshotPlan,
}

/// The state, health and snapshot code of a recovery's result.
pub open spec fn recovery_state(r: Result<RecoveryResolution, SwitchError>) -> Seq<char> {
    match r {
        Ok(res) => match res.outcome {
            RecoveryOutcome::Healthy => "HEALTHY"@,
            RecoveryOutcome::RolledBack => "ROLLED_BACK"@,
        },
        Err(_) => "ROLLBACK_FAILED"@,
    }
}

pub open spec fn recovery_health(r: Result<RecoveryResolution, SwitchError>) -> Seq<char> {
    match r {
        Ok(_) => "healthy"@,
        Err(_) => "broken"@,
    }
}

pub open spec fn recovery_check_code(r: Result<RecoveryResolution, SwitchError>) -> Seq<char> {
    match r {
        Ok(res) => match res.outcome {
            RecoveryOutcome::Healthy => "HEALTH_RECOVERY_HEALTHY"@,
            RecoveryOutcome::RolledBack => "HEALTH_RECOVERY_ROLLED_BACK"@,
        },
        Err(_) => "HEALTH_RECOVERY_FAILED"@,
    }
}

pub open spec fn recovery_snapshot_message(r: Result<RecoveryResolution, SwitchError>) -> Seq<char> {
    match r {
        Ok(res) => match res.outcome {
            RecoveryOutcome::Healthy => "Startup recovery resolved to healthy state."@,
            RecoveryOutcome::RolledBack => "Startup recovery resolved by rollback."@,
        },
        Err(_) => "Startup recovery failed; manual intervention required."@,
    }
}

/// The records of a recovery's result: the final state (completed now), the
/// closing log entry of the `rollback` stage and a health snapshot.
pub fn recovery_records(result: Result<RecoveryResolution, SwitchError>) -> (p: RecoveryRecords)
    ensures
        p.update.state@ == recovery_state(result),
        p.update.health_state@ == recovery_health(result),
        p.update.completion == Completion::Now,
        p.snapshot.state@ == recovery_health(result),
        p.snapshot.check_code@ == recovery_check_code(result),
        details_view(p.snapshot.details) == seq![("message"@, Val::Text(recovery_snapshot_message(result)))],
        p.log.stage@ == "rollback"@,
        p.log.step@ == "recovery_reconcile"@,
        match result {
            Ok(res) => {
                &&& p.update.last_error_code is None
                &&& p.log.status@ == "succeeded"@
                &&& p.log.error_code is None
                &&& p.log.message@ == res.message@
                &&& details_view(p.log.details) == seq![
                    ("state"@, Val::Text(recovery_state(result))),
                    ("health_state"@, Val::Text("healthy"@)),
                ]
            },
            Err(e) => {
                &&& p.update.last_error_code matches Some(c) && c@ == e.code@
                &&& p.log.status@ == "failed"@
                &&& p.log.error_code matches Some(c) && c@ == e.code@
                &&& p.log.message@ == e.message@
                &&& p.log.details == e.details
            },
        },
{
    match result {
        Ok(res) => {
            let (state, code, note) = match res.outcome {
                RecoveryOutcome::Healthy => (
                    "HEALTHY",
                    "HEALTH_RECOVERY_HEALTHY",
                    "Startup recovery resolved to healthy state.",
                ),
                RecoveryOutcome::RolledBack => (
                    "ROLLED_BACK",
                    "HEALTH_RECOVERY_ROLLED_BACK",
                    "Startup recovery resolved by rollback.",
                ),
            };
            let update = state_update(state, "healthy", None, Completion::Now);
            let log = log_plan(
                "rollback",
                "recovery_reconcile",
                "succeeded",
                None,
                res.message.as_str(),
                details2("state", state, "health_state", "healthy"),
            );
            let snapshot = snapshot_plan("healthy", code, details1("message", note));
            RecoveryRecords { update, log, snapshot }
        },
        Err(e) => {
            let update = state_update("ROLLBACK_FAILED", "broken", Some(e.code.clone()), Completion::Now);
            let log = log_plan(
                "rollback",
                "recovery_reconcile",
                "failed",
                Some(e.code.clone()),
                e.message.as_str(),
                e.details,
            );
            let snapshot = snapshot_plan(
                "broken",
                "HEALTH_RECOVERY_FAILED",
                details1("message", "Startup recovery failed; manual intervention required."),
            );
            RecoveryRecords { update, log, snapshot }
        },
    }
}

/// How one relocation's recovery is counted.
#[derive(Clone, Copy, Debug)]
pub enum RecoveryVerdict {
    Healthy,
    RolledBack,
    Failed,
}

pub open spec fn verdict_spec(r: Result<RecoveryResolution, SwitchError>) -> RecoveryVerdict {
    match r {
        Ok(res) => match res.outcome {
            RecoveryOutcome::Healthy => RecoveryVerdict::Healthy,
            RecoveryOutcome::RolledBack => RecoveryVerdict::RolledBack,
        },
        Err(_) => RecoveryVerdict::Failed,
    }
}

pub fn recovery_verdict(result: &Result<RecoveryResolution, SwitchError>) -> (v: RecoveryVerdict)
    ensures
        v == verdict_spec(*result),
{
    match result {
        Ok(res) => match res.outcome {
            RecoveryOutcome::Healthy => RecoveryVerdict::Healthy,
            RecoveryOutcome::RolledBack => RecoveryVerdict::RolledBack,
        },
        Err(_) => RecoveryVerdict::Failed,
    }
}

/// The number of verdicts equal to `v`.
pub open spec fn count_verdict(s: Seq<RecoveryVerdict>, v: RecoveryVerdict) -> nat
    decreases s.len(),
{
    if s.len() == 0 {
        0
    } else {
        count_verdict(s.drop_last(), v) + if s.last() == v {
            1nat
        } else {
            0nat
        }
    }
}

/// Every recovered relocation is counted exactly once: the healthy, rolled
/// back and failed counts add up to the number of relocations.
pub proof fn verdict_counts_add_up(s: Seq<RecoveryVerdict>)
    ensures
        count_verdict(s, RecoveryVerdict::Healthy) + count_verdict(s, RecoveryVerdict::RolledBack) + count_verdict(
            s,
            RecoveryVerdict::Failed,
        ) == s.len(),
    decreases s.len(),
{
    if s.len() > 0 {
        verdict_counts_add_up(s.drop_last());
    }
}

/// Recovery settles every relocation it handles: the state it writes is
/// never an unfinished one, and the verdict it counts is that state's (a
/// failed recovery leaves the relocation broken and awaiting manual repair).
pub proof fn recovery_settles(result: Result<RecoveryResolution, SwitchError>)
    ensures
        !unfinished_state(recovery_state(result)),
        (verdict_spec(result) == RecoveryVerdict::Healthy) <==> recovery_state(result) == "HEALTHY"@,
        (verdict_spec(result) == RecoveryVerdict::RolledBack) <==> recovery_state(result) == "ROLLED_BACK"@,
        (verdict_spec(result) == RecoveryVerdict::Failed) <==> (recovery_state(result) == "ROLLBACK_FAILED"@
            && recovery_health(result) == "broken"@),
{
    reveal_strlit("HEALTHY");
    reveal_strlit("ROLLED_BACK");
    reveal_strlit("ROLLBACK_FAILED");
    reveal_strlit("PRECHECKING");
    reveal_strlit("BOOTSTRAP_INIT");
    reveal_strlit("COPYING");
    reveal_strlit("VERIFYING");
    reveal_strlit("SWITCHING");
    reveal_strlit("POSTCHECKING");
    reveal_strlit("FAILED_NEEDS_ROLLBACK");
    reveal_strlit("ROLLING_BACK");
    reveal_strlit("healthy");
    reveal_strlit("broken");
    assert("ROLLED_BACK"@[0] != "PRECHECKING"@[0]);
    assert("HEALTHY"@[0] != "COPYING"@[0]);
    assert("ROLLED_BACK"@.len() != "HEALTHY"@.len());
    assert("ROLLED_BACK"@.len() != "ROLLBACK_FAILED"@.len());
    assert("HEALTHY"@.len() != "ROLLBACK_FAILED"@.len());
}

/// The summary of a recovery run over relocations with the given verdicts.
pub fn recovery_summary(verdicts: &Vec<RecoveryVerdict>) -> (s: RecoverySummary)
    ensures
        s.total == verdicts@.len(),
        s.healthy == count_verdict(verdicts@, RecoveryVerdict::Healthy),
        s.rolled_back == count_verdict(verdicts@, RecoveryVerdict::RolledBack),
        s.failed == count_verdict(verdicts@, RecoveryVerdict::Failed),
        s.total == s.healthy + s.rolled_back + s.failed,
{
    let mut s = RecoverySummary { total: verdicts.len(), healthy: 0, rolled_back: 0, failed: 0 };
    let mut i: usize = 0;
    while i < verdicts.len()
        invariant
            i <= verdicts@.len(),
            s.total == verdicts@.len(),
            s.healthy == count_verdict(verdicts@.take(i as int), RecoveryVerdict::Healthy),
            s.rolled_back == count_verdict(verdicts@.take(i as int), RecoveryVerdict::RolledBack),
            s.failed == count_verdict(verdicts@.take(i as int), RecoveryVerdict::Failed),
        decreases verdicts@.len() - i,
    {
        let ghost prefix = verdicts@.take(i as int);
        let ghost next = verdicts@.take(i + 1);
        proof {
            assert(next.drop_last() =~= prefix);
            assert(next.last() == verdicts@[i as int]);
            verdict_counts_add_up(prefix);
        }
        match verdicts[i] {
            RecoveryVerdict::Healthy => s.healthy = s.healthy + 1,
            RecoveryVerdict::RolledBack => s.rolled_back = s.rolled_back + 1,
            RecoveryVerdict::Failed => s.failed = s.failed + 1,
        }
        i = i + 1;
    }
    proof {
        assert(verdicts@.take(i as int) =~= verdicts@);
        verdict_counts_add_up(verdicts@);
    }
    s
}

} // verus!
