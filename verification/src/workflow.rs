//! The migration of one relocation unit as a state machine: each method takes
//! the outcome of the outside work of the current stage and answers with the
//! records to write, in order, and either the next stage or the end of the
//! run.  The caller performs the work the stage names and feeds its outcome
//! back.

use crate::fsops::{BootstrapSwitchOutcome, CopyResult, SwitchError, VerifyResult};
use crate::models::{details1, details2, details4, details_view, text_field, DetailField, DetailValue, Details};
use crate::paths::{backup_path_for, backup_path_spec, temp_path_for, temp_path_spec};
use crate::plans::{
    actions_view, failed, failure_log, lemma_batches_trace, lemma_status_words, start_log, started, succeeded, success_log,
    trace_after, update_action, update_view, Action, ActionView, Completion, Dv, LogPlan, SnapshotPlan, Timing,
};
use crate::prechecks::{
    bootstrap_source_empty, check_available_space, migrate_paths_absent, mode_name, processes_stopped, RunMode,
};
use crate::profiles::strings_view;
use crate::records::NewRelocationRecord;
use crate::text::owned;
use crate::models::{flat_field_view, leaf_of, lemma_object_view, object_view, Leaf, Val};
use vstd::prelude::*;

verus! {

/// The fixed facts of a migration run.
#[derive(Debug)]
pub struct MigrationContext {
    pub mode: RunMode,
    pub unit_id: String,
    pub source_path: String,
    pub target_root: String,
    pub target_path: String,
    /// Where the copy is made before the switch (migrate mode).
    pub temp_path: String,
    /// Where the source is kept after the switch (migrate mode).
    pub backup_path: String,
    pub process_names: Vec<String>,
    pub cleanup_backup_after_migrate: bool,
}

/// The context of the run that starts with `record`.
pub fn migration_context(
    record: &NewRelocationRecord,
    mode: RunMode,
    unit_id: &str,
    process_names: &Vec<String>,
    cleanup_backup_after_migrate: bool,
) -> (c: MigrationContext)
    ensures
        c.mode == mode,
        c.unit_id@ == unit_id@,
        c.source_path@ == record.source_path@,
        c.target_root@ == record.target_root@,
        c.target_path@ == record.target_path@,
        c.temp_path@ == temp_path_spec(record.target_path@, record.relocation_id@),
        c.backup_path@ == backup_path_spec(record.source_path@),
        strings_view(c.process_names@) == strings_view(process_names@),
        c.cleanup_backup_after_migrate == cleanup_backup_after_migrate,
{
    MigrationContext {
        mode,
        unit_id: owned(unit_id),
        source_path: record.source_path.clone(),
        target_root: record.target_root.clone(),
        target_path: record.target_path.clone(),
        temp_path: temp_path_for(record.target_path.as_str(), record.relocation_id.as_str()),
        backup_path: backup_path_for(record.source_path.as_str()),
        process_names: crate::profiles::copy_strings(process_names),
        cleanup_backup_after_migrate,
    }
}

/// Where a migration run stands: the outside work it waits for.
#[derive(Clone, Copy, Debug)]
pub enum MigrationStage {
    /// Look for running processes of the application.
    ProcessStopped,
    /// Check the source.
    SourceReady,
    /// Check that the target disk is online.
    TargetOnline,
    /// Check that the target disk is writable.
    TargetWritable,
    /// Query the free space of the target disk.
    SpaceBudget,
    /// Check that neither the target nor the backup path exists.
    MigrateTargetAbsent,
    /// Replace the empty source by a link to a fresh target.
    BootstrapSwitch,
    /// Check the link and the target after a bootstrap switch.
    BootstrapPostcheck,
    /// Undo a bootstrap switch.
    BootstrapCleanup,
    /// Copy the source to the temporary path.
    CopyToTemp,
    /// Remove the temporary copy after a failed copy or verification.
    CleanupTemp,
    /// Compare the sizes of source and temporary copy.
    VerifyCopy,
    /// Move the source to the backup, the copy to the target, and link.
    SwitchPaths,
    /// Undo a migrate switch.
    MigrateCleanup,
    /// Check the link and the target after a migrate switch.
    Postcheck,
    /// Remove the backup.
    CleanupBackup,
    /// The run is over.
    Finished,
}

/// The state of a migration run.
#[derive(Debug)]
pub struct MigrationRun {
    pub stage: MigrationStage,
    pub source_size_bytes: u64,
    /// What the bootstrap switch changed.
    pub switch_outcome: BootstrapSwitchOutcome,
    /// The failure being cleaned up after.
    pub failure: Option<SwitchError>,
}

/// What one transition asks to be written, and whether the run is over.
#[derive(Debug)]
pub struct RunStep {
    pub actions: Vec<Action>,
    /// `Some` when the run ended: success, or the error to report.
    pub outcome: Option<Result<(), SwitchError>>,
}

/// States in which a run that failed stays.
pub open spec fn failure_state(s: Seq<char>) -> bool {
    s == "PRECHECK_FAILED"@ || s == "ROLLED_BACK"@ || s == "ROLLBACK_FAILED"@
}

/// The last state change of `acts` is at `i`.
pub open spec fn last_update_at(acts: Seq<ActionView>, i: int) -> bool {
    &&& 0 <= i < acts.len()
    &&& acts[i] is Update
    &&& forall|j: int| i < j < acts.len() ==> !(acts[j] is Update)
}

/// The run's last state change is a failure state that records `code`.
pub open spec fn ends_failed(acts: Seq<ActionView>, code: Seq<char>) -> bool {
    exists|i: int|
        last_update_at(acts, i) && (acts[i] matches ActionView::Update { state, last_error_code, .. } && failure_state(
            state,
        ) && last_error_code == Some(code))
}

/// The run's last state change is the healthy end state.
pub open spec fn ends_healthy(acts: Seq<ActionView>) -> bool {
    exists|i: int|
        last_update_at(acts, i) && acts[i] == update_view(
            "HEALTHY"@,
            "healthy"@,
            None,
            Completion::Now,
        )
}

/// What holds of every transition: the run is over exactly when an outcome
/// is given; a failed run's last state change is a failure state recording
/// the reported error's code; a successful run ends healthy.
pub open spec fn step_law(stage: MigrationStage, step: RunStep) -> bool {
    &&& (stage is Finished) <==> (step.outcome is Some)
    &&& step.outcome matches Some(Err(e)) ==> ends_failed(actions_view(step.actions@), e.code@)
    &&& step.outcome matches Some(Ok(())) ==> ends_healthy(actions_view(step.actions@))
}

/// The step, by stage and name of its log entries, that a run waiting in
/// `stage` has started and not yet finished.
pub open spec fn open_step(stage: MigrationStage) -> Option<(Seq<char>, Seq<char>)> {
    match stage {
        MigrationStage::ProcessStopped => Some(("precheck"@, "process_stopped"@)),
        MigrationStage::SourceReady => Some(("precheck"@, "source_ready"@)),
        MigrationStage::TargetOnline => Some(("precheck"@, "target_online"@)),
        MigrationStage::TargetWritable => Some(("precheck"@, "target_writable"@)),
        MigrationStage::SpaceBudget => Some(("precheck"@, "space_budget"@)),
        MigrationStage::MigrateTargetAbsent => Some(("precheck"@, "migrate_target_absent"@)),
        MigrationStage::BootstrapSwitch => Some(("migration"@, "bootstrap_switch"@)),
        MigrationStage::BootstrapPostcheck => Some(("migration"@, "bootstrap_postcheck"@)),
        MigrationStage::BootstrapCleanup => Some(("rollback"@, "bootstrap_cleanup"@)),
        MigrationStage::CopyToTemp => Some(("migration"@, "copy_to_temp"@)),
        MigrationStage::CleanupTemp => Some(("rollback"@, "cleanup_temp"@)),
        MigrationStage::VerifyCopy => Some(("migration"@, "verify_copy"@)),
        MigrationStage::SwitchPaths => Some(("migration"@, "switch_paths"@)),
        MigrationStage::MigrateCleanup => Some(("rollback"@, "migrate_cleanup"@)),
        MigrationStage::Postcheck => Some(("migration"@, "postcheck"@)),
        MigrationStage::CleanupBackup => Some(("migration"@, "cleanup_backup"@)),
        MigrationStage::Finished => None,
    }
}

/// A transition from `from` to `to` that writes `acts` finishes the step
/// open in `from`, pairs every step it starts with its end entry, and leaves
/// open exactly the step that `to` waits for.
pub open spec fn keeps_trace(from: MigrationStage, to: MigrationStage, acts: Seq<ActionView>) -> bool {
    trace_after(Some(open_step(from)), acts) == Some(open_step(to))
}

/// A migration run leaves a complete trace: over all the entries it writes,
/// from its start to its end, every step that starts is finished by an entry
/// of the same stage and step before another step starts, and no end entry
/// names another step than the open one.  `batches[0]` is what the start
/// writes and `stages[0]` the stage it leaves the run in; each later batch is
/// what a transition from `stages[i - 1]` to `stages[i]` writes (as every
/// transition's contract gives it); the last stage is the end of the run.
pub proof fn run_trace_is_complete(stages: Seq<MigrationStage>, batches: Seq<Seq<ActionView>>)
    requires
        batches.len() == stages.len(),
        batches.len() > 0,
        trace_after(Some(None), batches[0]) == Some(open_step(stages[0])),
        forall|i: int| 0 <= i < batches.len() - 1 ==> keeps_trace(#[trigger] stages[i], stages[i + 1], batches[i + 1]),
        stages.last() is Finished,
    ensures
        trace_after(Some(None), batches.flatten()) == Some(None::<(Seq<char>, Seq<char>)>),
{
    let opens = stages.map_values(|st: MigrationStage| open_step(st));
    assert forall|i: int| 0 <= i < batches.len() - 1 implies trace_after(Some(#[trigger] opens[i]), batches[i + 1]) == Some(
        opens[i + 1],
    ) by {
        assert(keeps_trace(stages[i], stages[i + 1], batches[i + 1]));
    }
    lemma_batches_trace(None, opens, batches);
}

pub open spec fn precheck_failed(step: Seq<char>, e: SwitchError) -> Seq<ActionView> {
    seq![failed("precheck"@, step, e), update_view("PRECHECK_FAILED"@, "unknown"@, Some(e.code@), Completion::Clear)]
}

pub open spec fn rollback_failed(step: Seq<char>, e: SwitchError) -> Seq<ActionView> {
    seq![failed("rollback"@, step, e), update_view("ROLLBACK_FAILED"@, "broken"@, Some(e.code@), Completion::Now)]
}

pub open spec fn precheck_started(step: Seq<char>) -> ActionView {
    started("precheck"@, step, "precheck started"@, Seq::empty())
}

pub open spec fn precheck_succeeded(step: Seq<char>, details: Dv) -> ActionView {
    succeeded("precheck"@, step, "precheck succeeded"@, details)
}

fn precheck_start(step: &str) -> (a: Action)
    ensures
        a@ == precheck_started(step@),
{
    let d = Details::empty();
    assert(details_view(d) =~= Seq::empty());
    start_log("precheck", step, "precheck started", d)
}

/// A failed step after the switch: the run turns to undoing it.
pub open spec fn rolling_back(step: Seq<char>, e: SwitchError, cleanup_step: Seq<char>, cleanup_message: Seq<char>) -> Seq<
    ActionView,
> {
    seq![
        failed("migration"@, step, e),
        update_view("ROLLING_BACK"@, "broken"@, Some(e.code@), Completion::Clear),
        started("rollback"@, cleanup_step, cleanup_message, Seq::empty()),
    ]
}

/// A failed step before the switch: the temporary copy is removed.
pub open spec fn cleaning_temp(step: Seq<char>, e: SwitchError, temp_path: Seq<char>) -> Seq<ActionView> {
    seq![
        failed("migration"@, step, e),
        started("rollback"@, "cleanup_temp"@, "rollback cleanup temp started"@, seq![("temp_path"@, Val::Text(temp_path))]),
    ]
}

/// A successful cleanup: the run ends rolled back with the error that caused it.
pub open spec fn rolled_back(step: Seq<char>, message: Seq<char>, details: Dv, cause: SwitchError) -> Seq<ActionView> {
    seq![
        succeeded("rollback"@, step, message, details),
        update_view("ROLLED_BACK"@, "unknown"@, Some(cause.code@), Completion::Now),
    ]
}

pub open spec fn commit_log(mode: Seq<char>, message: Seq<char>, details: Dv) -> ActionView {
    ActionView::Log {
        stage: "migration"@,
        step: "metadata_commit"@,
        status: "succeeded"@,
        error_code: None,
        message,
        details,
        timing: Timing::Zero,
    }
}

/// The records of a successful run: healthy state, commit entry, snapshot.
pub open spec fn committed(mode: Seq<char>, message: Seq<char>, details: Dv, check_code: Seq<char>, note: Seq<char>) -> Seq<
    ActionView,
> {
    seq![
        update_view("HEALTHY"@, "healthy"@, None, Completion::Now),
        commit_log(mode, message, details),
        ActionView::Snapshot { state: "healthy"@, check_code, details: seq![("message"@, Val::Text(note))] },
    ]
}

pub open spec fn bootstrap_committed() -> Seq<ActionView> {
    committed(
        "bootstrap"@,
        "bootstrap mode committed."@,
        seq![("state"@, Val::Text("HEALTHY"@)), ("health_state"@, Val::Text("healthy"@)), ("mode"@, Val::Text("bootstrap"@))],
        "HEALTH_BOOTSTRAP_OK"@,
        "Bootstrap switch and postcheck succeeded."@,
    )
}

/// The commit of a migrate run, recording what became of the backup.
pub open spec fn migrate_committed(cleanup: Val) -> Seq<ActionView> {
    committed(
        "migrate"@,
        "migrate mode committed."@,
        seq![
            ("state"@, Val::Text("HEALTHY"@)),
            ("health_state"@, Val::Text("healthy"@)),
            ("mode"@, Val::Text("migrate"@)),
            ("cleanup_backup"@, cleanup),
        ],
        "HEALTH_MIGRATE_OK"@,
        "Migrate transaction succeeded."@,
    )
}

/// The backup was kept: its removal was not asked for.
pub open spec fn cleanup_skipped() -> Val {
    Val::Object(seq![("enabled"@, Leaf::Flag(false)), ("attempted"@, Leaf::Flag(false)), ("removed"@, Leaf::Flag(false))])
}

/// The backup at `backup_path` was removed.
pub open spec fn cleanup_done(backup_path: Seq<char>) -> Val {
    Val::Object(
        seq![
            ("enabled"@, Leaf::Flag(true)),
            ("attempted"@, Leaf::Flag(true)),
            ("removed"@, Leaf::Flag(true)),
            ("backup_path"@, Leaf::Text(backup_path)),
        ],
    )
}

/// Removing the backup at `backup_path` failed with `e`.
pub open spec fn cleanup_failed(backup_path: Seq<char>, e: SwitchError) -> Val {
    Val::Object(
        seq![
            ("enabled"@, Leaf::Flag(true)),
            ("attempted"@, Leaf::Flag(true)),
            ("removed"@, Leaf::Flag(false)),
            ("backup_path"@, Leaf::Text(backup_path)),
            ("error_code"@, Leaf::Text(e.code@)),
            ("error"@, Leaf::Text(e.message@)),
        ],
    )
}

fn field(key: &str, value: DetailValue) -> (f: DetailField)
    ensures
        f.key@ == key@,
        f.value == value,
{
    DetailField { key: owned(key), value }
}

proof fn lemma_last_update(acts: Seq<ActionView>, i: int)
    requires
        0 <= i < acts.len(),
        acts[i] is Update,
        forall|j: int| i < j < acts.len() ==> !(acts[j] is Update),
    ensures
        last_update_at(acts, i),
{
}

/// The details of a removed backup.
fn backup_removed_details(backup_path: &str) -> (d: Details)
    ensures
        details_view(d) == seq![
            ("enabled"@, Val::Flag(true)),
            ("attempted"@, Val::Flag(true)),
            ("removed"@, Val::Flag(true)),
            ("backup_path"@, Val::Text(backup_path@)),
        ],
{
    let d = Details {
        fields: vec![
            field("enabled", DetailValue::Flag(true)),
            field("attempted", DetailValue::Flag(true)),
            field("removed", DetailValue::Flag(true)),
            text_field("backup_path", backup_path),
        ],
    };
    assert(details_view(d) =~= seq![
        ("enabled"@, Val::Flag(true)),
        ("attempted"@, Val::Flag(true)),
        ("removed"@, Val::Flag(true)),
        ("backup_path"@, Val::Text(backup_path@)),
    ]);
    d
}

impl MigrationRun {
    /// A run begins with the process check.
    pub fn start() -> (r: (MigrationRun, Vec<Action>))
        ensures
            r.0.stage is ProcessStopped,
            r.0.source_size_bytes == 0,
            r.0.failure is None,
            actions_view(r.1@) == seq![precheck_started("process_stopped"@)],
            trace_after(Some(None), actions_view(r.1@)) == Some(open_step(r.0.stage)),
    {
        proof {
            reveal_with_fuel(trace_after, 2);
        }
        let a = precheck_start("process_stopped");
        let actions = vec![a];
        assert(actions_view(actions@) =~= seq![precheck_started("process_stopped"@)]);
        (
            MigrationRun {
                stage: MigrationStage::ProcessStopped,
                source_size_bytes: 0,
                switch_outcome: BootstrapSwitchOutcome { source_placeholder_removed: false, target_dir_created: false },
                failure: None,
            },
            actions,
        )
    }

    fn fail_precheck(&mut self, step: &str, e: SwitchError) -> (s: RunStep)
        ensures
            final(self).stage is Finished,
            final(self).source_size_bytes == old(self).source_size_bytes,
            s.outcome == Some(Err::<(), SwitchError>(e)),
            actions_view(s.actions@) == precheck_failed(step@, e),
            step_law(final(self).stage, s),
    {
        let log = failure_log("precheck", step, &e);
        let upd = update_action("PRECHECK_FAILED", "unknown", Some(e.code.as_str()), Completion::Clear);
        let actions = vec![log, upd];
        self.stage = MigrationStage::Finished;
        proof {
            assert(actions_view(actions@) =~= precheck_failed(step@, e));
            lemma_last_update(actions_view(actions@), 1);
        }
        RunStep { actions, outcome: Some(Err(e)) }
    }

    /// After the process check: the run goes on only when no process of the
    /// application runs.
    pub fn on_processes(&mut self, ctx: &MigrationContext, running: &Vec<String>) -> (s: RunStep)
        requires
            old(self).stage is ProcessStopped,
        ensures
            step_law(final(self).stage, s),
            keeps_trace(old(self).stage, final(self).stage, actions_view(s.actions@)),
            running@.len() == 0 ==> (final(self).stage is SourceReady) && s.outcome is None && actions_view(s.actions@)
                == seq![
                precheck_succeeded(
                    "process_stopped"@,
                    seq![("required_processes"@, Val::Texts(strings_view(ctx.process_names@))), ("running_processes"@, Val::Texts(Seq::empty()))],
                ),
                precheck_started("source_ready"@),
            ],
            running@.len() > 0 ==> (s.outcome matches Some(Err(e)) && e.code@ == "PRECHECK_PROCESS_RUNNING"@
                && actions_view(s.actions@) == precheck_failed("process_stopped"@, e)),
            final(self).source_size_bytes == old(self).source_size_bytes,
    {
        proof {
            reveal_with_fuel(trace_after, 6);
            lemma_status_words();
        }
        match processes_stopped(&ctx.process_names, running) {
            Ok(d) => {
                let a = success_log("precheck", "process_stopped", "precheck succeeded", d);
                let b = precheck_start("source_ready");
                let actions = vec![a, b];
                proof {
                    assert(details_view(d) =~= seq![("required_processes"@, Val::Texts(strings_view(ctx.process_names@))), ("running_processes"@, Val::Texts(Seq::empty()))]);
                    assert(actions_view(actions@) =~= seq![
                        precheck_succeeded(
                            "process_stopped"@,
                            seq![("required_processes"@, Val::Texts(strings_view(ctx.process_names@))), ("running_processes"@, Val::Texts(Seq::empty()))],
                        ),
                        precheck_started("source_ready"@),
                    ]);
                }
                self.stage = MigrationStage::SourceReady;
                RunStep { actions, outcome: None }
            },
            Err(e) => self.fail_precheck("process_stopped", e),
        }
    }

    /// After the source check; in bootstrap mode the source must also be
    /// empty.  The measured size is recorded.
    pub fn on_source(&mut self, ctx: &MigrationContext, result: Result<u64, SwitchError>) -> (s: RunStep)
        requires
            old(self).stage is SourceReady,
        ensures
            step_law(final(self).stage, s),
            keeps_trace(old(self).stage, final(self).stage, actions_view(s.actions@)),
            match result {
                Err(e) => s.outcome == Some(Err::<(), SwitchError>(e)) && actions_view(s.actions@) == precheck_failed(
                    "source_ready"@,
                    e,
                ),
                Ok(size) => {
                    &&& final(self).source_size_bytes == size
                    &&& actions_view(s.actions@)[0] == precheck_succeeded(
                        "source_ready"@,
                        seq![
                            ("source_path"@, Val::Text(ctx.source_path@)),
                            ("unit_id"@, Val::Text(ctx.unit_id@)),
                            ("source_size_bytes"@, Val::Number(size)),
                            ("mode"@, Val::Text(mode_name(ctx.mode))),
                        ],
                    )
                    &&& match ctx.mode {
                        RunMode::Migrate => (final(self).stage is TargetOnline) && s.outcome is None && actions_view(
                            s.actions@,
                        ).skip(1) == seq![
                            ActionView::Sizes { source_size_bytes: size, target_size_bytes: 0 },
                            precheck_started("target_online"@),
                        ],
                        RunMode::Bootstrap => {
                            &&& actions_view(s.actions@)[1] == precheck_started("bootstrap_source_empty"@)
                            &&& size == 0 ==> (final(self).stage is TargetOnline) && s.outcome is None && actions_view(
                                s.actions@,
                            ).skip(2) == seq![
                                precheck_succeeded("bootstrap_source_empty"@, seq![("source_size_bytes"@, Val::Number(size))]),
                                ActionView::Sizes { source_size_bytes: size, target_size_bytes: 0 },
                                precheck_started("target_online"@),
                            ]
                            &&& size > 0 ==> (s.outcome matches Some(Err(e)) && e.code@
                                == "PRECHECK_BOOTSTRAP_NOT_ALLOWED"@ && actions_view(s.actions@).skip(2)
                                == precheck_failed("bootstrap_source_empty"@, e))
                        },
                    }
                },
            },
    {
        proof {
            reveal_with_fuel(trace_after, 6);
            lemma_status_words();
        }
        let size = match result {
            Ok(n) => n,
            Err(e) => {
                return self.fail_precheck("source_ready", e);
            },
        };
        self.source_size_bytes = size;
        let mode_text = match ctx.mode {
            RunMode::Bootstrap => "bootstrap",
            RunMode::Migrate => "migrate",
        };
        let d = Details {
            fields: vec![
                text_field("source_path", ctx.source_path.as_str()),
                text_field("unit_id", ctx.unit_id.as_str()),
                field("source_size_bytes", DetailValue::Number(size)),
                text_field("mode", mode_text),
            ],
        };
        let ghost dv = details_view(d);
        let first = success_log("precheck", "source_ready", "precheck succeeded", d);
        proof {
            assert(dv =~= seq![
                ("source_path"@, Val::Text(ctx.source_path@)),
                ("unit_id"@, Val::Text(ctx.unit_id@)),
                ("source_size_bytes"@, Val::Number(size)),
                ("mode"@, Val::Text(mode_name(ctx.mode))),
            ]);
        }
        let mut actions = vec![first];
        match ctx.mode {
            RunMode::Migrate => {
                actions.push(Action::Sizes { source_size_bytes: size, target_size_bytes: 0 });
                actions.push(precheck_start("target_online"));
                self.stage = MigrationStage::TargetOnline;
                assert(actions_view(actions@).skip(1) =~= seq![
                    ActionView::Sizes { source_size_bytes: size, target_size_bytes: 0 },
                    precheck_started("target_online"@),
                ]);
                RunStep { actions, outcome: None }
            },
            RunMode::Bootstrap => {
                actions.push(precheck_start("bootstrap_source_empty"));
                match bootstrap_source_empty(ctx.source_path.as_str(), size) {
                    Ok(d2) => {
                        assert(details_view(d2) =~= seq![("source_size_bytes"@, Val::Number(size))]);
                        actions.push(success_log("precheck", "bootstrap_source_empty", "precheck succeeded", d2));
                        actions.push(Action::Sizes { source_size_bytes: size, target_size_bytes: 0 });
                        actions.push(precheck_start("target_online"));
                        self.stage = MigrationStage::TargetOnline;
                        assert(actions_view(actions@).skip(2) =~= seq![
                            precheck_succeeded("bootstrap_source_empty"@, seq![("source_size_bytes"@, Val::Number(size))]),
                            ActionView::Sizes { source_size_bytes: size, target_size_bytes: 0 },
                            precheck_started("target_online"@),
                        ]);
                        RunStep { actions, outcome: None }
                    },
                    Err(e) => {
                        let mut tail = self.fail_precheck("bootstrap_source_empty", e);
                        let ghost tv = actions_view(tail.actions@);
                        let ghost hv = actions_view(actions@);
                        actions.append(&mut tail.actions);
                        proof {
                            assert(actions_view(actions@) =~= hv + tv);
                            assert(actions_view(actions@).skip(2) =~= tv);
                            lemma_last_update(actions_view(actions@), 3);
                        }
                        RunStep { actions, outcome: tail.outcome }
                    },
                }
            },
        }
    }

    /// After the target-online check.
    pub fn on_target_online(&mut self, ctx: &MigrationContext, result: Result<(), SwitchError>) -> (s: RunStep)
        requires
            old(self).stage is TargetOnline,
        ensures
            step_law(final(self).stage, s),
            keeps_trace(old(self).stage, final(self).stage, actions_view(s.actions@)),
            final(self).source_size_bytes == old(self).source_size_bytes,
            match result {
                Err(e) => s.outcome == Some(Err::<(), SwitchError>(e)) && actions_view(s.actions@) == precheck_failed(
                    "target_online"@,
                    e,
                ),
                Ok(()) => (final(self).stage is TargetWritable) && s.outcome is None && actions_view(s.actions@)
                    == seq![
                    precheck_succeeded("target_online"@, seq![("target_root"@, Val::Text(ctx.target_root@)), ("online"@, Val::Flag(true))]),
                    precheck_started("target_writable"@),
                ],
            },
    {
        proof {
            reveal_with_fuel(trace_after, 6);
            lemma_status_words();
        }
        match result {
            Err(e) => self.fail_precheck("target_online", e),
            Ok(()) => {
                let d = Details {
                    fields: vec![text_field("target_root", ctx.target_root.as_str()), field("online", DetailValue::Flag(true))],
                };
                assert(details_view(d) =~= seq![("target_root"@, Val::Text(ctx.target_root@)), ("online"@, Val::Flag(true))]);
                let actions = vec![
                    success_log("precheck", "target_online", "precheck succeeded", d),
                    precheck_start("target_writable"),
                ];
                self.stage = MigrationStage::TargetWritable;
                assert(actions_view(actions@) =~= seq![
                    precheck_succeeded("target_online"@, seq![("target_root"@, Val::Text(ctx.target_root@)), ("online"@, Val::Flag(true))]),
                    precheck_started("target_writable"@),
                ]);
                RunStep { actions, outcome: None }
            },
        }
    }

    /// After the target-writable check.
    pub fn on_target_writable(&mut self, ctx: &MigrationContext, result: Result<(), SwitchError>) -> (s: RunStep)
        requires
            old(self).stage is TargetWritable,
        ensures
            step_law(final(self).stage, s),
            keeps_trace(old(self).stage, final(self).stage, actions_view(s.actions@)),
            final(self).source_size_bytes == old(self).source_size_bytes,
            match result {
                Err(e) => s.outcome == Some(Err::<(), SwitchError>(e)) && actions_view(s.actions@) == precheck_failed(
                    "target_writable"@,
                    e,
                ),
                Ok(()) => (final(self).stage is SpaceBudget) && s.outcome is None && actions_view(s.actions@) == seq![
                    precheck_succeeded("target_writable"@, seq![("target_root"@, Val::Text(ctx.target_root@)), ("writable"@, Val::Flag(true))]),
                    precheck_started("space_budget"@),
                ],
            },
    {
        proof {
            reveal_with_fuel(trace_after, 6);
            lemma_status_words();
        }
        match result {
            Err(e) => self.fail_precheck("target_writable", e),
            Ok(()) => {
                let d = Details {
                    fields: vec![text_field("target_root", ctx.target_root.as_str()), field("writable", DetailValue::Flag(true))],
                };
                assert(details_view(d) =~= seq![("target_root"@, Val::Text(ctx.target_root@)), ("writable"@, Val::Flag(true))]);
                let actions = vec![
                    success_log("precheck", "target_writable", "precheck succeeded", d),
                    precheck_start("space_budget"),
                ];
                self.stage = MigrationStage::SpaceBudget;
                assert(actions_view(actions@) =~= seq![
                    precheck_succeeded("target_writable"@, seq![("target_root"@, Val::Text(ctx.target_root@)), ("writable"@, Val::Flag(true))]),
                    precheck_started("space_budget"@),
                ]);
                RunStep { actions, outcome: None }
            },
        }
    }

    /// After querying the free space: the space budget decides; then a
    /// bootstrap run starts its switch and a migrate run checks its paths.
    pub fn on_free_space(&mut self, ctx: &MigrationContext, free: Result<u64, String>) -> (s: RunStep)
        requires
            old(self).stage is SpaceBudget,
        ensures
            step_law(final(self).stage, s),
            keeps_trace(old(self).stage, final(self).stage, actions_view(s.actions@)),
            final(self).source_size_bytes == old(self).source_size_bytes,
            (s.outcome is None) <==> (free matches Ok(f) && f >= crate::prechecks::required_space(
                old(self).source_size_bytes,
            )),
            s.outcome matches Some(Err(e)) ==> actions_view(s.actions@) == precheck_failed("space_budget"@, e) && (
            e.code@ == "PRECHECK_DISK_OFFLINE"@ || e.code@ == "PRECHECK_INSUFFICIENT_SPACE"@),
            s.outcome is None ==> actions_view(s.actions@)[0] == precheck_succeeded(
                "space_budget"@,
                seq![
                    ("target_root"@, Val::Text(ctx.target_root@)),
                    ("free_bytes"@, Val::Number(free->Ok_0)),
                    ("required_bytes"@, Val::Number(crate::prechecks::required_space(old(self).source_size_bytes) as u64)),
                    ("source_size_bytes"@, Val::Number(old(self).source_size_bytes)),
                ],
            ) && match ctx.mode {
                RunMode::Bootstrap => (final(self).stage is BootstrapSwitch) && actions_view(s.actions@).skip(1) == seq![
                    update_view("BOOTSTRAP_INIT"@, "unknown"@, None, Completion::Clear),
                    started(
                        "migration"@,
                        "bootstrap_switch"@,
                        "bootstrap switch started"@,
                        seq![("source_path"@, Val::Text(ctx.source_path@)), ("target_path"@, Val::Text(ctx.target_path@))],
                    ),
                ],
                RunMode::Migrate => (final(self).stage is MigrateTargetAbsent) && actions_view(s.actions@).skip(1)
                    == seq![precheck_started("migrate_target_absent"@)],
            },
    {
        proof {
            reveal_with_fuel(trace_after, 6);
            lemma_status_words();
        }
        match check_available_space(ctx.target_root.as_str(), self.source_size_bytes, &free) {
            Err(e) => self.fail_precheck("space_budget", e),
            Ok((free_bytes, required_bytes)) => {
                let d = Details {
                    fields: vec![
                        text_field("target_root", ctx.target_root.as_str()),
                        field("free_bytes", DetailValue::Number(free_bytes)),
                        field("required_bytes", DetailValue::Number(required_bytes)),
                        field("source_size_bytes", DetailValue::Number(self.source_size_bytes)),
                    ],
                };
                assert(details_view(d) =~= seq![
                    ("target_root"@, Val::Text(ctx.target_root@)),
                    ("free_bytes"@, Val::Number(free_bytes)),
                    ("required_bytes"@, Val::Number(required_bytes)),
                    ("source_size_bytes"@, Val::Number(self.source_size_bytes)),
                ]);
                let mut actions = vec![success_log("precheck", "space_budget", "precheck succeeded", d)];
                match ctx.mode {
                    RunMode::Bootstrap => {
                        actions.push(update_action("BOOTSTRAP_INIT", "unknown", None, Completion::Clear));
                        actions.push(
                            start_log(
                                "migration",
                                "bootstrap_switch",
                                "bootstrap switch started",
                                details2("source_path", ctx.source_path.as_str(), "target_path", ctx.target_path.as_str()),
                            ),
                        );
                        self.stage = MigrationStage::BootstrapSwitch;
                        assert(actions_view(actions@).skip(1) =~= seq![
                            update_view("BOOTSTRAP_INIT"@, "unknown"@, None, Completion::Clear),
                            started(
                                "migration"@,
                                "bootstrap_switch"@,
                                "bootstrap switch started"@,
                                seq![("source_path"@, Val::Text(ctx.source_path@)), ("target_path"@, Val::Text(ctx.target_path@))],
                            ),
                        ]);
                    },
                    RunMode::Migrate => {
                        actions.push(precheck_start("migrate_target_absent"));
                        self.stage = MigrationStage::MigrateTargetAbsent;
                        assert(actions_view(actions@).skip(1) =~= seq![precheck_started("migrate_target_absent"@)]);
                    },
                }
                RunStep { actions, outcome: None }
            },
        }
    }

    /// After looking for the target and backup paths (migrate mode): neither
    /// may exist; then the copy starts.
    pub fn on_paths_found(&mut self, ctx: &MigrationContext, target_exists: bool, backup_exists: bool) -> (s:
        RunStep)
        requires
            old(self).stage is MigrateTargetAbsent,
        ensures
            step_law(final(self).stage, s),
            keeps_trace(old(self).stage, final(self).stage, actions_view(s.actions@)),
            final(self).source_size_bytes == old(self).source_size_bytes,
            (s.outcome is None) <==> (!target_exists && !backup_exists),
            s.outcome matches Some(Err(e)) ==> actions_view(s.actions@) == precheck_failed("migrate_target_absent"@, e) && (
            if target_exists {
                e.code@ == "PRECHECK_TARGET_PATH_EXISTS"@
            } else {
                e.code@ == "PRECHECK_BACKUP_PATH_EXISTS"@
            }),
            s.outcome is None ==> (final(self).stage is CopyToTemp) && actions_view(s.actions@) == seq![
                precheck_succeeded(
                    "migrate_target_absent"@,
                    seq![("target_path"@, Val::Text(ctx.target_path@)), ("backup_path"@, Val::Text(ctx.backup_path@))],
                ),
                update_view("COPYING"@, "unknown"@, None, Completion::Clear),
                started(
                    "migration"@,
                    "copy_to_temp"@,
                    "copy source -> temp started"@,
                    seq![("source_path"@, Val::Text(ctx.source_path@)), ("temp_path"@, Val::Text(ctx.temp_path@))],
                ),
            ],
    {
        proof {
            reveal_with_fuel(trace_after, 6);
            lemma_status_words();
        }
        match migrate_paths_absent(ctx.target_path.as_str(), ctx.backup_path.as_str(), target_exists, backup_exists) {
            Err(e) => self.fail_precheck("migrate_target_absent", e),
            Ok(d) => {
                let actions = vec![
                    success_log("precheck", "migrate_target_absent", "precheck succeeded", d),
                    update_action("COPYING", "unknown", None, Completion::Clear),
                    start_log(
                        "migration",
                        "copy_to_temp",
                        "copy source -> temp started",
                        details2("source_path", ctx.source_path.as_str(), "temp_path", ctx.temp_path.as_str()),
                    ),
                ];
                self.stage = MigrationStage::CopyToTemp;
                assert(actions_view(actions@) =~= seq![
                    precheck_succeeded(
                        "migrate_target_absent"@,
                        seq![("target_path"@, Val::Text(ctx.target_path@)), ("backup_path"@, Val::Text(ctx.backup_path@))],
                    ),
                    update_view("COPYING"@, "unknown"@, None, Completion::Clear),
                    started(
                        "migration"@,
                        "copy_to_temp"@,
                        "copy source -> temp started"@,
                        seq![("source_path"@, Val::Text(ctx.source_path@)), ("temp_path"@, Val::Text(ctx.temp_path@))],
                    ),
                ]);
                RunStep { actions, outcome: None }
            },
        }
    }

    fn turn_to_rollback(&mut self, step: &str, e: SwitchError, cleanup_step: &str, cleanup_message: &str, next: MigrationStage) -> (s:
        RunStep)
        requires
            !(next is Finished),
        ensures
            final(self).stage == next,
            final(self).failure == Some(e),
            final(self).source_size_bytes == old(self).source_size_bytes,
            final(self).switch_outcome == old(self).switch_outcome,
            s.outcome is None,
            actions_view(s.actions@) == rolling_back(step@, e, cleanup_step@, cleanup_message@),
            step_law(final(self).stage, s),
    {
        let empty = Details::empty();
        assert(details_view(empty) =~= Seq::empty());
        let actions = vec![
            failure_log("migration", step, &e),
            update_action("ROLLING_BACK", "broken", Some(e.code.as_str()), Completion::Clear),
            start_log("rollback", cleanup_step, cleanup_message, empty),
        ];
        assert(actions_view(actions@) =~= rolling_back(step@, e, cleanup_step@, cleanup_message@));
        self.stage = next;
        self.failure = Some(e);
        RunStep { actions, outcome: None }
    }

    fn turn_to_temp_cleanup(&mut self, ctx: &MigrationContext, step: &str, e: SwitchError) -> (s: RunStep)
        ensures
            final(self).stage is CleanupTemp,
            final(self).failure == Some(e),
            final(self).source_size_bytes == old(self).source_size_bytes,
            s.outcome is None,
            actions_view(s.actions@) == cleaning_temp(step@, e, ctx.temp_path@),
            step_law(final(self).stage, s),
    {
        let actions = vec![
            failure_log("migration", step, &e),
            start_log("rollback", "cleanup_temp", "rollback cleanup temp started", details1("temp_path", ctx.temp_path.as_str())),
        ];
        assert(actions_view(actions@) =~= cleaning_temp(step@, e, ctx.temp_path@));
        self.stage = MigrationStage::CleanupTemp;
        self.failure = Some(e);
        RunStep { actions, outcome: None }
    }

    /// The end of a cleanup: rolled back with the error that caused it, or failed
    /// with the cleanup's error.
    fn finish_cleanup(&mut self, step: &str, message: &str, details: Details, result: Result<(), SwitchError>) -> (s:
        RunStep)
        requires
            old(self).failure is Some,
        ensures
            final(self).stage is Finished,
            step_law(final(self).stage, s),
            match result {
                Ok(()) => s.outcome == Some(Err::<(), SwitchError>(old(self).failure->Some_0)) && actions_view(s.actions@)
                    == rolled_back(step@, message@, details_view(details), old(self).failure->Some_0),
                Err(e) => s.outcome == Some(Err::<(), SwitchError>(e)) && actions_view(s.actions@) == seq![
                    failed("rollback"@, step@, e),
                    update_view("ROLLBACK_FAILED"@, "broken"@, Some(e.code@), Completion::Now),
                ],
            },
    {
        let cause = match self.failure.take() {
            Some(f) => f,
            None => {
                return RunStep { actions: Vec::new(), outcome: None };
            },
        };
        self.stage = MigrationStage::Finished;
        match result {
            Ok(()) => {
                let actions = vec![
                    success_log("rollback", step, message, details),
                    update_action("ROLLED_BACK", "unknown", Some(cause.code.as_str()), Completion::Now),
                ];
                proof {
                    assert(actions_view(actions@) =~= rolled_back(step@, message@, details_view(details), cause));
                    lemma_last_update(actions_view(actions@), 1);
                }
                RunStep { actions, outcome: Some(Err(cause)) }
            },
            Err(e) => {
                let actions = vec![
                    failure_log("rollback", step, &e),
                    update_action("ROLLBACK_FAILED", "broken", Some(e.code.as_str()), Completion::Now),
                ];
                proof {
                    assert(actions_view(actions@) =~= seq![
                        failed("rollback"@, step@, e),
                        update_view("ROLLBACK_FAILED"@, "broken"@, Some(e.code@), Completion::Now),
                    ]);
                    lemma_last_update(actions_view(actions@), 1);
                }
                RunStep { actions, outcome: Some(Err(e)) }
            },
        }
    }

    /// The records of a successful run, after `prefix`.
    fn commit(&mut self, prefix: Vec<Action>, bootstrap: bool, backup_cleanup: Details) -> (s: RunStep)
        ensures
            final(self).stage is Finished,
            final(self).switch_outcome == old(self).switch_outcome,
            s.outcome == Some(Ok::<(), SwitchError>(())),
            actions_view(s.actions@) == actions_view(prefix@) + if bootstrap {
                bootstrap_committed()
            } else {
                migrate_committed(object_view(backup_cleanup.fields@))
            },
            step_law(final(self).stage, s),
    {
        let ghost cleanup_fields = backup_cleanup.fields@;
        let mut actions = prefix;
        let ghost pv = actions_view(actions@);
        actions.push(update_action("HEALTHY", "healthy", None, Completion::Now));
        let (mode, message, code, note) = if bootstrap {
            (
                "bootstrap",
                "bootstrap mode committed.",
                "HEALTH_BOOTSTRAP_OK",
                "Bootstrap switch and postcheck succeeded.",
            )
        } else {
            ("migrate", "migrate mode committed.", "HEALTH_MIGRATE_OK", "Migrate transaction succeeded.")
        };
        let mut fields = vec![
            text_field("state", "HEALTHY"),
            text_field("health_state", "healthy"),
            text_field("mode", mode),
        ];
        if !bootstrap {
            fields.push(field("cleanup_backup", backup_cleanup.into_value()));
        }
        let d = Details { fields };
        proof {
            if bootstrap {
                assert(details_view(d) =~= seq![
                    ("state"@, Val::Text("HEALTHY"@)),
                    ("health_state"@, Val::Text("healthy"@)),
                    ("mode"@, Val::Text("bootstrap"@)),
                ]);
            } else {
                assert(details_view(d) =~= seq![
                    ("state"@, Val::Text("HEALTHY"@)),
                    ("health_state"@, Val::Text("healthy"@)),
                    ("mode"@, Val::Text("migrate"@)),
                    ("cleanup_backup"@, object_view(cleanup_fields)),
                ]);
            }
        }
        actions.push(
            Action::Log(
                LogPlan {
                    stage: owned("migration"),
                    step: owned("metadata_commit"),
                    status: owned("succeeded"),
                    error_code: None,
                    message: owned(message),
                    details: d,
                    timing: Timing::Zero,
                },
            ),
        );
        actions.push(
            Action::Snapshot(
                SnapshotPlan { state: owned("healthy"), check_code: owned(code), details: details1("message", note) },
            ),
        );
        self.stage = MigrationStage::Finished;
        proof {
            let cv = if bootstrap {
                bootstrap_committed()
            } else {
                migrate_committed(object_view(cleanup_fields))
            };
            assert(actions_view(actions@) =~= pv + cv);
            lemma_last_update(actions_view(actions@), pv.len() as int);
        }
        RunStep { actions, outcome: Some(Ok(())) }
    }

    /// After the bootstrap switch: its changes are kept for a possible
    /// rollback; a failed switch (which undid itself) ends the run.
    pub fn on_bootstrap_switch(&mut self, result: Result<BootstrapSwitchOutcome, SwitchError>) -> (s: RunStep)
        requires
            old(self).stage is BootstrapSwitch,
        ensures
            step_law(final(self).stage, s),
            keeps_trace(old(self).stage, final(self).stage, actions_view(s.actions@)),
            match result {
                Ok(o) => (final(self).stage is BootstrapPostcheck) && final(self).switch_outcome == o && s.outcome is None
                    && actions_view(s.actions@) == seq![
                    succeeded(
                        "migration"@,
                        "bootstrap_switch"@,
                        "bootstrap switch succeeded"@,
                        seq![("source_placeholder_removed"@, Val::Flag(o.source_placeholder_removed)), ("target_dir_created"@, Val::Flag(o.target_dir_created))],
                    ),
                    started("migration"@, "bootstrap_postcheck"@, "bootstrap postcheck started"@, Seq::empty()),
                ],
                Err(e) => s.outcome == Some(Err::<(), SwitchError>(e)) && actions_view(s.actions@) == seq![
                    failed("migration"@, "bootstrap_switch"@, e),
                    update_view("ROLLED_BACK"@, "unknown"@, Some(e.code@), Completion::Now),
                ],
            },
    {
        proof {
            reveal_with_fuel(trace_after, 6);
            lemma_status_words();
        }
        match result {
            Ok(o) => {
                let d = Details {
                    fields: vec![
                        field("source_placeholder_removed", DetailValue::Flag(o.source_placeholder_removed)),
                        field("target_dir_created", DetailValue::Flag(o.target_dir_created)),
                    ],
                };
                assert(details_view(d) =~= seq![("source_placeholder_removed"@, Val::Flag(o.source_placeholder_removed)), ("target_dir_created"@, Val::Flag(o.target_dir_created))]);
                let empty = Details::empty();
                assert(details_view(empty) =~= Seq::empty());
                let actions = vec![
                    success_log("migration", "bootstrap_switch", "bootstrap switch succeeded", d),
                    start_log("migration", "bootstrap_postcheck", "bootstrap postcheck started", empty),
                ];
                assert(actions_view(actions@) =~= seq![
                    succeeded(
                        "migration"@,
                        "bootstrap_switch"@,
                        "bootstrap switch succeeded"@,
                        seq![("source_placeholder_removed"@, Val::Flag(o.source_placeholder_removed)), ("target_dir_created"@, Val::Flag(o.target_dir_created))],
                    ),
                    started("migration"@, "bootstrap_postcheck"@, "bootstrap postcheck started"@, Seq::empty()),
                ]);
                self.switch_outcome = o;
                self.stage = MigrationStage::BootstrapPostcheck;
                RunStep { actions, outcome: None }
            },
            Err(e) => {
                let actions = vec![
                    failure_log("migration", "bootstrap_switch", &e),
                    update_action("ROLLED_BACK", "unknown", Some(e.code.as_str()), Completion::Now),
                ];
                proof {
                    assert(actions_view(actions@) =~= seq![
                        failed("migration"@, "bootstrap_switch"@, e),
                        update_view("ROLLED_BACK"@, "unknown"@, Some(e.code@), Completion::Now),
                    ]);
                    lemma_last_update(actions_view(actions@), 1);
                }
                self.stage = MigrationStage::Finished;
                RunStep { actions, outcome: Some(Err(e)) }
            },
        }
    }

    /// After the postcheck of either mode.  A bootstrap run commits; a
    /// migrate run removes its backup first when asked to.  A failed
    /// postcheck turns the run to undoing the switch.
    pub fn on_postcheck(&mut self, ctx: &MigrationContext, result: Result<Details, SwitchError>) -> (s: RunStep)
        requires
            (old(self).stage is BootstrapPostcheck) || (old(self).stage is Postcheck),
        ensures
            step_law(final(self).stage, s),
            keeps_trace(old(self).stage, final(self).stage, actions_view(s.actions@)),
            final(self).switch_outcome == old(self).switch_outcome,
            old(self).stage is BootstrapPostcheck ==> match result {
                Ok(_) => s.outcome == Some(Ok::<(), SwitchError>(())) && actions_view(s.actions@) == seq![
                    succeeded(
                        "migration"@,
                        "bootstrap_postcheck"@,
                        "bootstrap postcheck succeeded"@,
                        seq![("source_path"@, Val::Text(ctx.source_path@)), ("target_path"@, Val::Text(ctx.target_path@))],
                    ),
                ] + bootstrap_committed(),
                Err(e) => (final(self).stage is BootstrapCleanup) && final(self).failure == Some(e) && actions_view(
                    s.actions@,
                ) == rolling_back(
                    "bootstrap_postcheck"@,
                    e,
                    "bootstrap_cleanup"@,
                    "bootstrap rollback cleanup started"@,
                ),
            },
            old(self).stage is Postcheck ==> match result {
                Ok(_) => actions_view(s.actions@)[0] == succeeded(
                    "migration"@,
                    "postcheck"@,
                    "postcheck succeeded"@,
                    seq![("source_path"@, Val::Text(ctx.source_path@)), ("target_path"@, Val::Text(ctx.target_path@))],
                ) && if ctx.cleanup_backup_after_migrate {
                    (final(self).stage is CleanupBackup) && s.outcome is None && actions_view(s.actions@).skip(1) == seq![
                        started(
                            "migration"@,
                            "cleanup_backup"@,
                            "cleanup backup started"@,
                            seq![("backup_path"@, Val::Text(ctx.backup_path@))],
                        ),
                    ]
                } else {
                    s.outcome == Some(Ok::<(), SwitchError>(())) && actions_view(s.actions@).skip(1) == migrate_committed(cleanup_skipped())
                },
                Err(e) => (final(self).stage is MigrateCleanup) && final(self).failure == Some(e) && actions_view(
                    s.actions@,
                ) == rolling_back("postcheck"@, e, "migrate_cleanup"@, "migrate rollback cleanup started"@),
            },
    {
        proof {
            reveal_with_fuel(trace_after, 6);
            lemma_status_words();
        }
        let bootstrap = match self.stage {
            MigrationStage::BootstrapPostcheck => true,
            _ => false,
        };
        match result {
            Err(e) => {
                if bootstrap {
                    self.turn_to_rollback(
                        "bootstrap_postcheck",
                        e,
                        "bootstrap_cleanup",
                        "bootstrap rollback cleanup started",
                        MigrationStage::BootstrapCleanup,
                    )
                } else {
                    self.turn_to_rollback(
                        "postcheck",
                        e,
                        "migrate_cleanup",
                        "migrate rollback cleanup started",
                        MigrationStage::MigrateCleanup,
                    )
                }
            },
            Ok(_) => {
                let step = if bootstrap {
                    "bootstrap_postcheck"
                } else {
                    "postcheck"
                };
                let message = if bootstrap {
                    "bootstrap postcheck succeeded"
                } else {
                    "postcheck succeeded"
                };
                let first = success_log(
                    "migration",
                    step,
                    message,
                    details2("source_path", ctx.source_path.as_str(), "target_path", ctx.target_path.as_str()),
                );
                let ghost fv = first@;
                let mut actions = vec![first];
                assert(actions_view(actions@) =~= seq![fv]);
                if !bootstrap && ctx.cleanup_backup_after_migrate {
                    actions.push(
                        start_log(
                            "migration",
                            "cleanup_backup",
                            "cleanup backup started",
                            details1("backup_path", ctx.backup_path.as_str()),
                        ),
                    );
                    self.stage = MigrationStage::CleanupBackup;
                    assert(actions_view(actions@).skip(1) =~= seq![
                        started(
                            "migration"@,
                            "cleanup_backup"@,
                            "cleanup backup started"@,
                            seq![("backup_path"@, Val::Text(ctx.backup_path@))],
                        ),
                    ]);
                    RunStep { actions, outcome: None }
                } else {
                    let cleanup = Details {
                        fields: vec![
                            field("enabled", DetailValue::Flag(false)),
                            field("attempted", DetailValue::Flag(false)),
                            field("removed", DetailValue::Flag(false)),
                        ],
                    };
                    assert(cleanup.fields@.map_values(|f: DetailField| flat_field_view(f)) =~= seq![
                        ("enabled"@, Leaf::Flag(false)),
                        ("attempted"@, Leaf::Flag(false)),
                        ("removed"@, Leaf::Flag(false)),
                    ]);
                    let s = self.commit(actions, bootstrap, cleanup);
                    proof {
                        if !bootstrap {
                            assert(actions_view(s.actions@).skip(1) =~= migrate_committed(cleanup_skipped()));
                        }
                    }
                    s
                }
            },
        }
    }

    /// After undoing a switch (bootstrap or migrate).
    pub fn on_rollback(&mut self, result: Result<(), SwitchError>) -> (s: RunStep)
        requires
            (old(self).stage is BootstrapCleanup) || (old(self).stage is MigrateCleanup),
            old(self).failure is Some,
        ensures
            step_law(final(self).stage, s),
            keeps_trace(old(self).stage, final(self).stage, actions_view(s.actions@)),
            ({
                let (step, message) = if old(self).stage is BootstrapCleanup {
                    ("bootstrap_cleanup"@, "bootstrap rollback cleanup succeeded"@)
                } else {
                    ("migrate_cleanup"@, "migrate rollback cleanup succeeded"@)
                };
                match result {
                    Ok(()) => s.outcome == Some(Err::<(), SwitchError>(old(self).failure->Some_0)) && actions_view(
                        s.actions@,
                    ) == rolled_back(step, message, Seq::empty(), old(self).failure->Some_0),
                    Err(e) => s.outcome == Some(Err::<(), SwitchError>(e)) && actions_view(s.actions@) == seq![
                        failed("rollback"@, step, e),
                        update_view("ROLLBACK_FAILED"@, "broken"@, Some(e.code@), Completion::Now),
                    ],
                }
            }),
    {
        proof {
            reveal_with_fuel(trace_after, 6);
            lemma_status_words();
        }
        let empty = Details::empty();
        assert(details_view(empty) =~= Seq::empty());
        match self.stage {
            MigrationStage::BootstrapCleanup => self.finish_cleanup(
                "bootstrap_cleanup",
                "bootstrap rollback cleanup succeeded",
                empty,
                result,
            ),
            _ => self.finish_cleanup("migrate_cleanup", "migrate rollback cleanup succeeded", empty, result),
        }
    }

    /// After copying the source to the temporary path.
    pub fn on_copy(&mut self, ctx: &MigrationContext, result: Result<CopyResult, SwitchError>) -> (s: RunStep)
        requires
            old(self).stage is CopyToTemp,
        ensures
            step_law(final(self).stage, s),
            keeps_trace(old(self).stage, final(self).stage, actions_view(s.actions@)),
            s.outcome is None,
            match result {
                Ok(c) => (final(self).stage is VerifyCopy) && actions_view(s.actions@) == seq![
                    succeeded("migration"@, "copy_to_temp"@, "copy source -> temp succeeded"@, seq![("copied_bytes"@, Val::Number(c.copied_bytes))]),
                    update_view("VERIFYING"@, "unknown"@, None, Completion::Clear),
                    started(
                        "migration"@,
                        "verify_copy"@,
                        "verify source/temp started"@,
                        seq![("source_path"@, Val::Text(ctx.source_path@)), ("temp_path"@, Val::Text(ctx.temp_path@))],
                    ),
                ],
                Err(e) => (final(self).stage is CleanupTemp) && final(self).failure == Some(e) && actions_view(s.actions@)
                    == cleaning_temp("copy_to_temp"@, e, ctx.temp_path@),
            },
    {
        proof {
            reveal_with_fuel(trace_after, 6);
            lemma_status_words();
        }
        match result {
            Err(e) => self.turn_to_temp_cleanup(ctx, "copy_to_temp", e),
            Ok(c) => {
                let d = Details { fields: vec![field("copied_bytes", DetailValue::Number(c.copied_bytes))] };
                assert(details_view(d) =~= seq![("copied_bytes"@, Val::Number(c.copied_bytes))]);
                let actions = vec![
                    success_log("migration", "copy_to_temp", "copy source -> temp succeeded", d),
                    update_action("VERIFYING", "unknown", None, Completion::Clear),
                    start_log(
                        "migration",
                        "verify_copy",
                        "verify source/temp started",
                        details2("source_path", ctx.source_path.as_str(), "temp_path", ctx.temp_path.as_str()),
                    ),
                ];
                assert(actions_view(actions@) =~= seq![
                    succeeded("migration"@, "copy_to_temp"@, "copy source -> temp succeeded"@, seq![("copied_bytes"@, Val::Number(c.copied_bytes))]),
                    update_view("VERIFYING"@, "unknown"@, None, Completion::Clear),
                    started(
                        "migration"@,
                        "verify_copy"@,
                        "verify source/temp started"@,
                        seq![("source_path"@, Val::Text(ctx.source_path@)), ("temp_path"@, Val::Text(ctx.temp_path@))],
                    ),
                ]);
                self.stage = MigrationStage::VerifyCopy;
                RunStep { actions, outcome: None }
            },
        }
    }

    /// After removing the temporary copy of a failed copy or verification.
    pub fn on_cleanup_temp(&mut self, ctx: &MigrationContext, result: Result<(), SwitchError>) -> (s: RunStep)
        requires
            old(self).stage is CleanupTemp,
            old(self).failure is Some,
        ensures
            step_law(final(self).stage, s),
            keeps_trace(old(self).stage, final(self).stage, actions_view(s.actions@)),
            match result {
                Ok(()) => s.outcome == Some(Err::<(), SwitchError>(old(self).failure->Some_0)) && actions_view(s.actions@)
                    == rolled_back(
                    "cleanup_temp"@,
                    "rollback cleanup temp succeeded"@,
                    seq![("temp_path"@, Val::Text(ctx.temp_path@))],
                    old(self).failure->Some_0,
                ),
                Err(e) => s.outcome == Some(Err::<(), SwitchError>(e)) && actions_view(s.actions@) == seq![
                    failed("rollback"@, "cleanup_temp"@, e),
                    update_view("ROLLBACK_FAILED"@, "broken"@, Some(e.code@), Completion::Now),
                ],
            },
    {
        proof {
            reveal_with_fuel(trace_after, 6);
            lemma_status_words();
        }
        let d = details1("temp_path", ctx.temp_path.as_str());
        self.finish_cleanup("cleanup_temp", "rollback cleanup temp succeeded", d, result)
    }

    /// After verifying the copy: the measured sizes are recorded and the
    /// switch starts.
    pub fn on_verify(&mut self, ctx: &MigrationContext, result: Result<VerifyResult, SwitchError>) -> (s: RunStep)
        requires
            old(self).stage is VerifyCopy,
        ensures
            step_law(final(self).stage, s),
            keeps_trace(old(self).stage, final(self).stage, actions_view(s.actions@)),
            s.outcome is None,
            match result {
                Ok(v) => (final(self).stage is SwitchPaths) && actions_view(s.actions@) == seq![
                    succeeded(
                        "migration"@,
                        "verify_copy"@,
                        "verify source/temp succeeded"@,
                        seq![("source_size_bytes"@, Val::Number(v.source_size_bytes)), ("temp_size_bytes"@, Val::Number(v.temp_size_bytes))],
                    ),
                    ActionView::Sizes { source_size_bytes: v.source_size_bytes, target_size_bytes: v.temp_size_bytes },
                    update_view("SWITCHING"@, "unknown"@, None, Completion::Clear),
                    started(
                        "migration"@,
                        "switch_paths"@,
                        "switch paths started"@,
                        seq![
                            ("source_path"@, Val::Text(ctx.source_path@)),
                            ("temp_path"@, Val::Text(ctx.temp_path@)),
                            ("target_path"@, Val::Text(ctx.target_path@)),
                            ("backup_path"@, Val::Text(ctx.backup_path@)),
                        ],
                    ),
                ],
                Err(e) => (final(self).stage is CleanupTemp) && final(self).failure == Some(e) && actions_view(s.actions@)
                    == cleaning_temp("verify_copy"@, e, ctx.temp_path@),
            },
    {
        proof {
            reveal_with_fuel(trace_after, 6);
            lemma_status_words();
        }
        match result {
            Err(e) => self.turn_to_temp_cleanup(ctx, "verify_copy", e),
            Ok(v) => {
                let d = Details {
                    fields: vec![
                        field("source_size_bytes", DetailValue::Number(v.source_size_bytes)),
                        field("temp_size_bytes", DetailValue::Number(v.temp_size_bytes)),
                    ],
                };
                assert(details_view(d) =~= seq![("source_size_bytes"@, Val::Number(v.source_size_bytes)), ("temp_size_bytes"@, Val::Number(v.temp_size_bytes))]);
                let actions = vec![
                    success_log("migration", "verify_copy", "verify source/temp succeeded", d),
                    Action::Sizes { source_size_bytes: v.source_size_bytes, target_size_bytes: v.temp_size_bytes },
                    update_action("SWITCHING", "unknown", None, Completion::Clear),
                    start_log(
                        "migration",
                        "switch_paths",
                        "switch paths started",
                        details4(
                            "source_path",
                            ctx.source_path.as_str(),
                            "temp_path",
                            ctx.temp_path.as_str(),
                            "target_path",
                            ctx.target_path.as_str(),
                            "backup_path",
                            ctx.backup_path.as_str(),
                        ),
                    ),
                ];
                assert(actions_view(actions@) =~= seq![
                    succeeded(
                        "migration"@,
                        "verify_copy"@,
                        "verify source/temp succeeded"@,
                        seq![("source_size_bytes"@, Val::Number(v.source_size_bytes)), ("temp_size_bytes"@, Val::Number(v.temp_size_bytes))],
                    ),
                    ActionView::Sizes { source_size_bytes: v.source_size_bytes, target_size_bytes: v.temp_size_bytes },
                    update_view("SWITCHING"@, "unknown"@, None, Completion::Clear),
                    started(
                        "migration"@,
                        "switch_paths"@,
                        "switch paths started"@,
                        seq![
                            ("source_path"@, Val::Text(ctx.source_path@)),
                            ("temp_path"@, Val::Text(ctx.temp_path@)),
                            ("target_path"@, Val::Text(ctx.target_path@)),
                            ("backup_path"@, Val::Text(ctx.backup_path@)),
                        ],
                    ),
                ]);
                self.stage = MigrationStage::SwitchPaths;
                RunStep { actions, outcome: None }
            },
        }
    }

    /// After the migrate switch.
    pub fn on_switch(&mut self, result: Result<(), SwitchError>) -> (s: RunStep)
        requires
            old(self).stage is SwitchPaths,
        ensures
            step_law(final(self).stage, s),
            keeps_trace(old(self).stage, final(self).stage, actions_view(s.actions@)),
            s.outcome is None,
            match result {
                Ok(()) => (final(self).stage is Postcheck) && actions_view(s.actions@) == seq![
                    succeeded("migration"@, "switch_paths"@, "switch paths succeeded"@, Seq::empty()),
                    update_view("POSTCHECKING"@, "unknown"@, None, Completion::Clear),
                    started("migration"@, "postcheck"@, "postcheck started"@, Seq::empty()),
                ],
                Err(e) => (final(self).stage is MigrateCleanup) && final(self).failure == Some(e) && actions_view(s.actions@)
                    == rolling_back("switch_paths"@, e, "migrate_cleanup"@, "migrate rollback cleanup started"@),
            },
    {
        proof {
            reveal_with_fuel(trace_after, 6);
            lemma_status_words();
        }
        match result {
            Err(e) => self.turn_to_rollback(
                "switch_paths",
                e,
                "migrate_cleanup",
                "migrate rollback cleanup started",
                MigrationStage::MigrateCleanup,
            ),
            Ok(()) => {
                let e1 = Details::empty();
                let e2 = Details::empty();
                assert(details_view(e1) =~= Seq::empty());
                assert(details_view(e2) =~= Seq::empty());
                let actions = vec![
                    success_log("migration", "switch_paths", "switch paths succeeded", e1),
                    update_action("POSTCHECKING", "unknown", None, Completion::Clear),
                    start_log("migration", "postcheck", "postcheck started", e2),
                ];
                assert(actions_view(actions@) =~= seq![
                    succeeded("migration"@, "switch_paths"@, "switch paths succeeded"@, Seq::empty()),
                    update_view("POSTCHECKING"@, "unknown"@, None, Completion::Clear),
                    started("migration"@, "postcheck"@, "postcheck started"@, Seq::empty()),
                ]);
                self.stage = MigrationStage::Postcheck;
                RunStep { actions, outcome: None }
            },
        }
    }

    /// After removing the backup: a failure is recorded but does not fail
    /// the run, which commits either way.
    pub fn on_backup_removed(&mut self, ctx: &MigrationContext, result: Result<(), SwitchError>) -> (s: RunStep)
        requires
            old(self).stage is CleanupBackup,
        ensures
            step_law(final(self).stage, s),
            keeps_trace(old(self).stage, final(self).stage, actions_view(s.actions@)),
            s.outcome == Some(Ok::<(), SwitchError>(())),
            match result {
                Ok(()) => actions_view(s.actions@) == seq![
                    succeeded(
                        "migration"@,
                        "cleanup_backup"@,
                        "cleanup backup succeeded"@,
                        seq![
                            ("enabled"@, Val::Flag(true)),
                            ("attempted"@, Val::Flag(true)),
                            ("removed"@, Val::Flag(true)),
                            ("backup_path"@, Val::Text(ctx.backup_path@)),
                        ],
                    ),
                ] + migrate_committed(cleanup_done(ctx.backup_path@)),
                Err(e) => actions_view(s.actions@) == seq![failed("migration"@, "cleanup_backup"@, e)] + migrate_committed(
                    cleanup_failed(ctx.backup_path@, e),
                ),
            },
    {
        proof {
            reveal_with_fuel(trace_after, 6);
            lemma_status_words();
        }
        match result {
            Ok(()) => {
                let logged = backup_removed_details(ctx.backup_path.as_str());
                let kept = backup_removed_details(ctx.backup_path.as_str());
                proof {
                    lemma_object_view(kept);
                    assert(details_view(kept).map_values(|p: (Seq<char>, Val)| (p.0, leaf_of(p.1))) =~= seq![
                        ("enabled"@, Leaf::Flag(true)),
                        ("attempted"@, Leaf::Flag(true)),
                        ("removed"@, Leaf::Flag(true)),
                        ("backup_path"@, Leaf::Text(ctx.backup_path@)),
                    ]);
                    assert(object_view(kept.fields@) == cleanup_done(ctx.backup_path@));
                }
                let first = success_log("migration", "cleanup_backup", "cleanup backup succeeded", logged);
                let prefix = vec![first];
                let ghost pv = actions_view(prefix@);
                assert(pv =~= seq![
                    succeeded(
                        "migration"@,
                        "cleanup_backup"@,
                        "cleanup backup succeeded"@,
                        seq![
                            ("enabled"@, Val::Flag(true)),
                            ("attempted"@, Val::Flag(true)),
                            ("removed"@, Val::Flag(true)),
                            ("backup_path"@, Val::Text(ctx.backup_path@)),
                        ],
                    ),
                ]);
                self.commit(prefix, false, kept)
            },
            Err(e) => {
                let kept = Details {
                    fields: vec![
                        field("enabled", DetailValue::Flag(true)),
                        field("attempted", DetailValue::Flag(true)),
                        field("removed", DetailValue::Flag(false)),
                        text_field("backup_path", ctx.backup_path.as_str()),
                        text_field("error_code", e.code.as_str()),
                        text_field("error", e.message.as_str()),
                    ],
                };
                assert(kept.fields@.map_values(|f: DetailField| flat_field_view(f)) =~= seq![
                    ("enabled"@, Leaf::Flag(true)),
                    ("attempted"@, Leaf::Flag(true)),
                    ("removed"@, Leaf::Flag(false)),
                    ("backup_path"@, Leaf::Text(ctx.backup_path@)),
                    ("error_code"@, Leaf::Text(e.code@)),
                    ("error"@, Leaf::Text(e.message@)),
                ]);
                let prefix = vec![failure_log("migration", "cleanup_backup", &e)];
                assert(actions_view(prefix@) =~= seq![failed("migration"@, "cleanup_backup"@, e)]);
                self.commit(prefix, false, kept)
            },
        }
    }
}

} // verus!
