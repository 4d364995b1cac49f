//! Rolling back a relocation on request, as a state machine: remove the
//! source link, restore the source, remove the temporary copy, and commit.
//! Each method takes the outcome of the outside work of its stage and
//! answers with the records to write and the next stage or the end.

use crate::fsops::{err_is, switch_error, SwitchError};
use crate::models::{copy_details, details1, details2, details_view, opt_text_field, text_field, DetailField, DetailValue, Details};
use crate::paths::{temp_path_for, temp_path_spec};
use crate::plans::{
    actions_view, failed, failure_log, lemma_batches_trace, lemma_status_words, start_log, started, succeeded, success_log,
    trace_after, update_action, update_view, Action, ActionView, Completion, Dv, LogPlan, SnapshotPlan, Timing,
};
use crate::records::{clone_opt, RelocationRecord};
use crate::text::{owned, str_eq};
use crate::workflow::{ends_failed, last_update_at, RunStep};
use crate::models::{lemma_object_view, nested_view, opt_val, Val};
use vstd::prelude::*;

verus! {

/// The fixed facts of a rollback.
#[derive(Debug)]
pub struct RollbackContext {
    pub relocation_id: String,
    pub mode: String,
    /// The state before the rollback.
    pub previous_state: String,
    pub source_path: String,
    pub target_path: String,
    pub backup_path: Option<String>,
    pub temp_path: String,
    /// Replace an existing source by the backup.
    pub force: bool,
}

pub fn rollback_context(record: &RelocationRecord, force: bool) -> (c: RollbackContext)
    ensures
        c.relocation_id@ == record.relocation_id@,
        c.mode@ == record.mode@,
        c.previous_state@ == record.state@,
        c.source_path@ == record.source_path@,
        c.target_path@ == record.target_path@,
        c.backup_path == record.backup_path,
        c.temp_path@ == temp_path_spec(record.target_path@, record.relocation_id@),
        c.force == force,
{
    RollbackContext {
        relocation_id: record.relocation_id.clone(),
        mode: record.mode.clone(),
        previous_state: record.state.clone(),
        source_path: record.source_path.clone(),
        target_path: record.target_path.clone(),
        backup_path: clone_opt(&record.backup_path),
        temp_path: temp_path_for(record.target_path.as_str(), record.relocation_id.as_str()),
        force,
    }
}

/// Where a rollback stands.
#[derive(Clone, Copy, Debug)]
pub enum RollbackStage {
    /// Remove the source link, if the source is one.
    RemoveLink,
    /// Bring the source data back.
    RestoreSource,
    /// Remove the temporary copy.
    CleanupTemp,
    Finished,
}

#[derive(Debug)]
pub struct RollbackRun {
    pub stage: RollbackStage,
    /// How the source was restored.
    pub restore: Option<Details>,
}

fn field(key: &str, value: DetailValue) -> (f: DetailField)
    ensures
        f.key@ == key@,
        f.value == value,
{
    DetailField { key: owned(key), value }
}

proof fn lemma_last_update(acts: Seq<ActionView>, i: int)
    requires
        0 <= i < acts.len(),
        acts[i] is Update,
        forall|j: int| i < j < acts.len() ==> !(acts[j] is Update),
    ensures
        last_update_at(acts, i),
{
}

/// The rollback's last state change is the rolled-back, healthy state.
pub open spec fn ends_rolled_back(acts: Seq<ActionView>) -> bool {
    exists|i: int|
        last_update_at(acts, i) && acts[i] == update_view("ROLLED_BACK"@, "healthy"@, None, Completion::Now)
}

/// What holds of every transition of a rollback: it is over exactly when an
/// outcome is given; a failed rollback's last state change records the
/// reported error; a successful one ends rolled back and healthy.
pub open spec fn rollback_law(stage: RollbackStage, step: RunStep) -> bool {
    &&& (stage is Finished) <==> (step.outcome is Some)
    &&& step.outcome matches Some(Err(e)) ==> ends_failed(actions_view(step.actions@), e.code@)
    &&& step.outcome matches Some(Ok(())) ==> ends_rolled_back(actions_view(step.actions@))
}

/// The step, by stage and name of its log entries, that a rollback waiting
/// in `stage` has started and not yet finished.
pub open spec fn rollback_open_step(stage: RollbackStage) -> Option<(Seq<char>, Seq<char>)> {
    match stage {
        RollbackStage::RemoveLink => Some(("rollback"@, "remove_source_symlink"@)),
        RollbackStage::RestoreSource => Some(("rollback"@, "restore_source"@)),
        RollbackStage::CleanupTemp => Some(("rollback"@, "cleanup_temp"@)),
        RollbackStage::Finished => None,
    }
}

/// A transition of a rollback from `from` to `to` that writes `acts`
/// finishes the step open in `from`, pairs every step it starts with its end
/// entry, and leaves open exactly the step that `to` waits for.
pub open spec fn keeps_rollback_trace(from: RollbackStage, to: RollbackStage, acts: Seq<ActionView>) -> bool {
    trace_after(Some(rollback_open_step(from)), acts) == Some(rollback_open_step(to))
}

/// A rollback leaves a complete trace: over all the entries it writes, from
/// its start to its end, every step that starts is finished by an entry of
/// the same stage and step before another step starts, and no end entry
/// names another step than the open one.  `batches[0]` is what the start
/// writes and `stages[0]` the stage it leaves the rollback in; each later
/// batch is what a transition from `stages[i - 1]` to `stages[i]` writes (as
/// every transition's contract gives it); the last stage is the end.
pub proof fn rollback_trace_is_complete(stages: Seq<RollbackStage>, batches: Seq<Seq<ActionView>>)
    requires
        batches.len() == stages.len(),
        batches.len() > 0,
        trace_after(Some(None), batches[0]) == Some(rollback_open_step(stages[0])),
        forall|i: int|
            0 <= i < batches.len() - 1 ==> keeps_rollback_trace(#[trigger] stages[i], stages[i + 1], batches[i + 1]),
        stages.last() is Finished,
    ensures
        trace_after(Some(None), batches.flatten()) == Some(None::<(Seq<char>, Seq<char>)>),
{
    let opens = stages.map_values(|st: RollbackStage| rollback_open_step(st));
    assert forall|i: int| 0 <= i < batches.len() - 1 implies trace_after(Some(#[trigger] opens[i]), batches[i + 1]) == Some(
        opens[i + 1],
    ) by {
        assert(keeps_rollback_trace(stages[i], stages[i + 1], batches[i + 1]));
    }
    lemma_batches_trace(None, opens, batches);
}

pub open spec fn rollback_failed(step: Seq<char>, e: SwitchError) -> Seq<ActionView> {
    seq![failed("rollback"@, step, e), update_view("ROLLBACK_FAILED"@, "broken"@, Some(e.code@), Completion::Now)]
}

pub open spec fn restore_started(c: RollbackContext) -> ActionView {
    started(
        "rollback"@,
        "restore_source"@,
        "rollback restore source started"@,
        seq![
            ("source_path"@, Val::Text(c.source_path@)),
            ("target_path"@, Val::Text(c.target_path@)),
            ("backup_path"@, opt_val(c.backup_path)),
        ],
    )
}

/// What is found at the source when its link is to be removed.
#[derive(Debug)]
pub enum LinkRemoval {
    /// The source was a link; its removal went so.
    Removed(Result<(), String>),
    NotSymlink,
    Missing,
    Unreadable(String),
}

/// The outcome of removing the source link.
pub fn link_removal_result(source_path: &str, obs: &LinkRemoval) -> (r: Result<Details, SwitchError>)
    ensures
        match *obs {
            LinkRemoval::Removed(Ok(())) => r matches Ok(d) && details_view(d) == seq![("removed"@, Val::Flag(true))],
            LinkRemoval::Removed(Err(error)) => r matches Err(e) && err_is(
                e,
                "ROLLBACK_REMOVE_SYMLINK_FAILED"@,
                "failed to remove source symlink."@,
                true,
                seq![("source_path"@, Val::Text(source_path@)), ("error"@, Val::Text(error@))],
            ),
            LinkRemoval::NotSymlink => r matches Ok(d) && details_view(d) == seq![
                ("removed"@, Val::Flag(false)),
                ("reason"@, Val::Text("source_not_symlink"@)),
            ],
            LinkRemoval::Missing => r matches Ok(d) && details_view(d) == seq![
                ("removed"@, Val::Flag(false)),
                ("reason"@, Val::Text("source_missing"@)),
            ],
            LinkRemoval::Unreadable(error) => r matches Err(e) && err_is(
                e,
                "ROLLBACK_REMOVE_SYMLINK_FAILED"@,
                "failed to inspect source path."@,
                true,
                seq![("source_path"@, Val::Text(source_path@)), ("error"@, Val::Text(error@))],
            ),
        },
{
    match obs {
        LinkRemoval::Removed(Ok(())) => {
            let d = Details { fields: vec![field("removed", DetailValue::Flag(true))] };
            assert(details_view(d) =~= seq![("removed"@, Val::Flag(true))]);
            Ok(d)
        },
        LinkRemoval::Removed(Err(error)) => Err(
            switch_error(
                "ROLLBACK_REMOVE_SYMLINK_FAILED",
                "failed to remove source symlink.",
                true,
                details2("source_path", source_path, "error", error.as_str()),
            ),
        ),
        LinkRemoval::NotSymlink => {
            let d = Details {
                fields: vec![field("removed", DetailValue::Flag(false)), text_field("reason", "source_not_symlink")],
            };
            assert(details_view(d) =~= seq![("removed"@, Val::Flag(false)), ("reason"@, Val::Text("source_not_symlink"@))]);
            Ok(d)
        },
        LinkRemoval::Missing => {
            let d = Details {
                fields: vec![field("removed", DetailValue::Flag(false)), text_field("reason", "source_missing")],
            };
            assert(details_view(d) =~= seq![("removed"@, Val::Flag(false)), ("reason"@, Val::Text("source_missing"@))]);
            Ok(d)
        },
        LinkRemoval::Unreadable(error) => Err(
            switch_error(
                "ROLLBACK_REMOVE_SYMLINK_FAILED",
                "failed to inspect source path.",
                true,
                details2("source_path", source_path, "error", error.as_str()),
            ),
        ),
    }
}

/// The next step of restoring the source.
#[derive(Debug)]
pub enum RestoreNext {
    /// Remove the existing source (forced restore from the backup).
    RemoveSource,
    /// Rename the backup to the source.
    RenameBackup,
    /// Rename the target to the source.
    RenameTarget,
    /// Copy the target to the source (renaming it failed).
    CopyTarget { rename_error: String },
    /// Create an empty source directory.
    CreateSource,
    Done(Result<Details, SwitchError>),
}

pub open spec fn restore_error(e: SwitchError, message: Seq<char>, details: Dv) -> bool {
    err_is(e, "ROLLBACK_RESTORE_BACKUP_FAILED"@, message, false, details)
}

/// How the source is restored: from the backup when there is one (an
/// existing source is replaced only when forced); in bootstrap mode from
/// the target, or as an empty directory; otherwise from the target unless
/// the source is already there.
pub fn restore_start(ctx: &RollbackContext, backup_exists: bool, source_exists: bool, target_exists: bool) -> (n:
    RestoreNext)
    ensures
        ctx.backup_path is Some && backup_exists ==> if source_exists {
            if ctx.force {
                (n is RemoveSource)
            } else {
                n matches RestoreNext::Done(Err(e)) && restore_error(
                    e,
                    "source path exists while backup path is present, set force=true to override."@,
                    seq![("source_path"@, Val::Text(ctx.source_path@)), ("backup_path"@, opt_val(ctx.backup_path))],
                )
            }
        } else {
            (n is RenameBackup)
        },
        !(ctx.backup_path is Some && backup_exists) && ctx.mode@ == "bootstrap"@ ==> if !source_exists {
            if target_exists {
                (n is RenameTarget)
            } else {
                (n is CreateSource)
            }
        } else {
            n matches RestoreNext::Done(Ok(d)) && details_view(d) == seq![("method"@, Val::Text("source_already_present"@))]
        },
        !(ctx.backup_path is Some && backup_exists) && ctx.mode@ != "bootstrap"@ ==> if source_exists {
            n matches RestoreNext::Done(Ok(d)) && details_view(d) == seq![
                ("method"@, Val::Text("source_already_present"@)),
                ("backup_found"@, Val::Flag(false)),
            ]
        } else if target_exists {
            (n is RenameTarget)
        } else {
            n matches RestoreNext::Done(Err(e)) && restore_error(
                e,
                "source path missing and backup path not found."@,
                seq![
                    ("source_path"@, Val::Text(ctx.source_path@)),
                    ("target_path"@, Val::Text(ctx.target_path@)),
                    ("backup_path"@, opt_val(ctx.backup_path)),
                ],
            )
        },
{
    if ctx.backup_path.is_some() && backup_exists {
        if source_exists {
            if ctx.force {
                return RestoreNext::RemoveSource;
            }
            let d = Details {
                fields: vec![
                    text_field("source_path", ctx.source_path.as_str()),
                    opt_text_field("backup_path", &ctx.backup_path),
                ],
            };
            assert(details_view(d) =~= seq![
                ("source_path"@, Val::Text(ctx.source_path@)),
                ("backup_path"@, opt_val(ctx.backup_path)),
            ]);
            return RestoreNext::Done(
                Err(
                    switch_error(
                        "ROLLBACK_RESTORE_BACKUP_FAILED",
                        "source path exists while backup path is present, set force=true to override.",
                        false,
                        d,
                    ),
                ),
            );
        }
        return RestoreNext::RenameBackup;
    }
    if str_eq(ctx.mode.as_str(), "bootstrap") {
        if !source_exists {
            if target_exists {
                return RestoreNext::RenameTarget;
            }
            return RestoreNext::CreateSource;
        }
        return RestoreNext::Done(Ok(details1("method", "source_already_present")));
    }
    if source_exists {
        let d = Details {
            fields: vec![text_field("method", "source_already_present"), field("backup_found", DetailValue::Flag(false))],
        };
        assert(details_view(d) =~= seq![("method"@, Val::Text("source_already_present"@)), ("backup_found"@, Val::Flag(false))]);
        return RestoreNext::Done(Ok(d));
    }
    if target_exists {
        return RestoreNext::RenameTarget;
    }
    let d = Details {
        fields: vec![
            text_field("source_path", ctx.source_path.as_str()),
            text_field("target_path", ctx.target_path.as_str()),
            opt_text_field("backup_path", &ctx.backup_path),
        ],
    };
    assert(details_view(d) =~= seq![
        ("source_path"@, Val::Text(ctx.source_path@)),
        ("target_path"@, Val::Text(ctx.target_path@)),
        ("backup_path"@, opt_val(ctx.backup_path)),
    ]);
    RestoreNext::Done(
        Err(switch_error("ROLLBACK_RESTORE_BACKUP_FAILED", "source path missing and backup path not found.", false, d)),
    )
}

/// After removing the existing source for a forced restore.
pub fn restore_after_remove(result: Result<(), SwitchError>) -> (n: RestoreNext)
    ensures
        match result {
            Ok(()) => (n is RenameBackup),
            Err(e) => n == RestoreNext::Done(Err(e)),
        },
{
    match result {
        Ok(()) => RestoreNext::RenameBackup,
        Err(e) => RestoreNext::Done(Err(e)),
    }
}

/// After renaming the backup to the source.
pub fn restore_after_backup_rename(ctx: &RollbackContext, result: &Result<(), String>) -> (r: Result<Details, SwitchError>)
    ensures
        match *result {
            Ok(()) => r matches Ok(d) && details_view(d) == seq![("method"@, Val::Text("backup_rename"@)), ("force"@, Val::Flag(ctx.force))],
            Err(error) => r matches Err(e) && restore_error(
                e,
                "failed to restore source path from backup path."@,
                seq![
                    ("source_path"@, Val::Text(ctx.source_path@)),
                    ("backup_path"@, opt_val(ctx.backup_path)),
                    ("error"@, Val::Text(error@)),
                ],
            ),
        },
{
    match result {
        Ok(()) => {
            let d = Details { fields: vec![text_field("method", "backup_rename"), field("force", DetailValue::Flag(ctx.force))] };
            assert(details_view(d) =~= seq![("method"@, Val::Text("backup_rename"@)), ("force"@, Val::Flag(ctx.force))]);
            Ok(d)
        },
        Err(error) => {
            let d = Details {
                fields: vec![
                    text_field("source_path", ctx.source_path.as_str()),
                    opt_text_field("backup_path", &ctx.backup_path),
                    text_field("error", error.as_str()),
                ],
            };
            assert(details_view(d) =~= seq![
                ("source_path"@, Val::Text(ctx.source_path@)),
                ("backup_path"@, opt_val(ctx.backup_path)),
                ("error"@, Val::Text(error@)),
            ]);
            Err(switch_error("ROLLBACK_RESTORE_BACKUP_FAILED", "failed to restore source path from backup path.", false, d))
        },
    }
}

pub open spec fn rename_method(bootstrap: bool) -> Seq<char> {
    if bootstrap {
        "target_rename_to_source"@
    } else {
        "target_rename_to_source_without_backup"@
    }
}

pub open spec fn copy_method(bootstrap: bool) -> Seq<char> {
    if bootstrap {
        "target_copy_to_source"@
    } else {
        "target_copy_to_source_without_backup"@
    }
}

/// After renaming the target to the source; a failed rename falls back to
/// copying.
pub fn restore_after_target_rename(ctx: &RollbackContext, result: Result<(), String>) -> (n: RestoreNext)
    ensures
        match result {
            Ok(()) => n matches RestoreNext::Done(Ok(d)) && details_view(d) == seq![
                ("method"@, Val::Text(rename_method(ctx.mode@ == "bootstrap"@))),
                ("force"@, Val::Flag(ctx.force)),
            ],
            Err(error) => n matches RestoreNext::CopyTarget { rename_error } && rename_error@ == error@,
        },
{
    match result {
        Ok(()) => {
            let method = if str_eq(ctx.mode.as_str(), "bootstrap") {
                "target_rename_to_source"
            } else {
                "target_rename_to_source_without_backup"
            };
            let d = Details { fields: vec![text_field("method", method), field("force", DetailValue::Flag(ctx.force))] };
            assert(details_view(d) =~= seq![("method"@, Val::Text(rename_method(ctx.mode@ == "bootstrap"@))), ("force"@, Val::Flag(ctx.force))]);
            RestoreNext::Done(Ok(d))
        },
        Err(error) => RestoreNext::CopyTarget { rename_error: error },
    }
}

/// After copying the target to the source.
pub fn restore_after_copy(ctx: &RollbackContext, rename_error: &str, result: Result<u64, SwitchError>) -> (r: Result<
    Details,
    SwitchError,
>)
    ensures
        match result {
            Ok(_) => r matches Ok(d) && details_view(d) == seq![
                ("method"@, Val::Text(copy_method(ctx.mode@ == "bootstrap"@))),
                ("rename_error"@, Val::Text(rename_error@)),
            ],
            Err(e) => r == Err::<Details, SwitchError>(e),
        },
{
    match result {
        Ok(_) => {
            let method = if str_eq(ctx.mode.as_str(), "bootstrap") {
                "target_copy_to_source"
            } else {
                "target_copy_to_source_without_backup"
            };
            Ok(details2("method", method, "rename_error", rename_error))
        },
        Err(e) => Err(e),
    }
}

/// After creating an empty source directory (bootstrap mode).
pub fn restore_after_create(ctx: &RollbackContext, result: &Result<(), String>) -> (r: Result<Details, SwitchError>)
    ensures
        match *result {
            Ok(()) => r matches Ok(d) && details_view(d) == seq![("method"@, Val::Text("create_empty_source"@))],
            Err(error) => r matches Err(e) && restore_error(
                e,
                "failed to recreate source path for bootstrap rollback."@,
                seq![("source_path"@, Val::Text(ctx.source_path@)), ("error"@, Val::Text(error@))],
            ),
        },
{
    match result {
        Ok(()) => Ok(details1("method", "create_empty_source")),
        Err(error) => Err(
            switch_error(
                "ROLLBACK_RESTORE_BACKUP_FAILED",
                "failed to recreate source path for bootstrap rollback.",
                false,
                details2("source_path", ctx.source_path.as_str(), "error", error.as_str()),
            ),
        ),
    }
}

/// The restoration record carried to the commit (empty when none was kept).
pub open spec fn restore_view(restore: Option<Details>) -> Val {
    match restore {
        Some(r) => nested_view(details_view(r)),
        None => nested_view(Seq::empty()),
    }
}

impl RollbackRun {
    /// A rollback begins by marking the relocation as rolling back.
    pub fn start(ctx: &RollbackContext) -> (r: (RollbackRun, Vec<Action>))
        ensures
            r.0.stage is RemoveLink,
            r.0.restore is None,
            trace_after(Some(None), actions_view(r.1@)) == Some(rollback_open_step(r.0.stage)),
            actions_view(r.1@) == seq![
                update_view("ROLLING_BACK"@, "unknown"@, None, Completion::Clear),
                started(
                    "rollback"@,
                    "remove_source_symlink"@,
                    "rollback remove source symlink started"@,
                    seq![("source_path"@, Val::Text(ctx.source_path@))],
                ),
            ],
    {
        proof {
            reveal_with_fuel(trace_after, 3);
            lemma_status_words();
        }
        let actions = vec![
            update_action("ROLLING_BACK", "unknown", None, Completion::Clear),
            start_log(
                "rollback",
                "remove_source_symlink",
                "rollback remove source symlink started",
                details1("source_path", ctx.source_path.as_str()),
            ),
        ];
        assert(actions_view(actions@) =~= seq![
            update_view("ROLLING_BACK"@, "unknown"@, None, Completion::Clear),
            started(
                "rollback"@,
                "remove_source_symlink"@,
                "rollback remove source symlink started"@,
                seq![("source_path"@, Val::Text(ctx.source_path@))],
            ),
        ]);
        (RollbackRun { stage: RollbackStage::RemoveLink, restore: None }, actions)
    }

    fn fail(&mut self, step: &str, e: SwitchError) -> (s: RunStep)
        ensures
            final(self).stage is Finished,
            s.outcome == Some(Err::<(), SwitchError>(e)),
            actions_view(s.actions@) == rollback_failed(step@, e),
            rollback_law(final(self).stage, s),
    {
        let actions = vec![
            failure_log("rollback", step, &e),
            update_action("ROLLBACK_FAILED", "broken", Some(e.code.as_str()), Completion::Now),
        ];
        proof {
            assert(actions_view(actions@) =~= rollback_failed(step@, e));
            lemma_last_update(actions_view(actions@), 1);
        }
        self.stage = RollbackStage::Finished;
        RunStep { actions, outcome: Some(Err(e)) }
    }

    /// After removing the source link.
    pub fn on_link_removed(&mut self, ctx: &RollbackContext, result: Result<Details, SwitchError>) -> (s: RunStep)
        requires
            old(self).stage is RemoveLink,
        ensures
            rollback_law(final(self).stage, s),
            keeps_rollback_trace(old(self).stage, final(self).stage, actions_view(s.actions@)),
            match result {
                Ok(d) => (final(self).stage is RestoreSource) && s.outcome is None && actions_view(s.actions@) == seq![
                    succeeded(
                        "rollback"@,
                        "remove_source_symlink"@,
                        "rollback remove source symlink finished"@,
                        details_view(d),
                    ),
                    restore_started(*ctx),
                ],
                Err(e) => s.outcome == Some(Err::<(), SwitchError>(e)) && actions_view(s.actions@) == rollback_failed(
                    "remove_source_symlink"@,
                    e,
                ),
            },
    {
        proof {
            reveal_with_fuel(trace_after, 6);
            lemma_status_words();
        }
        match result {
            Err(e) => self.fail("remove_source_symlink", e),
            Ok(d) => {
                let ghost dv = details_view(d);
                let dd = Details {
                    fields: vec![
                        text_field("source_path", ctx.source_path.as_str()),
                        text_field("target_path", ctx.target_path.as_str()),
                        opt_text_field("backup_path", &ctx.backup_path),
                    ],
                };
                assert(details_view(dd) =~= seq![
                    ("source_path"@, Val::Text(ctx.source_path@)),
                    ("target_path"@, Val::Text(ctx.target_path@)),
                    ("backup_path"@, opt_val(ctx.backup_path)),
                ]);
                let actions = vec![
                    success_log("rollback", "remove_source_symlink", "rollback remove source symlink finished", d),
                    start_log("rollback", "restore_source", "rollback restore source started", dd),
                ];
                assert(actions_view(actions@) =~= seq![
                    succeeded("rollback"@, "remove_source_symlink"@, "rollback remove source symlink finished"@, dv),
                    restore_started(*ctx),
                ]);
                self.stage = RollbackStage::RestoreSource;
                RunStep { actions, outcome: None }
            },
        }
    }

    /// After restoring the source.
    pub fn on_restored(&mut self, ctx: &RollbackContext, result: Result<Details, SwitchError>) -> (s: RunStep)
        requires
            old(self).stage is RestoreSource,
        ensures
            rollback_law(final(self).stage, s),
            keeps_rollback_trace(old(self).stage, final(self).stage, actions_view(s.actions@)),
            match result {
                Ok(d) => (final(self).stage is CleanupTemp) && s.outcome is None && (final(self).restore matches Some(
                    kept,
                ) && details_view(kept) == details_view(d)) && actions_view(s.actions@) == seq![
                    succeeded("rollback"@, "restore_source"@, "rollback restore source succeeded"@, details_view(d)),
                    started(
                        "rollback"@,
                        "cleanup_temp"@,
                        "rollback cleanup temp started"@,
                        seq![("temp_path"@, Val::Text(ctx.temp_path@))],
                    ),
                ],
                Err(e) => s.outcome == Some(Err::<(), SwitchError>(e)) && actions_view(s.actions@) == rollback_failed(
                    "restore_source"@,
                    e,
                ),
            },
    {
        proof {
            reveal_with_fuel(trace_after, 6);
            lemma_status_words();
        }
        match result {
            Err(e) => self.fail("restore_source", e),
            Ok(d) => {
                let kept = copy_details(&d);
                let ghost dv = details_view(d);
                let actions = vec![
                    success_log("rollback", "restore_source", "rollback restore source succeeded", d),
                    start_log(
                        "rollback",
                        "cleanup_temp",
                        "rollback cleanup temp started",
                        details1("temp_path", ctx.temp_path.as_str()),
                    ),
                ];
                assert(actions_view(actions@) =~= seq![
                    succeeded("rollback"@, "restore_source"@, "rollback restore source succeeded"@, dv),
                    started(
                        "rollback"@,
                        "cleanup_temp"@,
                        "rollback cleanup temp started"@,
                        seq![("temp_path"@, Val::Text(ctx.temp_path@))],
                    ),
                ]);
                self.restore = Some(kept);
                self.stage = RollbackStage::CleanupTemp;
                RunStep { actions, outcome: None }
            },
        }
    }

    /// After removing the temporary copy: the rollback commits.
    pub fn on_cleanup(&mut self, ctx: &RollbackContext, result: Result<(), SwitchError>) -> (s: RunStep)
        requires
            old(self).stage is CleanupTemp,
        ensures
            rollback_law(final(self).stage, s),
            keeps_rollback_trace(old(self).stage, final(self).stage, actions_view(s.actions@)),
            match result {
                Ok(()) => s.outcome == Some(Ok::<(), SwitchError>(())) && actions_view(s.actions@) == seq![
                    succeeded(
                        "rollback"@,
                        "cleanup_temp"@,
                        "rollback cleanup temp succeeded"@,
                        seq![("temp_path"@, Val::Text(ctx.temp_path@))],
                    ),
                    update_view("ROLLED_BACK"@, "healthy"@, None, Completion::Now),
                    ActionView::Log {
                        stage: "rollback"@,
                        step: "state_restore"@,
                        status: "succeeded"@,
                        error_code: None,
                        message: "Rollback state committed."@,
                        details: seq![
                            ("force"@, Val::Flag(ctx.force)),
                            ("previous_state"@, Val::Text(ctx.previous_state@)),
                            ("restore"@, restore_view(old(self).restore)),
                        ],
                        timing: Timing::Zero,
                    },
                    ActionView::Snapshot {
                        state: "healthy"@,
                        check_code: "HEALTH_ROLLBACK_OK"@,
                        details: seq![
                            ("message"@, Val::Text("Rollback completed with source restoration."@)),
                            ("restore"@, restore_view(old(self).restore)),
                        ],
                    },
                ],
                Err(e) => s.outcome == Some(Err::<(), SwitchError>(e)) && actions_view(s.actions@) == rollback_failed(
                    "cleanup_temp"@,
                    e,
                ),
            },
    {
        proof {
            reveal_with_fuel(trace_after, 6);
            lemma_status_words();
        }
        match result {
            Err(e) => self.fail("cleanup_temp", e),
            Ok(()) => {
                let ghost restore_before = self.restore;
                let restore = match self.restore.take() {
                    Some(r) => r,
                    None => Details::empty(),
                };
                let restore_copy = copy_details(&restore);
                proof {
                    assert(details_view(restore) == match restore_before {
                        Some(r) => details_view(r),
                        None => Seq::<(Seq<char>, Val)>::empty(),
                    }) by {
                        if restore_before is None {
                            assert(details_view(restore) =~= Seq::<(Seq<char>, Val)>::empty());
                        }
                    }
                    lemma_object_view(restore);
                    lemma_object_view(restore_copy);
                }
                let commit = Details {
                    fields: vec![
                        field("force", DetailValue::Flag(ctx.force)),
                        text_field("previous_state", ctx.previous_state.as_str()),
                        field("restore", restore.into_value()),
                    ],
                };
                let note = Details {
                    fields: vec![
                        text_field("message", "Rollback completed with source restoration."),
                        field("restore", restore_copy.into_value()),
                    ],
                };
                assert(details_view(commit) =~= seq![
                    ("force"@, Val::Flag(ctx.force)),
                    ("previous_state"@, Val::Text(ctx.previous_state@)),
                    ("restore"@, restore_view(restore_before)),
                ]);
                assert(details_view(note) =~= seq![
                    ("message"@, Val::Text("Rollback completed with source restoration."@)),
                    ("restore"@, restore_view(restore_before)),
                ]);
                let actions = vec![
                    success_log(
                        "rollback",
                        "cleanup_temp",
                        "rollback cleanup temp succeeded",
                        details1("temp_path", ctx.temp_path.as_str()),
                    ),
                    update_action("ROLLED_BACK", "healthy", None, Completion::Now),
                    Action::Log(
                        LogPlan {
                            stage: owned("rollback"),
                            step: owned("state_restore"),
                            status: owned("succeeded"),
                            error_code: None,
                            message: owned("Rollback state committed."),
                            details: commit,
                            timing: Timing::Zero,
                        },
                    ),
                    Action::Snapshot(
                        SnapshotPlan { state: owned("healthy"), check_code: owned("HEALTH_ROLLBACK_OK"), details: note },
                    ),
                ];
                proof {
                    assert(actions_view(actions@) =~= seq![
                        succeeded(
                            "rollback"@,
                            "cleanup_temp"@,
                            "rollback cleanup temp succeeded"@,
                            seq![("temp_path"@, Val::Text(ctx.temp_path@))],
                        ),
                        update_view("ROLLED_BACK"@, "healthy"@, None, Completion::Now),
                        ActionView::Log {
                            stage: "rollback"@,
                            step: "state_restore"@,
                            status: "succeeded"@,
                            error_code: None,
                            message: "Rollback state committed."@,
                            details: seq![
                                ("force"@, Val::Flag(ctx.force)),
                                ("previous_state"@, Val::Text(ctx.previous_state@)),
                                ("restore"@, restore_view(restore_before)),
                            ],
                            timing: Timing::Zero,
                        },
                        ActionView::Snapshot {
                            state: "healthy"@,
                            check_code: "HEALTH_ROLLBACK_OK"@,
                            details: seq![
                                ("message"@, Val::Text("Rollback completed with source restoration."@)),
                                ("restore"@, restore_view(restore_before)),
                            ],
                        },
                    ]);
                    lemma_last_update(actions_view(actions@), 1);
                }
                self.stage = RollbackStage::Finished;
                RunStep { actions, outcome: Some(Ok(())) }
            },
        }
    }
}

} // verus!
