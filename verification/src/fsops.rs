//! The rules of the file-system steps of a relocation: when a step may go
//! ahead, and the error each failure is reported as.
//!
//! Whether a failure is worth retrying belongs to its error code and is the
//! same at every step that reports it.  A missing source
//! (`PRECHECK_SOURCE_NOT_FOUND`, also when the source cannot be measured), a
//! size mismatch after the copy (`MIGRATE_VERIFY_SIZE_MISMATCH`, also when a
//! size cannot be read) and a backup that cannot be restored
//! (`ROLLBACK_RESTORE_BACKUP_FAILED`) are not retried: trying again does not
//! change them.  A failed rename or link (`MIGRATE_SWITCH_RENAME_FAILED`,
//! `MIGRATE_SWITCH_SYMLINK_FAILED`, also for a bootstrap target that exists
//! but is no directory) and a failed metadata restore
//! (`ROLLBACK_METADATA_RESTORE_FAILED`) may be retried.

use crate::models::{details1, details2, details3, details_view, text_field, DetailField, DetailValue, Details};
use crate::text::owned;
use crate::models::Val;
use vstd::prelude::*;

verus! {

/// A failed file-system step.
#[derive(Debug)]
pub struct SwitchError {
    pub code: String,
    pub message: String,
    pub retryable: bool,
    pub details: Details,
}

pub type Dv = Seq<(Seq<char>, Val)>;

/// The error of a bootstrap switch or of its rollback.
pub type BootstrapSwitchError = SwitchError;

/// The error of a migration step or of its rollback.
pub type MigrationError = SwitchError;

/// Code, message, retryability and details of an error.
pub open spec fn err_is(e: SwitchError, code: Seq<char>, message: Seq<char>, retryable: bool, details: Dv) -> bool {
    &&& e.code@ == code
    &&& e.message@ == message
    &&& e.retryable == retryable
    &&& details_view(e.details) == details
}

pub fn switch_error(code: &str, message: &str, retryable: bool, details: Details) -> (e: SwitchError)
    ensures
        err_is(e, code@, message@, retryable, details_view(details)),
        e.details == details,
{
    SwitchError { code: owned(code), message: owned(message), retryable, details }
}

/// What the bootstrap switch changed, so that a rollback can undo it.
#[derive(Clone, Copy, Debug)]
pub struct BootstrapSwitchOutcome {
    pub source_placeholder_removed: bool,
    pub target_dir_created: bool,
}

impl Default for BootstrapSwitchOutcome {
    fn default() -> (o: Self)
        ensures
            !o.source_placeholder_removed,
            !o.target_dir_created,
    {
        BootstrapSwitchOutcome { source_placeholder_removed: false, target_dir_created: false }
    }
}

/// What is found at a path (without following a final symbolic link).
#[derive(Debug)]
pub enum EntryKind {
    Missing,
    Symlink,
    /// A directory; whether it is empty, or why that could not be read.
    Directory { empty: Result<bool, String> },
    /// A regular file of `len` bytes.
    File { len: u64 },
    Other,
    Unreadable { error: String },
}

/// The next step of a bootstrap switch.
#[derive(Debug)]
pub enum BootstrapNext {
    RemoveSourceDir,
    RemoveSourceFile,
    InspectTarget,
    CreateTarget,
    Link,
    Rollback,
    Done(BootstrapSwitchOutcome),
    Fail(SwitchError),
}

pub open spec fn no_data_msg() -> Seq<char> {
    "bootstrap mode requires source path without existing data."@
}

/// Bootstrap switch, first step: what to do with the source path.
pub fn bootstrap_after_source(source_path: &str, entry: &EntryKind) -> (n: BootstrapNext)
    ensures
        match *entry {
            EntryKind::Symlink => n matches BootstrapNext::Fail(e) && err_is(
                e,
                "PRECHECK_SOURCE_IS_SYMLINK"@,
                "source path is already a symlink."@,
                false,
                seq![("source_path"@, Val::Text(source_path@))],
            ),
            EntryKind::Directory { empty: Err(error) } => n matches BootstrapNext::Fail(e) && err_is(
                e,
                "PRECHECK_SOURCE_NOT_FOUND"@,
                "failed to inspect source directory."@,
                false,
                seq![("source_path"@, Val::Text(source_path@)), ("error"@, Val::Text(error@))],
            ),
            EntryKind::Directory { empty: Ok(false) } => n matches BootstrapNext::Fail(e) && err_is(
                e,
                "PRECHECK_BOOTSTRAP_NOT_ALLOWED"@,
                no_data_msg(),
                false,
                seq![("source_path"@, Val::Text(source_path@))],
            ),
            EntryKind::Directory { empty: Ok(true) } => (n is RemoveSourceDir),
            EntryKind::File { len } => if len > 0 {
                n matches BootstrapNext::Fail(e) && err_is(
                    e,
                    "PRECHECK_BOOTSTRAP_NOT_ALLOWED"@,
                    no_data_msg(),
                    false,
                    seq![("source_path"@, Val::Text(source_path@))],
                )
            } else {
                (n is RemoveSourceFile)
            },
            EntryKind::Missing => (n is InspectTarget),
            EntryKind::Other => (n is InspectTarget),
            EntryKind::Unreadable { error } => n matches BootstrapNext::Fail(e) && err_is(
                e,
                "PRECHECK_SOURCE_NOT_FOUND"@,
                "failed to inspect source path."@,
                false,
                seq![("source_path"@, Val::Text(source_path@)), ("error"@, Val::Text(error@))],
            ),
        },
{
    match entry {
        EntryKind::Symlink => BootstrapNext::Fail(
            switch_error(
                "PRECHECK_SOURCE_IS_SYMLINK",
                "source path is already a symlink.",
                false,
                details1("source_path", source_path),
            ),
        ),
        EntryKind::Directory { empty } => match empty {
            Err(error) => BootstrapNext::Fail(
                switch_error(
                    "PRECHECK_SOURCE_NOT_FOUND",
                    "failed to inspect source directory.",
                    false,
                    details2("source_path", source_path, "error", error),
                ),
            ),
            Ok(false) => BootstrapNext::Fail(
                switch_error(
                    "PRECHECK_BOOTSTRAP_NOT_ALLOWED",
                    "bootstrap mode requires source path without existing data.",
                    false,
                    details1("source_path", source_path),
                ),
            ),
            Ok(true) => BootstrapNext::RemoveSourceDir,
        },
        EntryKind::File { len } => {
            if *len > 0 {
                BootstrapNext::Fail(
                    switch_error(
                        "PRECHECK_BOOTSTRAP_NOT_ALLOWED",
                        "bootstrap mode requires source path without existing data.",
                        false,
                        details1("source_path", source_path),
                    ),
                )
            } else {
                BootstrapNext::RemoveSourceFile
            }
        },
        EntryKind::Missing => BootstrapNext::InspectTarget,
        EntryKind::Other => BootstrapNext::InspectTarget,
        EntryKind::Unreadable { error } => BootstrapNext::Fail(
            switch_error(
                "PRECHECK_SOURCE_NOT_FOUND",
                "failed to inspect source path.",
                false,
                details2("source_path", source_path, "error", error),
            ),
        ),
    }
}

/// Bootstrap switch, after removing the empty source placeholder (`was_dir`
/// tells a directory from a file): go on to the target, recording the
/// removal, or fail.
pub fn bootstrap_after_removal(
    source_path: &str,
    was_dir: bool,
    result: &Result<(), String>,
    outcome: &mut BootstrapSwitchOutcome,
) -> (n: BootstrapNext)
    ensures
        match *result {
            Ok(()) => n is InspectTarget && final(outcome).source_placeholder_removed
                && final(outcome).target_dir_created == old(outcome).target_dir_created,
            Err(error) => *final(outcome) == *old(outcome) && (n matches BootstrapNext::Fail(e) && err_is(
                e,
                "MIGRATE_SWITCH_RENAME_FAILED"@,
                if was_dir {
                    "failed to remove source placeholder directory."@
                } else {
                    "failed to remove empty source placeholder file."@
                },
                true,
                seq![("source_path"@, Val::Text(source_path@)), ("error"@, Val::Text(error@))],
            )),
        },
{
    match result {
        Ok(()) => {
            outcome.source_placeholder_removed = true;
            BootstrapNext::InspectTarget
        },
        Err(error) => {
            let message = if was_dir {
                "failed to remove source placeholder directory."
            } else {
                "failed to remove empty source placeholder file."
            };
            BootstrapNext::Fail(
                switch_error(
                    "MIGRATE_SWITCH_RENAME_FAILED",
                    message,
                    true,
                    details2("source_path", source_path, "error", error),
                ),
            )
        },
    }
}

/// Bootstrap switch, second step: what to do with the target path.  Only an
/// empty directory is linked to; a missing target is created first.
pub fn bootstrap_after_target(target_path: &str, entry: &EntryKind) -> (n: BootstrapNext)
    ensures
        (n is Link) ==> (*entry == (EntryKind::Directory { empty: Ok(true) })),
        match *entry {
            EntryKind::Directory { empty: Ok(true) } => (n is Link),
            EntryKind::Directory { empty: Ok(false) } => n matches BootstrapNext::Fail(e) && err_is(
                e,
                "PRECHECK_BOOTSTRAP_NOT_ALLOWED"@,
                "target path already contains data."@,
                false,
                seq![("target_path"@, Val::Text(target_path@))],
            ),
            EntryKind::Directory { empty: Err(error) } => n matches BootstrapNext::Fail(e) && err_is(
                e,
                "PRECHECK_DISK_READONLY"@,
                "failed to inspect target directory."@,
                true,
                seq![("target_path"@, Val::Text(target_path@)), ("error"@, Val::Text(error@))],
            ),
            EntryKind::Missing => (n is CreateTarget),
            EntryKind::Unreadable { error } => n matches BootstrapNext::Fail(e) && err_is(
                e,
                "PRECHECK_DISK_OFFLINE"@,
                "failed to inspect target path."@,
                true,
                seq![("target_path"@, Val::Text(target_path@)), ("error"@, Val::Text(error@))],
            ),
            _ => n matches BootstrapNext::Fail(e) && err_is(
                e,
                "MIGRATE_SWITCH_SYMLINK_FAILED"@,
                "target path exists but is not a directory."@,
                true,
                seq![("target_path"@, Val::Text(target_path@))],
            ),
        },
{
    match entry {
        EntryKind::Directory { empty } => match empty {
            Ok(true) => BootstrapNext::Link,
            Ok(false) => BootstrapNext::Fail(
                switch_error(
                    "PRECHECK_BOOTSTRAP_NOT_ALLOWED",
                    "target path already contains data.",
                    false,
                    details1("target_path", target_path),
                ),
            ),
            Err(error) => BootstrapNext::Fail(
                switch_error(
                    "PRECHECK_DISK_READONLY",
                    "failed to inspect target directory.",
                    true,
                    details2("target_path", target_path, "error", error),
                ),
            ),
        },
        EntryKind::Missing => BootstrapNext::CreateTarget,
        EntryKind::Unreadable { error } => BootstrapNext::Fail(
            switch_error(
                "PRECHECK_DISK_OFFLINE",
                "failed to inspect target path.",
                true,
                details2("target_path", target_path, "error", error),
            ),
        ),
        _ => BootstrapNext::Fail(
            switch_error(
                "MIGRATE_SWITCH_SYMLINK_FAILED",
                "target path exists but is not a directory.",
                true,
                details1("target_path", target_path),
            ),
        ),
    }
}

/// Bootstrap switch, after creating the missing target directory.
pub fn bootstrap_after_create(target_path: &str, result: &Result<(), String>, outcome: &mut BootstrapSwitchOutcome) -> (n:
    BootstrapNext)
    ensures
        match *result {
            Ok(()) => n is Link && final(outcome).target_dir_created
                && final(outcome).source_placeholder_removed == old(outcome).source_placeholder_removed,
            Err(error) => *final(outcome) == *old(outcome) && (n matches BootstrapNext::Fail(e) && err_is(
                e,
                "PRECHECK_DISK_READONLY"@,
                "failed to create target directory for bootstrap mode."@,
                true,
                seq![("target_path"@, Val::Text(target_path@)), ("error"@, Val::Text(error@))],
            )),
        },
{
    match result {
        Ok(()) => {
            outcome.target_dir_created = true;
            BootstrapNext::Link
        },
        Err(error) => BootstrapNext::Fail(
            switch_error(
                "PRECHECK_DISK_READONLY",
                "failed to create target directory for bootstrap mode.",
                true,
                details2("target_path", target_path, "error", error),
            ),
        ),
    }
}

/// Bootstrap switch, after creating the `source -> target` link: done, or
/// undo what was changed.
pub fn bootstrap_after_link(result: &Result<(), String>, outcome: BootstrapSwitchOutcome) -> (n: BootstrapNext)
    ensures
        match *result {
            Ok(()) => n == BootstrapNext::Done(outcome),
            Err(_) => (n is Rollback),
        },
{
    match result {
        Ok(()) => BootstrapNext::Done(outcome),
        Err(_) => BootstrapNext::Rollback,
    }
}

/// The error a bootstrap switch reports when the link could not be created
/// (after its changes were undone).
pub fn bootstrap_link_failed(source_path: &str, target_path: &str, error: &str) -> (e: SwitchError)
    ensures
        err_is(
            e,
            "MIGRATE_SWITCH_SYMLINK_FAILED"@,
            "failed to create source -> target symlink."@,
            true,
            seq![("source_path"@, Val::Text(source_path@)), ("target_path"@, Val::Text(target_path@)), ("error"@, Val::Text(error@))],
        ),
{
    switch_error(
        "MIGRATE_SWITCH_SYMLINK_FAILED",
        "failed to create source -> target symlink.",
        true,
        details3("source_path", source_path, "target_path", target_path, "error", error),
    )
}

/// The steps that undo a bootstrap switch.
#[derive(Debug)]
pub struct BootstrapRollbackPlan {
    /// Remove the source link.
    pub remove_source_link: bool,
    /// Recreate the source placeholder directory.
    pub recreate_source: bool,
    /// Remove the target directory (only when it was created and is empty).
    pub remove_target: bool,
    /// The created target directory could not be inspected.
    pub target_error: Option<SwitchError>,
}

/// Which steps undo a bootstrap switch, given what was changed and what is
/// found now: the source link goes; the source placeholder comes back only if
/// the switch removed it and nothing is at the source; the target goes only if
/// the switch created it and it is an empty directory (a created target that
/// cannot be inspected stops the rollback).
pub fn bootstrap_rollback_plan(
    target_path: &str,
    outcome: BootstrapSwitchOutcome,
    source_is_symlink: bool,
    source_present_after_unlink: bool,
    target: &EntryKind,
) -> (p: BootstrapRollbackPlan)
    ensures
        p.remove_source_link == source_is_symlink,
        p.recreate_source == (outcome.source_placeholder_removed && !source_present_after_unlink),
        p.remove_target == (outcome.target_dir_created && *target == (EntryKind::Directory { empty: Ok(true) })),
        match *target {
            EntryKind::Directory { empty: Err(error) } => if outcome.target_dir_created {
                p.target_error matches Some(e) && err_is(
                    e,
                    "ROLLBACK_CLEANUP_TEMP_FAILED"@,
                    "failed to inspect target directory during rollback cleanup."@,
                    true,
                    seq![("target_path"@, Val::Text(target_path@)), ("error"@, Val::Text(error@))],
                )
            } else {
                p.target_error is None
            },
            _ => p.target_error is None,
        },
{
    let empty_dir = match target {
        EntryKind::Directory { empty: Ok(true) } => true,
        _ => false,
    };
    let target_error = match target {
        EntryKind::Directory { empty: Err(error) } => {
            if outcome.target_dir_created {
                Some(bootstrap_target_cleanup_failed(target_path, true, error.as_str()))
            } else {
                None
            }
        },
        _ => None,
    };
    BootstrapRollbackPlan {
        remove_source_link: source_is_symlink,
        recreate_source: outcome.source_placeholder_removed && !source_present_after_unlink,
        remove_target: outcome.target_dir_created && empty_dir,
        target_error,
    }
}

/// Errors of the bootstrap rollback steps.
pub fn bootstrap_unlink_failed(source_path: &str, error: &str) -> (e: SwitchError)
    ensures
        err_is(
            e,
            "ROLLBACK_REMOVE_SYMLINK_FAILED"@,
            "failed to remove bootstrap symlink during rollback."@,
            true,
            seq![("source_path"@, Val::Text(source_path@)), ("error"@, Val::Text(error@))],
        ),
{
    switch_error(
        "ROLLBACK_REMOVE_SYMLINK_FAILED",
        "failed to remove bootstrap symlink during rollback.",
        true,
        details2("source_path", source_path, "error", error),
    )
}

pub fn bootstrap_recreate_failed(source_path: &str, error: &str) -> (e: SwitchError)
    ensures
        err_is(
            e,
            "ROLLBACK_RESTORE_BACKUP_FAILED"@,
            "failed to recreate source placeholder during rollback."@,
            false,
            seq![("source_path"@, Val::Text(source_path@)), ("error"@, Val::Text(error@))],
        ),
{
    switch_error(
        "ROLLBACK_RESTORE_BACKUP_FAILED",
        "failed to recreate source placeholder during rollback.",
        false,
        details2("source_path", source_path, "error", error),
    )
}

pub fn bootstrap_target_cleanup_failed(target_path: &str, inspecting: bool, error: &str) -> (e: SwitchError)
    ensures
        err_is(
            e,
            "ROLLBACK_CLEANUP_TEMP_FAILED"@,
            if inspecting {
                "failed to inspect target directory during rollback cleanup."@
            } else {
                "failed to cleanup target directory during rollback."@
            },
            true,
            seq![("target_path"@, Val::Text(target_path@)), ("error"@, Val::Text(error@))],
        ),
{
    let message = if inspecting {
        "failed to inspect target directory during rollback cleanup."
    } else {
        "failed to cleanup target directory during rollback."
    };
    switch_error("ROLLBACK_CLEANUP_TEMP_FAILED", message, true, details2("target_path", target_path, "error", error))
}

// ---------------------------------------------------------------------------
// Migration copy, verification, switch and rollback
// ---------------------------------------------------------------------------

/// Sizes found when verifying a copy.
#[derive(Clone, Copy, Debug)]
pub struct VerifyResult {
    pub source_size_bytes: u64,
    pub temp_size_bytes: u64,
}

/// Bytes copied to the temporary path.
#[derive(Clone, Copy, Debug)]
pub struct CopyResult {
    pub copied_bytes: u64,
}

pub fn cleanup_temp_failed(temp_path: &str, error: &str) -> (e: SwitchError)
    ensures
        err_is(
            e,
            "ROLLBACK_CLEANUP_TEMP_FAILED"@,
            "failed to cleanup migration temp path."@,
            true,
            seq![("temp_path"@, Val::Text(temp_path@)), ("error"@, Val::Text(error@))],
        ),
{
    switch_error(
        "ROLLBACK_CLEANUP_TEMP_FAILED",
        "failed to cleanup migration temp path.",
        true,
        details2("temp_path", temp_path, "error", error),
    )
}

pub fn remove_existing_failed(path: &str, error: &str) -> (e: SwitchError)
    ensures
        err_is(
            e,
            "ROLLBACK_CLEANUP_TEMP_FAILED"@,
            "failed to remove existing path."@,
            true,
            seq![("path"@, Val::Text(path@)), ("error"@, Val::Text(error@))],
        ),
{
    switch_error("ROLLBACK_CLEANUP_TEMP_FAILED", "failed to remove existing path.", true, details2("path", path, "error", error))
}

/// Whether data may be copied back from `source_path` to `target_path` during
/// a rollback: the source must exist and the target must not.
pub fn copy_back_precheck(source_path: &str, target_path: &str, source_exists: bool, target_exists: bool) -> (r:
    Result<(), SwitchError>)
    ensures
        source_exists && !target_exists <==> (r is Ok),
        !source_exists ==> (r matches Err(e) && err_is(
            e,
            "ROLLBACK_RESTORE_BACKUP_FAILED"@,
            "source path does not exist for rollback copy."@,
            false,
            seq![("source_path"@, Val::Text(source_path@))],
        )),
        source_exists && target_exists ==> (r matches Err(e) && err_is(
            e,
            "ROLLBACK_RESTORE_BACKUP_FAILED"@,
            "target path already exists for rollback copy."@,
            false,
            seq![("target_path"@, Val::Text(target_path@))],
        )),
{
    if !source_exists {
        return Err(
            switch_error(
                "ROLLBACK_RESTORE_BACKUP_FAILED",
                "source path does not exist for rollback copy.",
                false,
                details1("source_path", source_path),
            ),
        );
    }
    if target_exists {
        return Err(
            switch_error(
                "ROLLBACK_RESTORE_BACKUP_FAILED",
                "target path already exists for rollback copy.",
                false,
                details1("target_path", target_path),
            ),
        );
    }
    Ok(())
}

pub fn copy_back_failed(source_path: &str, target_path: &str, error: &str) -> (e: SwitchError)
    ensures
        err_is(
            e,
            "ROLLBACK_RESTORE_BACKUP_FAILED"@,
            "failed to copy target data back to source path during rollback."@,
            false,
            seq![("source_path"@, Val::Text(source_path@)), ("target_path"@, Val::Text(target_path@)), ("error"@, Val::Text(error@))],
        ),
{
    switch_error(
        "ROLLBACK_RESTORE_BACKUP_FAILED",
        "failed to copy target data back to source path during rollback.",
        false,
        details3("source_path", source_path, "target_path", target_path, "error", error),
    )
}

/// Whether the copy to the temporary path may start: the source must exist.
pub fn copy_precheck(source_path: &str, source_exists: bool) -> (r: Result<(), SwitchError>)
    ensures
        source_exists <==> (r is Ok),
        !source_exists ==> (r matches Err(e) && err_is(
            e,
            "PRECHECK_SOURCE_NOT_FOUND"@,
            "source path does not exist."@,
            false,
            seq![("source_path"@, Val::Text(source_path@))],
        )),
{
    if !source_exists {
        return Err(
            switch_error(
                "PRECHECK_SOURCE_NOT_FOUND",
                "source path does not exist.",
                false,
                details1("source_path", source_path),
            ),
        );
    }
    Ok(())
}

pub fn copy_failed(source_path: &str, temp_path: &str, error: &str) -> (e: SwitchError)
    ensures
        err_is(
            e,
            "MIGRATE_COPY_FAILED"@,
            "failed during copy source -> temp."@,
            true,
            seq![("source_path"@, Val::Text(source_path@)), ("temp_path"@, Val::Text(temp_path@)), ("error"@, Val::Text(error@))],
        ),
{
    switch_error(
        "MIGRATE_COPY_FAILED",
        "failed during copy source -> temp.",
        true,
        details3("source_path", source_path, "temp_path", temp_path, "error", error),
    )
}

/// Verification of a copy: the temporary path must exist and hold exactly as
/// many bytes as the source.
pub fn verify_source_and_temp(
    source_path: &str,
    temp_path: &str,
    temp_exists: bool,
    source_size: &Result<u64, String>,
    temp_size: &Result<u64, String>,
) -> (r: Result<VerifyResult, SwitchError>)
    ensures
        r is Ok <==> (temp_exists && source_size is Ok && temp_size is Ok && source_size->Ok_0
            == temp_size->Ok_0),
        r matches Ok(v) ==> v.source_size_bytes == source_size->Ok_0 && v.temp_size_bytes == temp_size->Ok_0,
        r matches Err(e) ==> e.code@ == "MIGRATE_VERIFY_SIZE_MISMATCH"@,
        !temp_exists ==> (r matches Err(e) && err_is(
            e,
            "MIGRATE_VERIFY_SIZE_MISMATCH"@,
            "temp path does not exist for verification."@,
            false,
            seq![("temp_path"@, Val::Text(temp_path@))],
        )),
        temp_exists && source_size is Err ==> (r matches Err(e) && err_is(
            e,
            "MIGRATE_VERIFY_SIZE_MISMATCH"@,
            "failed to calculate source size."@,
            false,
            seq![("source_path"@, Val::Text(source_path@)), ("error"@, Val::Text(source_size->Err_0@))],
        )),
        temp_exists && source_size is Ok && temp_size is Err ==> (r matches Err(e) && err_is(
            e,
            "MIGRATE_VERIFY_SIZE_MISMATCH"@,
            "failed to calculate temp size."@,
            false,
            seq![("temp_path"@, Val::Text(temp_path@)), ("error"@, Val::Text(temp_size->Err_0@))],
        )),
        temp_exists && source_size is Ok && temp_size is Ok && source_size->Ok_0 != temp_size->Ok_0 ==> (
        r matches Err(e) && err_is(
            e,
            "MIGRATE_VERIFY_SIZE_MISMATCH"@,
            "source and temp size mismatch."@,
            false,
            seq![
                ("source_path"@, Val::Text(source_path@)),
                ("temp_path"@, Val::Text(temp_path@)),
                ("source_size_bytes"@, Val::Number(source_size->Ok_0)),
                ("temp_size_bytes"@, Val::Number(temp_size->Ok_0)),
            ],
        )),
{
    if !temp_exists {
        return Err(
            switch_error(
                "MIGRATE_VERIFY_SIZE_MISMATCH",
                "temp path does not exist for verification.",
                false,
                details1("temp_path", temp_path),
            ),
        );
    }
    let source_size_bytes = match source_size {
        Ok(n) => *n,
        Err(error) => {
            return Err(
                switch_error(
                    "MIGRATE_VERIFY_SIZE_MISMATCH",
                    "failed to calculate source size.",
                    false,
                    details2("source_path", source_path, "error", error),
                ),
            );
        },
    };
    let temp_size_bytes = match temp_size {
        Ok(n) => *n,
        Err(error) => {
            return Err(
                switch_error(
                    "MIGRATE_VERIFY_SIZE_MISMATCH",
                    "failed to calculate temp size.",
                    false,
                    details2("temp_path", temp_path, "error", error),
                ),
            );
        },
    };
    if source_size_bytes != temp_size_bytes {
        let d = Details {
            fields: vec![
                text_field("source_path", source_path),
                text_field("temp_path", temp_path),
                DetailField { key: owned("source_size_bytes"), value: DetailValue::Number(source_size_bytes) },
                DetailField { key: owned("temp_size_bytes"), value: DetailValue::Number(temp_size_bytes) },
            ],
        };
        assert(details_view(d) =~= seq![
            ("source_path"@, Val::Text(source_path@)),
            ("temp_path"@, Val::Text(temp_path@)),
            ("source_size_bytes"@, Val::Number(source_size_bytes)),
            ("temp_size_bytes"@, Val::Number(temp_size_bytes)),
        ]);
        return Err(switch_error("MIGRATE_VERIFY_SIZE_MISMATCH", "source and temp size mismatch.", false, d));
    }
    Ok(VerifyResult { source_size_bytes, temp_size_bytes })
}

/// Whether the switch to the link may start: no backup and no target may
/// exist yet, and the verified copy must be in place.
pub fn switch_precheck(
    temp_path: &str,
    target_path: &str,
    backup_path: &str,
    backup_exists: bool,
    target_exists: bool,
    temp_exists: bool,
) -> (r: Result<(), SwitchError>)
    ensures
        r is Ok <==> (!backup_exists && !target_exists && temp_exists),
        backup_exists ==> (r matches Err(e) && err_is(
            e,
            "PRECHECK_BACKUP_PATH_EXISTS"@,
            "backup path already exists."@,
            false,
            seq![("backup_path"@, Val::Text(backup_path@))],
        )),
        !backup_exists && target_exists ==> (r matches Err(e) && err_is(
            e,
            "PRECHECK_TARGET_PATH_EXISTS"@,
            "target path already exists."@,
            false,
            seq![("target_path"@, Val::Text(target_path@))],
        )),
        !backup_exists && !target_exists && !temp_exists ==> (r matches Err(e) && err_is(
            e,
            "MIGRATE_SWITCH_RENAME_FAILED"@,
            "temp path does not exist for switch stage."@,
            true,
            seq![("temp_path"@, Val::Text(temp_path@))],
        )),
{
    if backup_exists {
        return Err(
            switch_error(
                "PRECHECK_BACKUP_PATH_EXISTS",
                "backup path already exists.",
                false,
                details1("backup_path", backup_path),
            ),
        );
    }
    if target_exists {
        return Err(
            switch_error(
                "PRECHECK_TARGET_PATH_EXISTS",
                "target path already exists.",
                false,
                details1("target_path", target_path),
            ),
        );
    }
    if !temp_exists {
        return Err(
            switch_error(
                "MIGRATE_SWITCH_RENAME_FAILED",
                "temp path does not exist for switch stage.",
                true,
                details1("temp_path", temp_path),
            ),
        );
    }
    Ok(())
}

pub fn rename_to_backup_failed(source_path: &str, backup_path: &str, error: &str) -> (e: SwitchError)
    ensures
        err_is(
            e,
            "MIGRATE_SWITCH_RENAME_FAILED"@,
            "failed to rename source path to backup path."@,
            true,
            seq![("source_path"@, Val::Text(source_path@)), ("backup_path"@, Val::Text(backup_path@)), ("error"@, Val::Text(error@))],
        ),
{
    switch_error(
        "MIGRATE_SWITCH_RENAME_FAILED",
        "failed to rename source path to backup path.",
        true,
        details3("source_path", source_path, "backup_path", backup_path, "error", error),
    )
}

pub fn promote_temp_failed(temp_path: &str, target_path: &str, error: &str) -> (e: SwitchError)
    ensures
        err_is(
            e,
            "MIGRATE_SWITCH_RENAME_FAILED"@,
            "failed to promote temp path to target path."@,
            true,
            seq![("temp_path"@, Val::Text(temp_path@)), ("target_path"@, Val::Text(target_path@)), ("error"@, Val::Text(error@))],
        ),
{
    switch_error(
        "MIGRATE_SWITCH_RENAME_FAILED",
        "failed to promote temp path to target path.",
        true,
        details3("temp_path", temp_path, "target_path", target_path, "error", error),
    )
}

pub fn link_failed(source_path: &str, target_path: &str, error: &str) -> (e: SwitchError)
    ensures
        err_is(
            e,
            "MIGRATE_SWITCH_SYMLINK_FAILED"@,
            "failed to create source -> target symlink."@,
            true,
            seq![("source_path"@, Val::Text(source_path@)), ("target_path"@, Val::Text(target_path@)), ("error"@, Val::Text(error@))],
        ),
{
    bootstrap_link_failed(source_path, target_path, error)
}

/// The steps that undo a migration switch, given what is found: remove the
/// source link; restore the backup only when nothing else is at the source;
/// remove the temporary copy and the target when they exist.
#[derive(Debug)]
pub struct MigrationRollbackPlan {
    pub remove_source_link: bool,
    pub restore_backup: bool,
    pub cleanup_temp: bool,
    pub remove_target: bool,
}

pub fn migration_rollback_plan(
    source_is_symlink: bool,
    backup_exists: bool,
    source_exists_after_unlink: bool,
    temp_exists: bool,
    target_exists: bool,
) -> (p: MigrationRollbackPlan)
    ensures
        p.remove_source_link == source_is_symlink,
        p.restore_backup == (backup_exists && !source_exists_after_unlink),
        p.cleanup_temp == temp_exists,
        p.remove_target == target_exists,
{
    MigrationRollbackPlan {
        remove_source_link: source_is_symlink,
        restore_backup: backup_exists && !source_exists_after_unlink,
        cleanup_temp: temp_exists,
        remove_target: target_exists,
    }
}

pub fn rollback_unlink_failed(source_path: &str, error: &str) -> (e: SwitchError)
    ensures
        err_is(
            e,
            "ROLLBACK_REMOVE_SYMLINK_FAILED"@,
            "failed to remove source symlink during rollback."@,
            true,
            seq![("source_path"@, Val::Text(source_path@)), ("error"@, Val::Text(error@))],
        ),
{
    switch_error(
        "ROLLBACK_REMOVE_SYMLINK_FAILED",
        "failed to remove source symlink during rollback.",
        true,
        details2("source_path", source_path, "error", error),
    )
}

pub fn rollback_restore_failed(backup_path: &str, source_path: &str, error: &str) -> (e: SwitchError)
    ensures
        err_is(
            e,
            "ROLLBACK_RESTORE_BACKUP_FAILED"@,
            "failed to restore source path from backup."@,
            false,
            seq![("backup_path"@, Val::Text(backup_path@)), ("source_path"@, Val::Text(source_path@)), ("error"@, Val::Text(error@))],
        ),
{
    switch_error(
        "ROLLBACK_RESTORE_BACKUP_FAILED",
        "failed to restore source path from backup.",
        false,
        details3("backup_path", backup_path, "source_path", source_path, "error", error),
    )
}

pub fn rollback_target_cleanup_failed(target_path: &str, error: &str) -> (e: SwitchError)
    ensures
        err_is(
            e,
            "ROLLBACK_CLEANUP_TEMP_FAILED"@,
            "failed to cleanup target path during rollback."@,
            true,
            seq![("target_path"@, Val::Text(target_path@)), ("error"@, Val::Text(error@))],
        ),
{
    switch_error(
        "ROLLBACK_CLEANUP_TEMP_FAILED",
        "failed to cleanup target path during rollback.",
        true,
        details2("target_path", target_path, "error", error),
    )
}

// ---------------------------------------------------------------------------
// Sequencing of the migrate switch and of the copy
// ---------------------------------------------------------------------------

/// The next step of a migrate switch (which starts, once `switch_precheck`
/// passes, by renaming the source to the backup path).
#[derive(Debug)]
pub enum SwitchNext {
    /// Rename the temporary copy to the target path.
    PromoteTemp,
    /// Create the `source -> target` link.
    Link,
    /// Rename the backup back to the source (ignoring the outcome), then fail.
    RestoreBackupThenFail(SwitchError),
    /// Undo the switch (ignoring the outcome), then fail.
    RollbackThenFail(SwitchError),
    Fail(SwitchError),
    Done,
}

/// After renaming the source to the backup.
pub fn switch_after_backup(source_path: &str, backup_path: &str, result: &Result<(), String>) -> (n: SwitchNext)
    ensures
        match *result {
            Ok(()) => (n is PromoteTemp),
            Err(error) => n matches SwitchNext::Fail(e) && err_is(
                e,
                "MIGRATE_SWITCH_RENAME_FAILED"@,
                "failed to rename source path to backup path."@,
                true,
                seq![("source_path"@, Val::Text(source_path@)), ("backup_path"@, Val::Text(backup_path@)), ("error"@, Val::Text(error@))],
            ),
        },
{
    match result {
        Ok(()) => SwitchNext::PromoteTemp,
        Err(error) => SwitchNext::Fail(rename_to_backup_failed(source_path, backup_path, error.as_str())),
    }
}

/// After promoting the temporary copy: on failure the source comes back
/// from the backup before the error is reported.
pub fn switch_after_promote(temp_path: &str, target_path: &str, result: &Result<(), String>) -> (n: SwitchNext)
    ensures
        match *result {
            Ok(()) => (n is Link),
            Err(error) => n matches SwitchNext::RestoreBackupThenFail(e) && err_is(
                e,
                "MIGRATE_SWITCH_RENAME_FAILED"@,
                "failed to promote temp path to target path."@,
                true,
                seq![("temp_path"@, Val::Text(temp_path@)), ("target_path"@, Val::Text(target_path@)), ("error"@, Val::Text(error@))],
            ),
        },
{
    match result {
        Ok(()) => SwitchNext::Link,
        Err(error) => SwitchNext::RestoreBackupThenFail(promote_temp_failed(temp_path, target_path, error.as_str())),
    }
}

/// After creating the link: on failure the whole switch is undone before the
/// error is reported.
pub fn switch_after_link(source_path: &str, target_path: &str, result: &Result<(), String>) -> (n: SwitchNext)
    ensures
        match *result {
            Ok(()) => (n is Done),
            Err(error) => n matches SwitchNext::RollbackThenFail(e) && err_is(
                e,
                "MIGRATE_SWITCH_SYMLINK_FAILED"@,
                "failed to create source -> target symlink."@,
                true,
                seq![("source_path"@, Val::Text(source_path@)), ("target_path"@, Val::Text(target_path@)), ("error"@, Val::Text(error@))],
            ),
        },
{
    match result {
        Ok(()) => SwitchNext::Done,
        Err(error) => SwitchNext::RollbackThenFail(link_failed(source_path, target_path, error.as_str())),
    }
}

/// The size of a file-system entry from its kind: a link or an entry that is
/// neither file nor directory counts zero, a file its length, a directory
/// the sum of its entries (saturating at `u64::MAX`).
pub open spec fn saturating_sum(s: Seq<u64>) -> int
    decreases s.len(),
{
    if s.len() == 0 {
        0
    } else {
        let rest = saturating_sum(s.drop_last());
        if rest + s.last() > u64::MAX {
            u64::MAX as int
        } else {
            rest + s.last()
        }
    }
}

/// The plain sum of `s`.
pub open spec fn total_of(s: Seq<u64>) -> int
    decreases s.len(),
{
    if s.len() == 0 {
        0
    } else {
        total_of(s.drop_last()) + s.last()
    }
}

/// The size of a directory is the sum of its entries' sizes, or `u64::MAX`
/// when that sum does not fit: no entry is dropped or counted twice.
pub proof fn directory_size_is_sum(s: Seq<u64>)
    ensures
        saturating_sum(s) == if total_of(s) > u64::MAX {
            u64::MAX as int
        } else {
            total_of(s)
        },
    decreases s.len(),
{
    if s.len() > 0 {
        directory_size_is_sum(s.drop_last());
    }
}

pub fn entry_size(is_symlink: bool, is_file: bool, is_dir: bool, len: u64, child_sizes: &Vec<u64>) -> (n: u64)
    ensures
        n == if is_symlink {
            0
        } else if is_file {
            len as int
        } else if is_dir {
            saturating_sum(child_sizes@)
        } else {
            0
        },
        !is_symlink && !is_file && is_dir ==> n == if total_of(child_sizes@) > u64::MAX {
            u64::MAX as int
        } else {
            total_of(child_sizes@)
        },
{
    proof {
        directory_size_is_sum(child_sizes@);
    }
    if is_symlink {
        return 0;
    }
    if is_file {
        return len;
    }
    if !is_dir {
        return 0;
    }
    let mut total: u64 = 0;
    let mut i: usize = 0;
    while i < child_sizes.len()
        invariant
            i <= child_sizes@.len(),
            total == saturating_sum(child_sizes@.take(i as int)),
        decreases child_sizes@.len() - i,
    {
        assert(child_sizes@.take(i + 1).drop_last() =~= child_sizes@.take(i as int));
        total = total.saturating_add(child_sizes[i]);
        i = i + 1;
    }
    assert(child_sizes@.take(i as int) =~= child_sizes@);
    total
}

} // verus!
