use disk_relocator::fsops::{bootstrap_rollback_plan, migration_rollback_plan, BootstrapSwitchOutcome, EntryKind};
use disk_relocator::models::{DetailValue, Details};
use disk_relocator::plans::{Action, Completion};
use disk_relocator::records::RelocationRecord;
use disk_relocator::recovery::{
    bootstrap_recovery_finish, bootstrap_recovery_start, migrate_recovery_finish, migrate_recovery_paths,
    migrate_recovery_start, recovered_healthy, recovery_kind, recovery_records, recovery_summary, recovery_verdict,
    rollback_recovery_failed, BootstrapRecoveryStep, MigrateRecoveryStep, RecoveryKind, RecoveryVerdict,
};
use disk_relocator::rollback::{
    link_removal_result, restore_after_backup_rename, restore_after_copy, restore_after_target_rename,
    restore_start, rollback_context, LinkRemoval, RestoreNext, RollbackRun, RollbackStage,
};

fn record(mode: &str, state: &str, backup: Option<&str>) -> RelocationRecord {
    RelocationRecord {
        relocation_id: "reloc_recover".to_string(),
        app_id: "telegram-desktop".to_string(),
        tier: "supported".to_string(),
        mode: mode.to_string(),
        source_path: "/data/source".to_string(),
        target_root: "/Volumes/Ext".to_string(),
        target_path: "/Volumes/Ext/target".to_string(),
        backup_path: backup.map(|b| b.to_string()),
        state: state.to_string(),
        health_state: "unknown".to_string(),
        last_error_code: None,
        trace_id: "tr_seed".to_string(),
        source_size_bytes: 0,
        target_size_bytes: 0,
        created_at: "2026-03-05T10:00:00Z".to_string(),
        updated_at: "2026-03-05T10:00:00Z".to_string(),
    }
}

fn detail_text(d: &Details, key: &str) -> Option<String> {
    d.fields.iter().find(|f| f.key == key).and_then(|f| match &f.value {
        DetailValue::Text(t) => Some(t.clone()),
        _ => None,
    })
}

#[test]
fn recovery_marks_symlinked_migrate_as_healthy() {
    let r = record("migrate", "POSTCHECKING", Some("/data/source.bak"));
    assert!(matches!(recovery_kind(&r.mode), Ok(RecoveryKind::Migrate)));
    let step = migrate_recovery_start(&r, true, true, true, true, false).expect("no drift");
    assert!(matches!(step, MigrateRecoveryStep::Healthy));
    let res = recovered_healthy(RecoveryKind::Migrate);
    assert_eq!(res.message, "Recovered unfinished migrate into healthy state.");
    let verdict = recovery_verdict(&Ok(recovered_healthy(RecoveryKind::Migrate)));
    let records = recovery_records(Ok(res));
    assert_eq!(records.update.state, "HEALTHY");
    assert_eq!(records.update.health_state, "healthy");
    assert_eq!(records.snapshot.check_code, "HEALTH_RECOVERY_HEALTHY");
    let summary = recovery_summary(&vec![verdict]);
    assert_eq!(summary.total, 1);
    assert_eq!(summary.healthy, 1);
}

#[test]
fn recovery_rolls_back_partial_migrate_state() {
    let r = record("migrate", "SWITCHING", Some("/data/source.bak"));
    // source missing, target and backup present: roll back
    let step = migrate_recovery_start(&r, false, false, true, true, false).expect("no drift");
    assert!(matches!(step, MigrateRecoveryStep::Rollback));
    let paths = migrate_recovery_paths(&r);
    assert_eq!(paths.backup_path, "/data/source.bak");
    assert_eq!(paths.temp_path, "/Volumes/Ext/target.tmp.reloc_recover");
    let plan = migration_rollback_plan(false, true, false, false, true);
    assert!(plan.restore_backup && plan.remove_target && !plan.remove_source_link);
    let res = migrate_recovery_finish(&r, &paths.backup_path, true).ok().unwrap();
    let verdict = recovery_verdict(&Ok(migrate_recovery_finish(&r, &paths.backup_path, true).ok().unwrap()));
    let records = recovery_records(Ok(res));
    assert_eq!(records.update.state, "ROLLED_BACK");
    assert_eq!(records.log.message, "Recovered unfinished migrate by rollback cleanup.");
    let summary = recovery_summary(&vec![verdict]);
    assert_eq!(summary.total, 1);
    assert_eq!(summary.rolled_back, 1);
}

#[test]
fn recovery_refuses_ambiguous_migrate_and_unknown_modes() {
    let r = record("migrate", "COPYING", Some("/data/source.bak"));
    let e = migrate_recovery_start(&r, false, true, true, false, false).err().unwrap();
    assert_eq!(e.code, "HEALTH_METADATA_DRIFT");
    let records = recovery_records(Err(e));
    assert_eq!(records.update.state, "ROLLBACK_FAILED");
    assert_eq!(records.update.last_error_code.as_deref(), Some("HEALTH_METADATA_DRIFT"));
    assert_eq!(records.snapshot.check_code, "HEALTH_RECOVERY_FAILED");
    let e = recovery_kind("copy").err().unwrap();
    assert_eq!(e.code, "ROLLBACK_METADATA_RESTORE_FAILED");
    let e = migrate_recovery_finish(&r, "/data/source.bak", false).err().unwrap();
    assert_eq!(e.message, "source path still missing after migrate rollback recovery.");
    let wrapped = rollback_recovery_failed(RecoveryKind::Bootstrap, e);
    assert_eq!(wrapped.message, "bootstrap rollback recovery failed: source path still missing after migrate rollback recovery.");
    assert_eq!(wrapped.code, "ROLLBACK_RESTORE_BACKUP_FAILED");
}

#[test]
fn recovery_of_bootstrap_undoes_what_the_paths_show() {
    assert!(matches!(bootstrap_recovery_start(true, true, true), BootstrapRecoveryStep::Healthy));
    match bootstrap_recovery_start(true, false, false) {
        BootstrapRecoveryStep::Rollback(o) => {
            assert!(o.source_placeholder_removed);
            assert!(!o.target_dir_created);
        }
        _ => panic!("dangling link is rolled back"),
    }
    let res = bootstrap_recovery_finish("/s", &None).ok().unwrap();
    assert_eq!(res.message, "Recovered unfinished bootstrap by rollback cleanup.");
    let e = bootstrap_recovery_finish("/s", &Some(Err("denied".to_string()))).err().unwrap();
    assert_eq!(e.code, "ROLLBACK_RESTORE_BACKUP_FAILED");
}

#[test]
fn recovery_summary_counts_every_relocation_once() {
    let s = recovery_summary(&vec![
        RecoveryVerdict::Healthy,
        RecoveryVerdict::Failed,
        RecoveryVerdict::RolledBack,
        RecoveryVerdict::Failed,
    ]);
    assert_eq!((s.total, s.healthy, s.rolled_back, s.failed), (4, 1, 1, 2));
    assert_eq!(s.total, s.healthy + s.rolled_back + s.failed);
}

#[test]
fn rollback_restores_source_placeholder_and_cleans_target() {
    let outcome = BootstrapSwitchOutcome { source_placeholder_removed: true, target_dir_created: true };
    let plan = bootstrap_rollback_plan("/t", outcome, true, false, &EntryKind::Directory { empty: Ok(true) });
    assert!(plan.remove_source_link && plan.recreate_source && plan.remove_target);
}

#[test]
fn rollback_does_not_remove_non_empty_target_dir() {
    let outcome = BootstrapSwitchOutcome { source_placeholder_removed: true, target_dir_created: true };
    let plan = bootstrap_rollback_plan("/t", outcome, true, false, &EntryKind::Directory { empty: Ok(false) });
    assert!(plan.recreate_source);
    assert!(!plan.remove_target);
}

fn trace(actions: &[Action]) -> Vec<String> {
    actions
        .iter()
        .map(|a| match a {
            Action::Log(l) => format!("{}:{}:{}", l.stage, l.step, l.status),
            Action::Update(u) => format!("state:{}:{}", u.state, u.health_state),
            Action::Sizes { .. } => "sizes".to_string(),
            Action::Snapshot(s) => format!("snapshot:{}", s.check_code),
        })
        .collect()
}

#[test]
fn rollback_run_restores_from_backup_and_commits() {
    let r = record("migrate", "HEALTHY", Some("/data/source.bak"));
    let ctx = rollback_context(&r, false);
    assert_eq!(ctx.temp_path, "/Volumes/Ext/target.tmp.reloc_recover");
    let (mut run, start) = RollbackRun::start(&ctx);
    assert_eq!(trace(&start), vec!["state:ROLLING_BACK:unknown", "rollback:remove_source_symlink:started"]);
    let removed = link_removal_result(&ctx.source_path, &LinkRemoval::Removed(Ok(()))).ok().unwrap();
    run.on_link_removed(&ctx, Ok(removed));
    assert!(matches!(run.stage, RollbackStage::RestoreSource));
    assert!(matches!(restore_start(&ctx, true, false, true), RestoreNext::RenameBackup));
    let restored = restore_after_backup_rename(&ctx, &Ok(())).ok().unwrap();
    assert_eq!(detail_text(&restored, "method").as_deref(), Some("backup_rename"));
    run.on_restored(&ctx, Ok(restored));
    let s = run.on_cleanup(&ctx, Ok(()));
    assert!(matches!(s.outcome, Some(Ok(()))));
    assert_eq!(
        trace(&s.actions),
        vec![
            "rollback:cleanup_temp:succeeded",
            "state:ROLLED_BACK:healthy",
            "rollback:state_restore:succeeded",
            "snapshot:HEALTH_ROLLBACK_OK"
        ]
    );
    match &s.actions[1] {
        Action::Update(u) => assert_eq!(u.completion, Completion::Now),
        _ => panic!("state change"),
    }
}

#[test]
fn rollback_refuses_to_overwrite_source_unless_forced() {
    let r = record("migrate", "HEALTHY", Some("/data/source.bak"));
    let ctx = rollback_context(&r, false);
    match restore_start(&ctx, true, true, true) {
        RestoreNext::Done(Err(e)) => {
            assert_eq!(e.code, "ROLLBACK_RESTORE_BACKUP_FAILED");
            assert_eq!(e.message, "source path exists while backup path is present, set force=true to override.");
        }
        _ => panic!("not forced"),
    }
    let forced = rollback_context(&r, true);
    assert!(matches!(restore_start(&forced, true, true, true), RestoreNext::RemoveSource));
}

#[test]
fn rollback_removes_source_symlink_and_target_without_backup() {
    let r = record("migrate", "HEALTHY", None);
    let ctx = rollback_context(&r, false);
    assert!(matches!(restore_start(&ctx, false, false, true), RestoreNext::RenameTarget));
    match restore_after_target_rename(&ctx, Ok(())) {
        RestoreNext::Done(Ok(d)) => {
            assert_eq!(detail_text(&d, "method").as_deref(), Some("target_rename_to_source_without_backup"))
        }
        _ => panic!("renamed"),
    }
    match restore_after_target_rename(&ctx, Err("cross-device".to_string())) {
        RestoreNext::CopyTarget { rename_error } => {
            let d = restore_after_copy(&ctx, &rename_error, Ok(10)).ok().unwrap();
            assert_eq!(detail_text(&d, "method").as_deref(), Some("target_copy_to_source_without_backup"));
            assert_eq!(detail_text(&d, "rename_error").as_deref(), Some("cross-device"));
        }
        _ => panic!("copy after failed rename"),
    }
    match restore_start(&ctx, false, false, false) {
        RestoreNext::Done(Err(e)) => assert_eq!(e.message, "source path missing and backup path not found."),
        _ => panic!("nothing to restore"),
    }
    let b = rollback_context(&record("bootstrap", "HEALTHY", None), false);
    assert!(matches!(restore_start(&b, false, false, false), RestoreNext::CreateSource));
}

#[test]
fn rollback_failure_is_recorded_with_its_code() {
    let r = record("migrate", "HEALTHY", None);
    let ctx = rollback_context(&r, false);
    let (mut run, _) = RollbackRun::start(&ctx);
    let e = link_removal_result(&ctx.source_path, &LinkRemoval::Unreadable("io".to_string())).err().unwrap();
    assert_eq!(e.code, "ROLLBACK_REMOVE_SYMLINK_FAILED");
    let s = run.on_link_removed(&ctx, Err(e));
    assert_eq!(trace(&s.actions), vec!["rollback:remove_source_symlink:failed", "state:ROLLBACK_FAILED:broken"]);
    assert!(matches!(run.stage, RollbackStage::Finished));
}
