use disk_relocator::fsops::{BootstrapSwitchOutcome, CopyResult, SwitchError, VerifyResult};
use disk_relocator::models::Details;
use disk_relocator::planning::MigrationUnitPlan;
use disk_relocator::plans::{Action, Completion, Timing};
use disk_relocator::prechecks::{new_relocation_record, RunMode};
use disk_relocator::profiles::{AppProfile, PrecheckRules};
use disk_relocator::workflow::{migration_context, MigrationContext, MigrationRun, MigrationStage, RunStep};

fn err(code: &str) -> SwitchError {
    SwitchError { code: code.to_string(), message: format!("{code} happened"), retryable: true, details: Details::empty() }
}

fn context(mode: RunMode, cleanup: bool) -> MigrationContext {
    let profile = AppProfile {
        app_id: "telegram-desktop".to_string(),
        display_name: "Telegram".to_string(),
        description_i18n: vec![],
        migration_warning_i18n: vec![],
        migration_warning_countdown_seconds: 0,
        availability: "active".to_string(),
        blocked_reason: None,
        bundle_ids: vec![],
        process_names: vec!["Telegram".to_string()],
        relocation_units: vec![],
        precheck_rules: PrecheckRules::default(),
    };
    let unit = MigrationUnitPlan {
        unit_id: "tg-data".to_string(),
        display_name: "Telegram Data".to_string(),
        source_path: "/Users/me/Library/Telegram".to_string(),
        target_path_template: "{target_root}/AppData/Telegram".to_string(),
        default_enabled: true,
        enabled: true,
        risk_level: "stable".to_string(),
        requires_confirmation: false,
        blocked_reason: None,
        allow_bootstrap_if_source_missing: true,
        category: "app-data".to_string(),
    };
    let record = new_relocation_record("reloc_1", &profile, mode, &unit, "/Volumes/Ext", "tr_1", "2026-03-05T10:00:00Z");
    assert_eq!(record.target_path, "/Volumes/Ext/AppData/Telegram");
    assert_eq!(record.state, "PRECHECKING");
    match mode {
        RunMode::Migrate => assert_eq!(record.backup_path.as_deref(), Some("/Users/me/Library/Telegram.bak")),
        RunMode::Bootstrap => assert!(record.backup_path.is_none()),
    }
    migration_context(&record, mode, "tg-data", &profile.process_names, cleanup)
}

/// The (status, step) of each log entry and the state of each update.
fn trace(actions: &[Action]) -> Vec<String> {
    actions
        .iter()
        .map(|a| match a {
            Action::Log(l) => format!("{}:{}:{}", l.stage, l.step, l.status),
            Action::Update(u) => format!("state:{}:{}", u.state, u.health_state),
            Action::Sizes { source_size_bytes, target_size_bytes } => format!("sizes:{source_size_bytes}:{target_size_bytes}"),
            Action::Snapshot(s) => format!("snapshot:{}", s.check_code),
        })
        .collect()
}

fn last_update(actions: &[Action]) -> (String, Option<String>, Completion) {
    for a in actions.iter().rev() {
        if let Action::Update(u) = a {
            return (u.state.clone(), u.last_error_code.clone(), u.completion);
        }
    }
    panic!("no state change");
}

fn through_prechecks(ctx: &MigrationContext, size: u64) -> (MigrationRun, Vec<String>) {
    let (mut run, start) = MigrationRun::start();
    let mut all = trace(&start);
    let steps: Vec<RunStep> = vec![
        run.on_processes(ctx, &vec![]),
        run.on_source(ctx, Ok(size)),
        run.on_target_online(ctx, Ok(())),
        run.on_target_writable(ctx, Ok(())),
        run.on_free_space(ctx, Ok(u64::MAX)),
    ];
    for s in steps {
        assert!(s.outcome.is_none());
        all.extend(trace(&s.actions));
    }
    (run, all)
}

#[test]
fn bootstrap_run_commits_healthy() {
    let ctx = context(RunMode::Bootstrap, false);
    let (mut run, mut log) = through_prechecks(&ctx, 0);
    assert!(matches!(run.stage, MigrationStage::BootstrapSwitch));
    let outcome = BootstrapSwitchOutcome { source_placeholder_removed: true, target_dir_created: true };
    let s = run.on_bootstrap_switch(Ok(outcome));
    log.extend(trace(&s.actions));
    assert!(run.switch_outcome.source_placeholder_removed);
    let s = run.on_postcheck(&ctx, Ok(Details::empty()));
    log.extend(trace(&s.actions));
    assert!(matches!(s.outcome, Some(Ok(()))));
    assert!(matches!(run.stage, MigrationStage::Finished));
    assert_eq!(last_update(&s.actions), ("HEALTHY".to_string(), None, Completion::Now));
    assert_eq!(
        log,
        vec![
            "precheck:process_stopped:started",
            "precheck:process_stopped:succeeded",
            "precheck:source_ready:started",
            "precheck:source_ready:succeeded",
            "precheck:bootstrap_source_empty:started",
            "precheck:bootstrap_source_empty:succeeded",
            "sizes:0:0",
            "precheck:target_online:started",
            "precheck:target_online:succeeded",
            "precheck:target_writable:started",
            "precheck:target_writable:succeeded",
            "precheck:space_budget:started",
            "precheck:space_budget:succeeded",
            "state:BOOTSTRAP_INIT:unknown",
            "migration:bootstrap_switch:started",
            "migration:bootstrap_switch:succeeded",
            "migration:bootstrap_postcheck:started",
            "migration:bootstrap_postcheck:succeeded",
            "state:HEALTHY:healthy",
            "migration:metadata_commit:succeeded",
            "snapshot:HEALTH_BOOTSTRAP_OK",
        ]
    );
    match &s.actions[2] {
        Action::Log(l) => assert!(matches!(l.timing, Timing::Zero)),
        _ => panic!("commit entry"),
    }
}

#[test]
fn bootstrap_with_data_fails_its_precheck() {
    let ctx = context(RunMode::Bootstrap, false);
    let (mut run, _) = MigrationRun::start();
    run.on_processes(&ctx, &vec![]);
    let s = run.on_source(&ctx, Ok(42));
    match &s.outcome {
        Some(Err(e)) => assert_eq!(e.code, "PRECHECK_BOOTSTRAP_NOT_ALLOWED"),
        _ => panic!("bootstrap with data fails"),
    }
    assert_eq!(
        last_update(&s.actions),
        ("PRECHECK_FAILED".to_string(), Some("PRECHECK_BOOTSTRAP_NOT_ALLOWED".to_string()), Completion::Clear)
    );
    assert_eq!(run.source_size_bytes, 42);
}

#[test]
fn running_process_fails_the_first_precheck() {
    let ctx = context(RunMode::Migrate, false);
    let (mut run, _) = MigrationRun::start();
    let s = run.on_processes(&ctx, &vec!["Telegram".to_string()]);
    assert_eq!(trace(&s.actions), vec!["precheck:process_stopped:failed", "state:PRECHECK_FAILED:unknown"]);
    assert!(matches!(run.stage, MigrationStage::Finished));
}

#[test]
fn bootstrap_switch_failure_ends_rolled_back() {
    let ctx = context(RunMode::Bootstrap, false);
    let (mut run, _) = through_prechecks(&ctx, 0);
    let s = run.on_bootstrap_switch(Err(err("MIGRATE_SWITCH_SYMLINK_FAILED")));
    assert_eq!(
        last_update(&s.actions),
        ("ROLLED_BACK".to_string(), Some("MIGRATE_SWITCH_SYMLINK_FAILED".to_string()), Completion::Now)
    );
}

#[test]
fn bootstrap_postcheck_failure_rolls_back_and_reports_the_postcheck_error() {
    let ctx = context(RunMode::Bootstrap, false);
    let (mut run, _) = through_prechecks(&ctx, 0);
    run.on_bootstrap_switch(Ok(BootstrapSwitchOutcome { source_placeholder_removed: false, target_dir_created: true }));
    let s = run.on_postcheck(&ctx, Err(err("MIGRATE_POSTCHECK_FAILED")));
    assert_eq!(
        trace(&s.actions),
        vec![
            "migration:bootstrap_postcheck:failed",
            "state:ROLLING_BACK:broken",
            "rollback:bootstrap_cleanup:started"
        ]
    );
    assert!(matches!(run.stage, MigrationStage::BootstrapCleanup));
    let s = run.on_rollback(Ok(()));
    match &s.outcome {
        Some(Err(e)) => assert_eq!(e.code, "MIGRATE_POSTCHECK_FAILED"),
        _ => panic!("the original error is reported"),
    }
    assert_eq!(
        last_update(&s.actions),
        ("ROLLED_BACK".to_string(), Some("MIGRATE_POSTCHECK_FAILED".to_string()), Completion::Now)
    );
}

fn migrate_until_switch(ctx: &MigrationContext) -> MigrationRun {
    let (mut run, _) = through_prechecks(ctx, 100);
    assert!(matches!(run.stage, MigrationStage::MigrateTargetAbsent));
    let s = run.on_paths_found(ctx, false, false);
    assert_eq!(
        trace(&s.actions),
        vec!["precheck:migrate_target_absent:succeeded", "state:COPYING:unknown", "migration:copy_to_temp:started"]
    );
    run.on_copy(ctx, Ok(CopyResult { copied_bytes: 100 }));
    let s = run.on_verify(ctx, Ok(VerifyResult { source_size_bytes: 100, temp_size_bytes: 100 }));
    assert_eq!(
        trace(&s.actions),
        vec![
            "migration:verify_copy:succeeded",
            "sizes:100:100",
            "state:SWITCHING:unknown",
            "migration:switch_paths:started"
        ]
    );
    run
}

#[test]
fn migrate_run_removes_backup_and_commits_even_if_cleanup_fails() {
    let ctx = context(RunMode::Migrate, true);
    assert_eq!(ctx.temp_path, "/Volumes/Ext/AppData/Telegram.tmp.reloc_1");
    let mut run = migrate_until_switch(&ctx);
    run.on_switch(Ok(()));
    let s = run.on_postcheck(&ctx, Ok(Details::empty()));
    assert_eq!(trace(&s.actions), vec!["migration:postcheck:succeeded", "migration:cleanup_backup:started"]);
    let s = run.on_backup_removed(&ctx, Err(err("ROLLBACK_CLEANUP_TEMP_FAILED")));
    assert!(matches!(s.outcome, Some(Ok(()))));
    assert_eq!(
        trace(&s.actions),
        vec![
            "migration:cleanup_backup:failed",
            "state:HEALTHY:healthy",
            "migration:metadata_commit:succeeded",
            "snapshot:HEALTH_MIGRATE_OK"
        ]
    );
}

#[test]
fn migrate_run_without_backup_cleanup_commits_after_postcheck() {
    let ctx = context(RunMode::Migrate, false);
    let mut run = migrate_until_switch(&ctx);
    run.on_switch(Ok(()));
    let s = run.on_postcheck(&ctx, Ok(Details::empty()));
    assert!(matches!(s.outcome, Some(Ok(()))));
    assert_eq!(last_update(&s.actions), ("HEALTHY".to_string(), None, Completion::Now));
}

#[test]
fn copy_failure_cleans_temp_and_ends_rolled_back() {
    let ctx = context(RunMode::Migrate, false);
    let (mut run, _) = through_prechecks(&ctx, 100);
    run.on_paths_found(&ctx, false, false);
    let s = run.on_copy(&ctx, Err(err("MIGRATE_COPY_FAILED")));
    assert_eq!(trace(&s.actions), vec!["migration:copy_to_temp:failed", "rollback:cleanup_temp:started"]);
    let s = run.on_cleanup_temp(&ctx, Ok(()));
    match &s.outcome {
        Some(Err(e)) => assert_eq!(e.code, "MIGRATE_COPY_FAILED"),
        _ => panic!("copy error reported"),
    }
    assert_eq!(
        last_update(&s.actions),
        ("ROLLED_BACK".to_string(), Some("MIGRATE_COPY_FAILED".to_string()), Completion::Now)
    );
}

#[test]
fn failed_cleanup_after_switch_failure_ends_rollback_failed() {
    let ctx = context(RunMode::Migrate, false);
    let mut run = migrate_until_switch(&ctx);
    let s = run.on_switch(Err(err("MIGRATE_SWITCH_RENAME_FAILED")));
    assert!(matches!(run.stage, MigrationStage::MigrateCleanup));
    assert_eq!(last_update(&s.actions).0, "ROLLING_BACK");
    let s = run.on_rollback(Err(err("ROLLBACK_RESTORE_BACKUP_FAILED")));
    match &s.outcome {
        Some(Err(e)) => assert_eq!(e.code, "ROLLBACK_RESTORE_BACKUP_FAILED"),
        _ => panic!("rollback error reported"),
    }
    assert_eq!(
        last_update(&s.actions),
        ("ROLLBACK_FAILED".to_string(), Some("ROLLBACK_RESTORE_BACKUP_FAILED".to_string()), Completion::Now)
    );
}

#[test]
fn existing_target_fails_the_migrate_path_precheck() {
    let ctx = context(RunMode::Migrate, false);
    let (mut run, _) = through_prechecks(&ctx, 100);
    let s = run.on_paths_found(&ctx, true, false);
    match &s.outcome {
        Some(Err(e)) => assert_eq!(e.code, "PRECHECK_TARGET_PATH_EXISTS"),
        _ => panic!("target exists"),
    }
}

#[test]
fn insufficient_space_fails_the_budget_precheck() {
    let ctx = context(RunMode::Migrate, false);
    let (mut run, _) = MigrationRun::start();
    run.on_processes(&ctx, &vec![]);
    run.on_source(&ctx, Ok(10));
    run.on_target_online(&ctx, Ok(()));
    run.on_target_writable(&ctx, Ok(()));
    let s = run.on_free_space(&ctx, Ok(10));
    assert_eq!(trace(&s.actions), vec!["precheck:space_budget:failed", "state:PRECHECK_FAILED:unknown"]);
}

/// Every started step is ended by an entry of the same stage and step before
/// another step starts, and nothing is left open at the end.
fn trace_is_complete(log: &[String]) -> bool {
    let mut open: Option<String> = None;
    for entry in log {
        if entry.starts_with("state:") || entry.starts_with("sizes:") || entry.starts_with("snapshot:") {
            continue;
        }
        let (step, status) = entry.rsplit_once(':').unwrap();
        if status == "started" {
            if open.is_some() {
                return false;
            }
            open = Some(step.to_string());
        } else if let Some(o) = &open {
            if o != step {
                return false;
            }
            open = None;
        }
    }
    open.is_none()
}

#[test]
fn migrate_runs_leave_complete_traces() {
    let ctx = context(RunMode::Migrate, true);
    let (mut run, mut log) = through_prechecks(&ctx, 100);
    for s in [
        run.on_paths_found(&ctx, false, false),
        run.on_copy(&ctx, Ok(CopyResult { copied_bytes: 100 })),
        run.on_verify(&ctx, Ok(VerifyResult { source_size_bytes: 100, temp_size_bytes: 100 })),
        run.on_switch(Ok(())),
        run.on_postcheck(&ctx, Ok(Details::empty())),
        run.on_backup_removed(&ctx, Ok(())),
    ] {
        log.extend(trace(&s.actions));
    }
    assert!(matches!(run.stage, MigrationStage::Finished));
    assert!(trace_is_complete(&log));

    let (mut run, mut log) = through_prechecks(&ctx, 100);
    for s in [
        run.on_paths_found(&ctx, false, false),
        run.on_copy(&ctx, Ok(CopyResult { copied_bytes: 100 })),
        run.on_verify(&ctx, Ok(VerifyResult { source_size_bytes: 100, temp_size_bytes: 100 })),
        run.on_switch(Err(err("MIGRATE_SWITCH_RENAME_FAILED"))),
        run.on_rollback(Ok(())),
    ] {
        log.extend(trace(&s.actions));
    }
    assert!(matches!(run.stage, MigrationStage::Finished));
    assert!(trace_is_complete(&log));
    assert!(!trace_is_complete(&log[..log.len() - 2]));
}
