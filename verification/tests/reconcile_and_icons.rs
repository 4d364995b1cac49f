use disk_relocator::health::SourceObservation;
use disk_relocator::icons::{choose_icns, icon_data_url, icon_file_candidates};
use disk_relocator::planning::{installed_bundle, is_app_bundle};
use disk_relocator::reconcile::{
    evaluate_record, fix_outcome, fix_to_attempt, reconcile_result, safe_fix_plan, FixOutcome, ReconcileObservation,
    SafeFixAction,
};
use disk_relocator::records::RelocationRecord;

fn record(source: &str, target_root: &str, target: &str) -> RelocationRecord {
    RelocationRecord {
        relocation_id: "reloc_reconcile".to_string(),
        app_id: "telegram-desktop".to_string(),
        tier: "supported".to_string(),
        mode: "migrate".to_string(),
        source_path: source.to_string(),
        target_root: target_root.to_string(),
        target_path: target.to_string(),
        backup_path: Some(format!("{source}.bak")),
        state: "ROLLBACK_FAILED".to_string(),
        health_state: "broken".to_string(),
        last_error_code: Some("ROLLBACK_RESTORE_BACKUP_FAILED".to_string()),
        trace_id: "tr_seed".to_string(),
        source_size_bytes: 0,
        target_size_bytes: 0,
        created_at: "2026-03-05T10:00:00Z".to_string(),
        updated_at: "2026-03-05T10:00:00Z".to_string(),
    }
}

fn missing_everything(mount_root_exists: bool) -> ReconcileObservation {
    ReconcileObservation {
        source: SourceObservation::Missing { error: "No such file or directory".to_string() },
        target_exists: false,
        temp_exists: false,
        backup_exists: false,
        mount_root_exists,
    }
}

#[test]
fn reconcile_safe_fix_recreates_missing_source_when_recovery_sources_absent() {
    let r = record("/tmp/x/missing-source-recreate", "/tmp/x", "/tmp/x/missing-target-recreate");
    let issues = evaluate_record(&r, &missing_everything(true));
    assert_eq!(issues.len(), 1);
    assert_eq!(issues[0].issue.code, "RECON_SOURCE_MISSING_RECOVERABLE");
    assert_eq!(
        issues[0].issue.safe_fix_action.as_deref(),
        Some("recreate_source_and_mark_state_rolled_back")
    );
    let action = fix_to_attempt(true, &issues[0]).expect("a safe fix is attempted");
    assert!(matches!(action, SafeFixAction::RecreateSourceAndMarkRolledBack));
    let plan = safe_fix_plan(&r, action);
    assert!(plan.recreate_source);
    let update = plan.update.expect("state is resynced");
    assert_eq!(update.state, "ROLLED_BACK");
    assert_eq!(update.health_state, "healthy");
    let result = reconcile_result("tr_reconcile_recreate_source", "2026-03-05T10:00:00Z", 1, issues, &vec![FixOutcome::Applied]);
    assert_eq!(result.drift_count, 1);
    assert_eq!(result.safe_fixable_count, 1);
    assert_eq!(result.fixed_count, 1);
    assert!(result.issues[0].safe_fix_applied);
}

#[test]
fn reconcile_missing_source_keeps_critical_when_target_mount_offline() {
    let r = record(
        "/tmp/x/missing-source-offline",
        "/Volumes/reconcile_offline_test",
        "/Volumes/reconcile_offline_test/AppData/Telegram/media",
    );
    let issues = evaluate_record(&r, &missing_everything(false));
    assert_eq!(issues.len(), 1);
    assert!(fix_to_attempt(true, &issues[0]).is_none());
    let result = reconcile_result("tr_reconcile_offline_mount", "2026-03-05T10:00:00Z", 1, issues, &vec![FixOutcome::NotAttempted]);
    assert_eq!(result.drift_count, 1);
    assert_eq!(result.safe_fixable_count, 0);
    assert_eq!(result.fixed_count, 0);
    assert_eq!(result.issues[0].code, "RECON_SOURCE_MISSING");
    assert_eq!(result.issues[0].severity, "critical");
    assert!(result.issues[0].safe_fix_action.is_none());
    assert!(!result.issues[0].safe_fix_applied);
}

#[test]
fn reconcile_detects_temp_residue() {
    let mut r = record("/tmp/x/source", "/tmp/x", "/tmp/x/target");
    r.relocation_id = "reloc_reconcile_001".to_string();
    r.state = "HEALTHY".to_string();
    r.health_state = "healthy".to_string();
    r.last_error_code = None;
    let obs = ReconcileObservation {
        source: SourceObservation::Link { target: "/tmp/x/target".to_string() },
        target_exists: true,
        temp_exists: true,
        backup_exists: false,
        mount_root_exists: true,
    };
    let issues = evaluate_record(&r, &obs);
    assert_eq!(issues.len(), 1);
    assert_eq!(issues[0].issue.code, "RECON_TEMP_PATH_RESIDUE");
    assert_eq!(issues[0].issue.safe_fix_action.as_deref(), Some("cleanup_temp_path"));
    assert!(fix_to_attempt(false, &issues[0]).is_none());
    let plan = safe_fix_plan(&r, fix_to_attempt(true, &issues[0]).unwrap());
    assert_eq!(plan.cleanup_temp_path.as_deref(), Some("/tmp/x/target.tmp.reloc_reconcile_001"));
    let result = reconcile_result("tr_reconcile_test_1", "2026-03-05T10:00:00Z", 1, issues, &vec![FixOutcome::NotAttempted]);
    assert_eq!(result.scanned, 1);
    assert_eq!(result.drift_count, 1);
    assert_eq!(result.issues[0].code, "RECON_TEMP_PATH_RESIDUE");
    assert_eq!(result.issues[0].safe_fix_action.as_deref(), Some("cleanup_temp_path"));
}

#[test]
fn icon_candidates_add_icns_extension_when_missing() {
    assert_eq!(icon_file_candidates("  \"AppIcon\" "), vec!["AppIcon".to_string(), "AppIcon.icns".to_string()]);
    assert_eq!(icon_file_candidates("AppIcon.ICNS"), vec!["AppIcon.ICNS".to_string()]);
    assert!(icon_file_candidates(" \"\" ").is_empty());
}

#[test]
fn choose_icns_prefers_app_icon_then_first_sorted() {
    let paths = vec![
        "/R/zeta.icns".to_string(),
        "/R/readme.txt".to_string(),
        "/R/MyAppIcon.icns".to_string(),
        "/R/alpha.ICNS".to_string(),
    ];
    assert_eq!(choose_icns(&paths), Some("/R/MyAppIcon.icns".to_string()));
    let plain = vec!["/R/zeta.icns".to_string(), "/R/alpha.icns".to_string()];
    assert_eq!(choose_icns(&plain), Some("/R/alpha.icns".to_string()));
    assert_eq!(choose_icns(&vec!["/R/x.png".to_string()]), None);
}

#[test]
fn read_icon_data_url_builds_data_url_for_png_file() {
    let url = icon_data_url("/tmp/icon.png", &b"PNG".to_vec()).expect("data url");
    assert!(url.starts_with("data:image/png;base64,"));
    assert_eq!(url, "data:image/png;base64,UE5H");
}

#[test]
fn read_icon_data_url_returns_none_for_empty_file() {
    assert!(icon_data_url("/tmp/empty.png", &Vec::new()).is_none());
}

#[test]
fn installed_bundles_are_lower_cased_app_entries() {
    assert!(is_app_bundle("/Applications/WeChat.app"));
    assert!(!is_app_bundle("/Applications/WeChat.APP"));
    assert!(!is_app_bundle("/Applications/notes.txt"));
    let b = installed_bundle("/Applications/WeChat.app".to_string(), "WeChat", Some("com.tencent.xinWeChat"));
    assert_eq!(b.stem_lc, "wechat");
    assert_eq!(b.bundle_id_lc.as_deref(), Some("com.tencent.xinwechat"));
}

#[test]
fn fix_outcome_follows_the_attempt_and_the_issue() {
    let r = record("/tmp/x/source", "/tmp/x", "/tmp/x/target");
    let obs = ReconcileObservation {
        source: SourceObservation::Link { target: "/tmp/x/target".to_string() },
        target_exists: true,
        temp_exists: true,
        backup_exists: false,
        mount_root_exists: true,
    };
    let issues = evaluate_record(&r, &obs);
    let temp = issues.iter().find(|i| i.issue.code == "RECON_TEMP_PATH_RESIDUE").unwrap();
    assert!(matches!(fix_outcome(true, temp, &None), FixOutcome::NotAttempted));
    assert!(matches!(fix_outcome(true, temp, &Some(Ok(()))), FixOutcome::Applied));
    assert!(matches!(fix_outcome(true, temp, &Some(Err("denied".to_string()))), FixOutcome::Failed));
    // With fixes off, nothing counts as attempted.
    assert!(matches!(fix_outcome(false, temp, &Some(Ok(()))), FixOutcome::NotAttempted));
    let offline = record(
        "/tmp/x/missing-source-offline",
        "/Volumes/reconcile_offline_test",
        "/Volumes/reconcile_offline_test/AppData/Telegram/media",
    );
    let unfixable = evaluate_record(&offline, &missing_everything(false));
    assert!(matches!(fix_outcome(true, &unfixable[0], &Some(Ok(()))), FixOutcome::NotAttempted));
}
