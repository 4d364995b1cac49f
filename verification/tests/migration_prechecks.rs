use disk_relocator::fsops::{copy_precheck, verify_source_and_temp};
use disk_relocator::prechecks::{
    bootstrap_source_empty, check_available_space, check_migrate_mode, check_selected_unit, detect_running_processes,
    migrate_paths_absent, postcheck_link, postcheck_target, processes_stopped, source_check_after_listing,
    source_check_after_size, source_check_start, target_online_after_create, target_online_start,
    target_writable_result, IoFailure, LinkObservation, ListOutcome, ProbeOutcome, RunMode, SourceCheckNext,
    SourceMeta, TargetOnlineNext, TargetProbeObservation, SAFETY_MARGIN_MIN_BYTES,
};
use disk_relocator::planning::MigrationUnitPlan;
use disk_relocator::profiles::{AppProfile, PrecheckRules};

fn done(n: SourceCheckNext) -> Result<u64, String> {
    match n {
        SourceCheckNext::Done(Ok(size)) => Ok(size),
        SourceCheckNext::Done(Err(e)) => Err(e.code),
        SourceCheckNext::ListDirectory => Err("list".to_string()),
        SourceCheckNext::MeasureSize => Err("measure".to_string()),
    }
}

#[test]
fn check_source_allows_missing_path_in_bootstrap_mode() {
    let size = done(source_check_start(RunMode::Bootstrap, "/tmp/x/missing-source", true, false, &SourceMeta::NotFound))
        .expect("bootstrap should allow missing source path");
    assert_eq!(size, 0);
}

#[test]
fn check_source_rejects_missing_path_in_migrate_mode() {
    let code = done(source_check_start(RunMode::Migrate, "/tmp/x/missing-source", true, false, &SourceMeta::NotFound))
        .expect_err("migrate mode should reject missing source path");
    assert_eq!(code, "PRECHECK_SOURCE_NOT_FOUND");
}

#[test]
fn check_source_rejects_file_source_path() {
    let code = done(source_check_start(RunMode::Migrate, "/tmp/x/source-file", false, false, &SourceMeta::NotDirectory))
        .expect_err("file source should be rejected");
    assert_eq!(code, "PRECHECK_SOURCE_NOT_FOUND");
}

#[test]
fn check_source_rejects_symlink_source_path() {
    let code = done(source_check_start(RunMode::Migrate, "/tmp/x/source-link", false, false, &SourceMeta::Symlink))
        .expect_err("source symlink should be rejected");
    assert_eq!(code, "PRECHECK_SOURCE_IS_SYMLINK");
}

#[test]
fn check_source_bootstrap_mode_with_existing_dir_returns_size() {
    match source_check_start(RunMode::Bootstrap, "/tmp/x/source", true, false, &SourceMeta::Directory) {
        SourceCheckNext::MeasureSize => {}
        _ => panic!("an existing directory is measured"),
    }
    let size = source_check_after_size("/tmp/x/source", &Ok(5)).expect("size");
    assert!(size > 0);
}

#[test]
fn check_source_full_disk_access_and_size_errors() {
    match source_check_start(RunMode::Migrate, "/s", false, true, &SourceMeta::Directory) {
        SourceCheckNext::ListDirectory => {}
        _ => panic!("full disk access is checked by listing"),
    }
    let code = done(source_check_after_listing("/s", &ListOutcome::PermissionDenied("denied".to_string()))).unwrap_err();
    assert_eq!(code, "PRECHECK_PERMISSION_DENIED");
    assert!(matches!(source_check_after_listing("/s", &ListOutcome::Failed), SourceCheckNext::MeasureSize));
    let e = source_check_after_size("/s", &Err(IoFailure { permission_denied: true, error: "no".to_string() }))
        .unwrap_err();
    assert_eq!(e.code, "PRECHECK_PERMISSION_DENIED");
    assert!(!e.retryable);
    let e = source_check_after_size("/s", &Err(IoFailure { permission_denied: false, error: "io".to_string() }))
        .unwrap_err();
    assert_eq!(e.code, "PRECHECK_SOURCE_NOT_FOUND");
    assert!(!e.retryable);
    assert_eq!(e.message, "failed to estimate source data size.");
}

#[test]
fn check_available_space_rejects_insufficient_capacity() {
    let err = check_available_space("/tmp/root", u64::MAX / 2, &Ok(500_000_000_000))
        .expect_err("should reject when required space is impossible");
    assert_eq!(err.code, "PRECHECK_INSUFFICIENT_SPACE");
}

#[test]
fn check_available_space_uses_margin_of_a_tenth_or_512_mib() {
    // small source: the 512 MiB floor applies
    let (free, required) = check_available_space("/r", 1_000, &Ok(SAFETY_MARGIN_MIN_BYTES + 1_000)).unwrap();
    assert_eq!(free, SAFETY_MARGIN_MIN_BYTES + 1_000);
    assert_eq!(required, SAFETY_MARGIN_MIN_BYTES + 1_000);
    assert!(check_available_space("/r", 1_000, &Ok(SAFETY_MARGIN_MIN_BYTES + 999)).is_err());
    // large source: a tenth of it
    let size = 100_000_000_000u64;
    let (_, required) = check_available_space("/r", size, &Ok(u64::MAX)).unwrap();
    assert_eq!(required, size + size / 10);
    // the requirement saturates
    let err = check_available_space("/r", u64::MAX, &Ok(u64::MAX - 1)).unwrap_err();
    assert_eq!(err.code, "PRECHECK_INSUFFICIENT_SPACE");
    assert!(check_available_space("/r", u64::MAX, &Ok(u64::MAX)).is_ok());
    let err = check_available_space("/r", 1, &Err("io".to_string())).unwrap_err();
    assert_eq!(err.code, "PRECHECK_DISK_OFFLINE");
    assert_eq!(err.message, "failed to query available disk space.");
}

#[test]
fn check_target_online_creates_missing_root_when_parent_exists() {
    let root = "/tmp/x/missing-root";
    match target_online_start(root, false, &Some(("/tmp/x".to_string(), true))) {
        TargetOnlineNext::CreateRoot => {}
        _ => panic!("missing target root should be auto-created"),
    }
    target_online_after_create(root, &Ok(()), true).expect("created root is online");
}

#[test]
fn check_target_online_rejects_missing_parent() {
    let root = "/tmp/x/missing-parent/missing-root";
    match target_online_start(root, false, &Some(("/tmp/x/missing-parent".to_string(), false))) {
        TargetOnlineNext::Offline(e) => assert_eq!(e.code, "PRECHECK_DISK_OFFLINE"),
        _ => panic!("missing parent should still be offline"),
    }
}

#[test]
fn check_target_online_accepts_existing_directory() {
    assert!(matches!(target_online_start("/tmp", true, &None), TargetOnlineNext::Online));
}

#[test]
fn check_target_online_never_creates_a_volume_mount_point() {
    match target_online_start("/Volumes/Gone", false, &Some(("/Volumes".to_string(), true))) {
        TargetOnlineNext::Offline(e) => assert_eq!(e.message, "target disk is offline or not mounted."),
        _ => panic!("a root directly under /Volumes is not created"),
    }
    match target_online_start("/", false, &None) {
        TargetOnlineNext::Offline(e) => assert_eq!(e.code, "PRECHECK_DISK_OFFLINE"),
        _ => panic!("a root without parent is offline"),
    }
    let e = target_online_after_create("/r", &Err(IoFailure { permission_denied: true, error: "ro".to_string() }), false)
        .unwrap_err();
    assert_eq!(e.code, "PRECHECK_DISK_READONLY");
    assert_eq!(target_online_after_create("/r", &Ok(()), false).unwrap_err().code, "PRECHECK_DISK_OFFLINE");
}

#[test]
fn check_target_writable_accepts_writable_root() {
    target_writable_result("/tmp", &ProbeOutcome::Done).expect("temp dir should be writable");
}

#[test]
fn check_target_writable_rejects_missing_root() {
    let err = target_writable_result(
        "/tmp/x/missing-root",
        &ProbeOutcome::CreateFailed(IoFailure { permission_denied: false, error: "not found".to_string() }),
    )
    .expect_err("missing root should fail writable check");
    assert_eq!(err.code, "PRECHECK_DISK_OFFLINE");
}

#[test]
fn check_target_writable_reports_readonly_steps() {
    let e = target_writable_result("/r", &ProbeOutcome::WriteFailed("w".to_string())).unwrap_err();
    assert_eq!((e.code.as_str(), e.message.as_str()), ("PRECHECK_DISK_READONLY", "failed to write probe file on target root."));
    let e = target_writable_result("/r", &ProbeOutcome::RemoveFailed("r".to_string())).unwrap_err();
    assert_eq!(e.message, "failed to cleanup writable probe file.");
}

#[test]
fn postcheck_symlink_target_success() {
    postcheck_link("/t/source-link", "/t/target-dir", &LinkObservation::Linked("/t/target-dir".to_string()))
        .expect("link points at the target");
    let details =
        postcheck_target("/t/source-link", "/t/target-dir", &TargetProbeObservation::Writable).expect("postcheck should pass");
    assert_eq!(details.fields.len(), 4);
    assert_eq!(details.fields[2].key, "symlink_ok");
    assert_eq!(details.fields[3].key, "target_writable_ok");
}

#[test]
fn postcheck_symlink_target_rejects_non_symlink_source() {
    let err = postcheck_link("/t/source-dir", "/t/target-dir", &LinkObservation::NotSymlink).unwrap_err();
    assert_eq!(err.code, "MIGRATE_POSTCHECK_FAILED");
}

#[test]
fn postcheck_symlink_target_rejects_mismatched_target() {
    let err = postcheck_link("/t/source-link", "/t/target-dir", &LinkObservation::Linked("/t/wrong-target".to_string()))
        .unwrap_err();
    assert_eq!(err.code, "MIGRATE_POSTCHECK_FAILED");
    assert_eq!(err.message, "source symlink target does not match expected target path.");
    // paths that differ only in a trailing separator are the same path
    postcheck_link("/t/s", "/t/target-dir", &LinkObservation::Linked("/t/target-dir/".to_string())).unwrap();
}

#[test]
fn postcheck_target_reports_each_failure() {
    let e = postcheck_target("/s", "/t", &TargetProbeObservation::NotDirectory).unwrap_err();
    assert_eq!(e.message, "target path is not a directory after bootstrap switch.");
    let e = postcheck_target("/s", "/t", &TargetProbeObservation::RemoveFailed("x".to_string())).unwrap_err();
    assert_eq!(e.message, "failed to clean writable probe in target path.");
    assert!(!e.retryable);
}

#[test]
fn copy_source_to_temp_rejects_missing_source() {
    let err = copy_precheck("/tmp/x/missing", false).expect_err("missing source");
    assert_eq!(err.code, "PRECHECK_SOURCE_NOT_FOUND");
}

#[test]
fn verify_detects_mismatch() {
    let err = verify_source_and_temp("/s", "/s.tmp", true, &Ok(5), &Ok(4)).unwrap_err();
    assert_eq!(err.code, "MIGRATE_VERIFY_SIZE_MISMATCH");
    assert_eq!(err.message, "source and temp size mismatch.");
    let ok = verify_source_and_temp("/s", "/s.tmp", true, &Ok(5), &Ok(5)).unwrap();
    assert_eq!((ok.source_size_bytes, ok.temp_size_bytes), (5, 5));
}

#[test]
fn migrate_mode_and_path_checks() {
    assert!(matches!(check_migrate_mode("bootstrap"), Ok(RunMode::Bootstrap)));
    assert!(matches!(check_migrate_mode("migrate"), Ok(RunMode::Migrate)));
    assert_eq!(check_migrate_mode("copy").err().unwrap().code, "PRECHECK_INVALID_MODE");
    assert_eq!(migrate_paths_absent("/t", "/b", true, true).unwrap_err().code, "PRECHECK_TARGET_PATH_EXISTS");
    assert_eq!(migrate_paths_absent("/t", "/b", false, true).unwrap_err().code, "PRECHECK_BACKUP_PATH_EXISTS");
    assert!(migrate_paths_absent("/t", "/b", false, false).is_ok());
    assert!(bootstrap_source_empty("/s", 0).is_ok());
    assert_eq!(bootstrap_source_empty("/s", 1).unwrap_err().code, "PRECHECK_BOOTSTRAP_NOT_ALLOWED");
}

fn plan_unit() -> MigrationUnitPlan {
    MigrationUnitPlan {
        unit_id: "u".to_string(),
        display_name: "U".to_string(),
        source_path: "/s".to_string(),
        target_path_template: String::new(),
        default_enabled: true,
        enabled: true,
        risk_level: "high".to_string(),
        requires_confirmation: true,
        blocked_reason: None,
        allow_bootstrap_if_source_missing: false,
        category: "app-data".to_string(),
    }
}

#[test]
fn selected_unit_rules_come_in_order() {
    let mut u = plan_unit();
    assert_eq!(
        check_selected_unit("app", &u, RunMode::Migrate, false).unwrap_err().code,
        "PRECHECK_UNIT_CONFIRMATION_REQUIRED"
    );
    assert!(check_selected_unit("app", &u, RunMode::Migrate, true).is_ok());
    assert_eq!(
        check_selected_unit("app", &u, RunMode::Bootstrap, true).unwrap_err().code,
        "PRECHECK_BOOTSTRAP_NOT_ALLOWED"
    );
    u.blocked_reason = Some("no".to_string());
    let e = check_selected_unit("app", &u, RunMode::Migrate, true).unwrap_err();
    assert_eq!(e.code, "PRECHECK_UNIT_BLOCKED");
    assert_eq!(e.details.fields.len(), 3);
}

#[test]
fn running_processes_are_matched_sorted_and_unique() {
    let profile = AppProfile {
        app_id: "wechat".to_string(),
        display_name: "WeChat".to_string(),
        description_i18n: vec![],
        migration_warning_i18n: vec![],
        migration_warning_countdown_seconds: 0,
        availability: "active".to_string(),
        blocked_reason: None,
        bundle_ids: vec![],
        process_names: vec!["WeChat".to_string()],
        relocation_units: vec![],
        precheck_rules: PrecheckRules {
            allow_bootstrap_if_source_missing: false,
            require_process_stopped: true,
            require_full_disk_access: false,
        },
    };
    let list = vec![
        "WeChatAppEx".to_string(),
        "Finder".to_string(),
        "WeChat".to_string(),
        "WeChat".to_string(),
    ];
    assert_eq!(detect_running_processes(&profile, &list), vec!["WeChat".to_string(), "WeChatAppEx".to_string()]);
    let mut relaxed = profile;
    relaxed.precheck_rules.require_process_stopped = false;
    assert!(detect_running_processes(&relaxed, &list).is_empty());
    assert!(processes_stopped(&relaxed.process_names, &vec![]).is_ok());
    let e = processes_stopped(&relaxed.process_names, &vec!["WeChat".to_string()]).unwrap_err();
    assert_eq!(e.code, "PRECHECK_PROCESS_RUNNING");
    assert!(e.retryable);
}
