use disk_relocator::listings::{
    health_event_to_model, health_events_limit, operation_log_items, operation_log_to_item, reconcile_options,
    scan_path, scan_result, ItemDetails, PathObservation,
};
use disk_relocator::models::{HealthEventsRequest, MigrateRequest, ReconcileRequest};
use disk_relocator::planning::MigrationUnitPlan;
use disk_relocator::profiles::{AppProfile, PrecheckRules, RelocationUnit};
use disk_relocator::records::{HealthEventRecord, OperationLogRecord};
use disk_relocator::requests::{
    db_error, disk_roots, disk_status, mounted_volume_roots, open_path_target, select_migration, system_disk_status,
    VolumeEntry,
};

fn log_row(log_id: &str, details_json: &str) -> OperationLogRecord {
    OperationLogRecord {
        log_id: log_id.to_string(),
        relocation_id: "reloc_test".to_string(),
        trace_id: "tr_test".to_string(),
        stage: "migration".to_string(),
        step: "copy_to_temp".to_string(),
        status: "failed".to_string(),
        error_code: Some("MIGRATE_COPY_FAILED".to_string()),
        duration_ms: Some(12),
        message: Some("copy failed".to_string()),
        details_json: details_json.to_string(),
        created_at: "2026-03-05T10:00:00Z".to_string(),
    }
}

#[test]
fn operation_log_to_item_handles_invalid_details_json() {
    let item = operation_log_to_item(log_row("log_test_invalid_json", "{invalid-json"));
    match item.details {
        ItemDetails::Fields(d) => {
            assert_eq!(d.fields[0].key, "_parse_error");
            match &d.fields[0].value {
                disk_relocator::models::DetailValue::Text(t) => assert_eq!(t, "invalid details_json payload"),
                _ => panic!("parse error is text"),
            }
            assert_eq!(d.fields[1].key, "_raw");
        }
        ItemDetails::Json(_) => panic!("invalid JSON is not passed through"),
    }
}

#[test]
fn operation_log_to_item_keeps_valid_details_json() {
    let item = operation_log_to_item(log_row("log_ok", r#"{"a":1}"#));
    match item.details {
        ItemDetails::Json(text) => assert_eq!(text, r#"{"a":1}"#),
        ItemDetails::Fields(_) => panic!("valid JSON is kept"),
    }
    assert_eq!(item.log_id, "log_ok");
    assert_eq!(item.duration_ms, Some(12));
}

#[test]
fn operation_log_items_keep_the_latest_within_the_limit() {
    let rows: Vec<OperationLogRecord> = (0..5).map(|i| log_row(&format!("log_{i}"), "{}")).collect();
    let items = operation_log_items(rows, Some(2));
    let ids: Vec<String> = items.iter().map(|i| i.log_id.clone()).collect();
    assert_eq!(ids, vec!["log_3".to_string(), "log_4".to_string()]);
    let rows: Vec<OperationLogRecord> = (0..3).map(|i| log_row(&format!("log_{i}"), "{}")).collect();
    assert_eq!(operation_log_items(rows, Some(0)).len(), 1);
}

fn event_row(details_json: &str) -> HealthEventRecord {
    HealthEventRecord {
        snapshot_id: "snap_test".to_string(),
        relocation_id: "reloc_test".to_string(),
        app_id: "wechat-non-mas".to_string(),
        state: "healthy".to_string(),
        check_code: "HEALTH_OK".to_string(),
        details_json: details_json.to_string(),
        observed_at: "2026-03-05T10:00:00Z".to_string(),
    }
}

#[test]
fn health_event_to_model_uses_default_message_without_details_message() {
    let event = health_event_to_model(event_row("{}"));
    assert_eq!(event.message, "health event captured");
}

#[test]
fn health_event_to_model_extracts_message_from_details() {
    let event = health_event_to_model(event_row(r#"{ "message": "disk offline detected" }"#));
    assert_eq!(event.message, "disk offline detected");
    assert_eq!(health_event_to_model(event_row(r#"{ "message": 3 }"#)).message, "health event captured");
    assert_eq!(health_event_to_model(event_row("not json")).message, "health event captured");
}

#[test]
fn request_limits_and_defaults() {
    assert_eq!(health_events_limit(&None), 200);
    assert_eq!(health_events_limit(&Some(HealthEventsRequest { limit: Some(5000) })), 1000);
    assert_eq!(health_events_limit(&Some(HealthEventsRequest { limit: Some(0) })), 1);
    assert_eq!(reconcile_options(&None), (false, 500));
    assert_eq!(
        reconcile_options(&Some(ReconcileRequest { apply_safe_fixes: Some(true), limit: Some(9000) })),
        (true, 5000)
    );
}

fn unit_plan(id: &str, source: &str) -> MigrationUnitPlan {
    MigrationUnitPlan {
        unit_id: id.to_string(),
        display_name: id.to_uppercase(),
        source_path: source.to_string(),
        target_path_template: String::new(),
        default_enabled: true,
        enabled: true,
        risk_level: "stable".to_string(),
        requires_confirmation: false,
        blocked_reason: None,
        allow_bootstrap_if_source_missing: false,
        category: "app-data".to_string(),
    }
}

fn demo_profile(units: Vec<RelocationUnit>) -> AppProfile {
    AppProfile {
        app_id: "demo".to_string(),
        display_name: "Demo".to_string(),
        description_i18n: vec![],
        migration_warning_i18n: vec![],
        migration_warning_countdown_seconds: 0,
        availability: "active".to_string(),
        blocked_reason: None,
        bundle_ids: vec![],
        process_names: vec![],
        relocation_units: units,
        precheck_rules: PrecheckRules::default(),
    }
}

#[test]
fn scan_results_report_found_paths_and_skip_absent_apps() {
    let p = scan_path(&unit_plan("a", "/a"), &PathObservation::Found { is_symlink: true, size_bytes: Some(9) });
    assert!(p.exists && p.is_symlink);
    assert_eq!(p.size_bytes, 0);
    let p = scan_path(&unit_plan("a", "/a"), &PathObservation::Found { is_symlink: false, size_bytes: Some(9) });
    assert_eq!(p.size_bytes, 9);
    let units = vec![unit_plan("a", "/a"), unit_plan("b", "/b")];
    let profile = demo_profile(vec![]);
    let none = scan_result(
        &profile,
        &units,
        &vec![PathObservation::Missing, PathObservation::Missing],
        false,
        false,
        "Demo".to_string(),
        None,
        None,
        "2026-03-05T10:00:00Z",
    );
    assert!(none.is_none());
    let some = scan_result(
        &profile,
        &units,
        &vec![PathObservation::Missing, PathObservation::Found { is_symlink: false, size_bytes: None }],
        false,
        false,
        "Demo".to_string(),
        None,
        None,
        "2026-03-05T10:00:00Z",
    )
    .expect("a found path is reported");
    assert_eq!(some.detected_paths.len(), 2);
    assert!(!some.detected_paths[0].exists);
    assert!(some.detected_paths[1].exists);
    assert_eq!(some.last_verified_at, "2026-03-05T10:00:00Z");
    assert!(scan_result(&profile, &vec![], &vec![], true, false, "Demo".to_string(), None, None, "t").is_some());
}

#[test]
fn open_path_target_checks_blank_and_relative_paths() {
    assert_eq!(open_path_target("   ", None, "tr").unwrap_err().code, "OPEN_PATH_INVALID");
    let e = open_path_target("relative/x", None, "tr").unwrap_err();
    assert_eq!(e.message, "path must be absolute.");
    assert_eq!(open_path_target(" ~/Docs ", Some("/Users/me"), "tr").unwrap(), "/Users/me/Docs");
    assert_eq!(open_path_target("/tmp", None, "tr").unwrap(), "/tmp");
}

#[test]
fn disk_roots_are_sorted_and_unique() {
    let roots = disk_roots(
        &vec![
            "/Volumes/B/AppData".to_string(),
            "/Volumes/A".to_string(),
            "  ".to_string(),
            "/Volumes/B".to_string(),
        ],
        &vec!["/Volumes/A".to_string(), "/Volumes/C".to_string()],
    );
    assert_eq!(roots, vec!["/Volumes/A".to_string(), "/Volumes/B".to_string(), "/Volumes/C".to_string()]);
    let volumes = mounted_volume_roots(&vec![
        VolumeEntry { name: Some(".hidden".to_string()), path: "/Volumes/.hidden".to_string(), kind: Some((false, true)) },
        VolumeEntry { name: Some("Mac".to_string()), path: "/Volumes/Mac".to_string(), kind: Some((true, false)) },
        VolumeEntry { name: Some("Ext".to_string()), path: "/Volumes/Ext".to_string(), kind: Some((false, true)) },
        VolumeEntry { name: None, path: "/Volumes/x".to_string(), kind: Some((false, true)) },
    ]);
    assert_eq!(volumes, vec!["/Volumes/Ext".to_string()]);
}

#[test]
fn disk_status_reports_only_mounted_space() {
    let d = disk_status("/Volumes/Ext", true, true, &Ok(10), &Ok(20));
    assert_eq!(d.display_name, "Ext");
    assert_eq!((d.free_bytes, d.total_bytes), (10, 20));
    assert!(d.is_writable);
    let d = disk_status("/Volumes/Gone", false, true, &Ok(10), &Ok(20));
    assert_eq!((d.free_bytes, d.total_bytes, d.is_writable), (0, 0, false));
    assert_eq!(disk_status("/", true, false, &Err("x".to_string()), &Ok(1)).display_name, "/");
    let s = system_disk_status(true, true, &Ok(1), &Ok(2), "tr").unwrap();
    assert_eq!(s.display_name, "System Disk");
    assert_eq!(s.mount_point, "/");
    let e = system_disk_status(true, true, &Ok(1), &Err("boom".to_string()), "tr").unwrap_err();
    assert_eq!(e.message, "failed to read system disk total space.");
}

#[test]
fn db_error_names_the_action() {
    let e = db_error("tr_1", "insert relocation", "locked");
    assert_eq!(e.code, "DB_OPERATION_FAILED");
    assert_eq!(e.message, "insert relocation failed");
    assert_eq!(e.trace_id, "tr_1");
    assert!(e.retryable);
}

fn request(mode: &str, unit_id: Option<&str>, confirm: bool) -> MigrateRequest {
    MigrateRequest {
        app_id: "demo".to_string(),
        unit_id: unit_id.map(|s| s.to_string()),
        target_root: "/Volumes/Ext".to_string(),
        mode: mode.to_string(),
        trace_id: None,
        confirm_high_risk: confirm,
        cleanup_backup_after_migrate: false,
    }
}

fn relocation_unit(id: &str, allow_bootstrap: bool, confirm: bool) -> RelocationUnit {
    RelocationUnit {
        unit_id: id.to_string(),
        display_name: id.to_string(),
        source_path: format!("/data/{id}"),
        target_path_template: "{target_root}/AppData/Demo".to_string(),
        default_enabled: true,
        enabled: true,
        risk_level: "stable".to_string(),
        requires_confirmation: confirm,
        blocked_reason: None,
        allow_bootstrap_if_source_missing: allow_bootstrap,
        category: "app-data".to_string(),
    }
}

#[test]
fn select_migration_reports_the_first_failing_check() {
    let profile = || demo_profile(vec![relocation_unit("main", false, true)]);
    let e = select_migration(&request("copy", None, true), "tr", Ok(Some(profile())), None, &vec![]).err().unwrap();
    assert_eq!(e.code, "PRECHECK_INVALID_MODE");
    let e = select_migration(&request("migrate", None, true), "tr", Err("bad".to_string()), None, &vec![]).err().unwrap();
    assert_eq!(e.code, "PROFILE_PARSE_FAILED");
    let e = select_migration(&request("migrate", None, true), "tr", Ok(None), None, &vec![]).err().unwrap();
    assert_eq!(e.code, "PRECHECK_PROFILE_NOT_FOUND");
    let mut blocked = profile();
    blocked.availability = "deprecated".to_string();
    let e = select_migration(&request("migrate", None, true), "tr", Ok(Some(blocked)), None, &vec![]).err().unwrap();
    assert_eq!(e.code, "PRECHECK_APP_BLOCKED");
    let e = select_migration(&request("migrate", Some("nope"), true), "tr", Ok(Some(profile())), None, &vec![])
        .err()
        .unwrap();
    assert_eq!(e.code, "PRECHECK_UNIT_NOT_FOUND");
    assert!(!e.retryable);
    assert_eq!(e.message, "No relocation unit found for app_id and unit_id.");
    let e = select_migration(&request("migrate", None, true), "tr", Ok(Some(demo_profile(vec![]))), None, &vec![])
        .err()
        .unwrap();
    assert_eq!(e.code, "PRECHECK_SOURCE_NOT_FOUND");
    let e = select_migration(&request("migrate", None, false), "tr", Ok(Some(profile())), None, &vec![true])
        .err()
        .unwrap();
    assert_eq!(e.code, "PRECHECK_UNIT_CONFIRMATION_REQUIRED");
    assert_eq!(e.message, "Selected relocation unit requires explicit confirmation.");
    assert!(e.retryable);
    assert_eq!(e.details.fields.len(), 2);
    assert_eq!(e.details.fields[1].key, "unit_id");
    let e = select_migration(&request("bootstrap", None, true), "tr", Ok(Some(profile())), None, &vec![true])
        .err()
        .unwrap();
    assert_eq!(e.code, "PRECHECK_BOOTSTRAP_NOT_ALLOWED");
    assert_eq!(e.trace_id, "tr");
    let sel = select_migration(&request("migrate", None, true), "tr", Ok(Some(profile())), None, &vec![true])
        .ok()
        .unwrap();
    assert_eq!(sel.unit.unit_id, "main");
}
