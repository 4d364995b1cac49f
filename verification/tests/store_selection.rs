use disk_relocator::fsops::{bootstrap_after_target, verify_source_and_temp, BootstrapNext, EntryKind};
use disk_relocator::listings::health_events_limit;
use disk_relocator::models::HealthEventsRequest;
use disk_relocator::prechecks::{source_check_after_size, IoFailure};
use disk_relocator::records::{
    select_health_monitoring, select_operation_logs, select_unfinished, Database, OperationLogRecord, RelocationRecord,
};
use disk_relocator::requests::system_disk_status;

fn relocation(
    relocation_id: &str,
    app_id: &str,
    state: &str,
    health_state: &str,
    created_at: &str,
    updated_at: &str,
) -> RelocationRecord {
    RelocationRecord {
        relocation_id: relocation_id.to_string(),
        app_id: app_id.to_string(),
        tier: "supported".to_string(),
        mode: "migrate".to_string(),
        source_path: format!("/Users/test/{}", relocation_id),
        target_root: "/Volumes/TestSSD".to_string(),
        target_path: format!("/Volumes/TestSSD/AppData/{}", relocation_id),
        backup_path: None,
        state: state.to_string(),
        health_state: health_state.to_string(),
        last_error_code: None,
        trace_id: "tr_seed".to_string(),
        source_size_bytes: 0,
        target_size_bytes: 0,
        created_at: created_at.to_string(),
        updated_at: updated_at.to_string(),
    }
}

fn log(log_id: &str, relocation_id: &str, trace_id: &str, status: &str, created_at: &str) -> OperationLogRecord {
    OperationLogRecord {
        log_id: log_id.to_string(),
        relocation_id: relocation_id.to_string(),
        trace_id: trace_id.to_string(),
        stage: "migration".to_string(),
        step: "copy_to_temp".to_string(),
        status: status.to_string(),
        error_code: None,
        duration_ms: Some(1),
        message: Some("copy started".to_string()),
        details_json: "{}".to_string(),
        created_at: created_at.to_string(),
    }
}

#[test]
fn unfinished_relocations_are_filtered_and_ordered_by_updated_time() {
    // Rows as stored, oldest update first.
    let rows = vec![
        relocation(
            "reloc_unfinished_old",
            "wechat-non-mas",
            "PRECHECKING",
            "unknown",
            "2026-03-05T10:00:00Z",
            "2026-03-05T10:01:00Z",
        ),
        relocation("reloc_finished", "telegram-desktop", "HEALTHY", "healthy", "2026-03-05T10:02:00Z", "2026-03-05T10:03:00Z"),
        relocation(
            "reloc_unfinished_new",
            "xcode-derived-data",
            "SWITCHING",
            "unknown",
            "2026-03-05T10:04:00Z",
            "2026-03-05T10:05:00Z",
        ),
    ];
    let selected = select_unfinished(&rows);
    assert_eq!(selected.len(), 2);
    assert_eq!(selected[0].relocation_id, "reloc_unfinished_old");
    assert_eq!(selected[1].relocation_id, "reloc_unfinished_new");
}

#[test]
fn health_monitoring_list_filters_active_states_and_orders_desc() {
    // Rows as stored, newest update first.
    let rows = vec![
        relocation(
            "reloc_active_wechat_latest",
            "wechat-non-mas",
            "BROKEN",
            "broken",
            "2026-03-05T10:06:00Z",
            "2026-03-05T10:07:00Z",
        ),
        relocation(
            "reloc_active_new",
            "xcode-derived-data",
            "DEGRADED",
            "degraded",
            "2026-03-05T10:04:00Z",
            "2026-03-05T10:05:00Z",
        ),
        relocation("reloc_inactive", "telegram-desktop", "ROLLED_BACK", "healthy", "2026-03-05T10:02:00Z", "2026-03-05T10:03:00Z"),
        relocation("reloc_active_old", "wechat-non-mas", "HEALTHY", "healthy", "2026-03-05T10:00:00Z", "2026-03-05T10:01:00Z"),
    ];
    let selected = select_health_monitoring(&rows);
    assert_eq!(selected.len(), 2);
    assert_eq!(selected[0].relocation_id, "reloc_active_wechat_latest");
    assert_eq!(selected[1].relocation_id, "reloc_active_new");
}

#[test]
fn operation_logs_filter_by_relocation_and_trace_keeping_row_order() {
    let rows = vec![
        log("log_log_001", "reloc_log_001", "tr_log_1", "started", "2026-03-05T10:00:01Z"),
        log("log_log_002", "reloc_log_001", "tr_log_1", "failed", "2026-03-05T10:00:03Z"),
        log("log_log_003", "reloc_log_001", "tr_log_2", "succeeded", "2026-03-05T10:01:00Z"),
        log("log_other", "reloc_other", "tr_log_1", "started", "2026-03-05T10:02:00Z"),
    ];
    let all = select_operation_logs(&rows, Some("reloc_log_001"), None);
    assert_eq!(all.len(), 3);
    assert_eq!(all[0].log_id, "log_log_001");
    assert_eq!(all[1].log_id, "log_log_002");
    assert_eq!(all[2].log_id, "log_log_003");

    let filtered = select_operation_logs(&rows, Some("reloc_log_001"), Some("tr_log_1"));
    assert_eq!(filtered.len(), 2);
    assert_eq!(filtered[0].log_id, "log_log_001");
    assert_eq!(filtered[1].log_id, "log_log_002");
}

#[test]
fn operation_logs_filter_by_trace_only_keeping_row_order() {
    let rows = vec![
        log("log_trace_1", "reloc_trace_only", "tr_keep", "started", "2026-03-05T10:00:01Z"),
        log("log_trace_2", "reloc_trace_only", "tr_drop", "failed", "2026-03-05T10:00:02Z"),
        log("log_trace_3", "reloc_trace_only", "tr_keep", "succeeded", "2026-03-05T10:00:03Z"),
    ];
    let logs = select_operation_logs(&rows, None, Some("tr_keep"));
    assert_eq!(logs.len(), 2);
    assert_eq!(logs[0].log_id, "log_trace_1");
    assert_eq!(logs[1].log_id, "log_trace_3");
}

#[test]
fn health_events_limit_is_clamped() {
    assert_eq!(health_events_limit(&Some(HealthEventsRequest { limit: Some(2) })), 2);
    assert_eq!(health_events_limit(&Some(HealthEventsRequest { limit: None })), 200);
    assert_eq!(health_events_limit(&None), 200);
    assert_eq!(health_events_limit(&Some(HealthEventsRequest { limit: Some(0) })), 1);
    assert_eq!(health_events_limit(&Some(HealthEventsRequest { limit: Some(5000) })), 1000);
}

#[test]
fn get_system_disk_status_returns_valid_root_metrics() {
    let status = system_disk_status(true, true, &Ok(400), &Ok(1000), "tr_test").expect("read system disk status");
    assert_eq!(status.mount_point, "/");
    assert!(status.is_mounted);
    assert!(status.total_bytes > 0);
    assert!(status.total_bytes >= status.free_bytes);
    assert_eq!(status.display_name, "System Disk");
}

#[test]
fn bootstrap_fails_when_target_exists_as_file() {
    match bootstrap_after_target("/tmp/x/target.file", &EntryKind::File { len: 15 }) {
        BootstrapNext::Fail(e) => {
            assert_eq!(e.code, "MIGRATE_SWITCH_SYMLINK_FAILED");
            assert!(e.retryable);
        },
        _ => panic!("expect failure"),
    }
}

#[test]
fn store_file_lives_in_the_data_directory() {
    let db = Database::in_dir("/Users/test/Library/Application Support/disk-relocator");
    assert_eq!(db.path(), "/Users/test/Library/Application Support/disk-relocator/disk-relocator.sqlite3");
}

#[test]
fn missing_source_and_size_mismatch_are_not_retryable() {
    let e = source_check_after_size("/s", &Err(IoFailure { permission_denied: false, error: "gone".to_string() }))
        .unwrap_err();
    assert_eq!(e.code, "PRECHECK_SOURCE_NOT_FOUND");
    assert!(!e.retryable);
    let e = verify_source_and_temp("/s", "/s.tmp", false, &Ok(5), &Ok(5)).unwrap_err();
    assert_eq!(e.code, "MIGRATE_VERIFY_SIZE_MISMATCH");
    assert!(!e.retryable);
    let e = verify_source_and_temp("/s", "/s.tmp", true, &Ok(5), &Ok(4)).unwrap_err();
    assert!(!e.retryable);
}
