use disk_relocator::health::{
    evaluate_health, health_record_plan, health_step, relocation_state_from_health, run_health_check,
    HealthEvaluation, HealthObservation, HealthStep, ProbeObservation, SourceObservation, TargetObservation,
};
use disk_relocator::icons::data_url;
use disk_relocator::ids::{new_log_id, new_monitor_trace_id, new_relocation_id, new_snapshot_id, new_trace_id};
use disk_relocator::models::{DetailValue, Details};
use disk_relocator::planning::{icon_mime_for, is_app_extension, is_icns_extension};
use disk_relocator::paths::resolve_link_target;
use disk_relocator::reconcile::{record_drifts, target_mount_online, ReconcileObservation};
use disk_relocator::records::RelocationRecord;
use disk_relocator::requests::disk_status_named;

fn record(source: &str, target_root: &str, target: &str) -> RelocationRecord {
    RelocationRecord {
        relocation_id: "reloc_health_001".to_string(),
        app_id: "telegram-desktop".to_string(),
        tier: "supported".to_string(),
        mode: "migrate".to_string(),
        source_path: source.to_string(),
        target_root: target_root.to_string(),
        target_path: target.to_string(),
        backup_path: None,
        state: "HEALTHY".to_string(),
        health_state: "healthy".to_string(),
        last_error_code: None,
        trace_id: "tr_seed".to_string(),
        source_size_bytes: 0,
        target_size_bytes: 0,
        created_at: "2026-03-05T10:00:00Z".to_string(),
        updated_at: "2026-03-05T10:00:00Z".to_string(),
    }
}

fn observation(source: SourceObservation) -> HealthObservation {
    HealthObservation { source, target_root_is_dir: None, target: None, probe: None }
}

fn verdict(step: HealthStep) -> HealthEvaluation {
    match step {
        HealthStep::Verdict(e) => e,
        other => panic!("expected a verdict, got {other:?}"),
    }
}

fn text(d: &Details, key: &str) -> Option<String> {
    d.fields.iter().find(|f| f.key == key).and_then(|f| match &f.value {
        DetailValue::Text(t) => Some(t.clone()),
        _ => None,
    })
}

fn linked(target: &str) -> SourceObservation {
    SourceObservation::Link { target: target.to_string() }
}

#[test]
fn health_check_marks_missing_symlink_as_broken() {
    let r = record("/tmp/h/source", "/tmp/h", "/tmp/h/target");
    let e = verdict(evaluate_health(&r, &observation(SourceObservation::Missing { error: "not found".to_string() })));
    assert_eq!(e.state, "broken");
    assert_eq!(e.check_code, "HEALTH_SYMLINK_MISSING");
    assert_eq!(e.message, "source path symlink missing.");
    assert_eq!(text(&e.details, "source_path").as_deref(), Some("/tmp/h/source"));
    assert_eq!(text(&e.details, "error").as_deref(), Some("not found"));
    let plan = health_record_plan(&r, e, "2026-03-05T11:00:00Z", true);
    assert_eq!(plan.relocation_state, "BROKEN");
    assert_eq!(plan.error_code.as_deref(), Some("HEALTH_SYMLINK_MISSING"));
}

#[test]
fn health_check_marks_offline_target_root_as_degraded() {
    let r = record("/tmp/h/source", "/Volumes/Offline", "/Volumes/Offline/target");
    let mut obs = observation(linked("/Volumes/Offline/target"));
    assert!(matches!(evaluate_health(&r, &obs), HealthStep::InspectTargetRoot));
    obs.target_root_is_dir = Some(false);
    let e = verdict(evaluate_health(&r, &obs));
    assert_eq!(e.state, "degraded");
    assert_eq!(e.check_code, "HEALTH_DISK_OFFLINE");
    assert_eq!(text(&e.details, "target_root").as_deref(), Some("/Volumes/Offline"));
    let plan = health_record_plan(&r, e, "2026-03-05T11:00:00Z", true);
    assert_eq!(plan.relocation_state, "DEGRADED");
    assert_eq!(plan.error_code.as_deref(), Some("HEALTH_DISK_OFFLINE"));
}

#[test]
fn health_check_marks_symlink_target_mismatch_as_degraded() {
    let r = record("/tmp/h/source", "/tmp/h", "/tmp/h/target");
    let e = verdict(evaluate_health(&r, &observation(linked("/tmp/h/other-target"))));
    assert_eq!(e.state, "degraded");
    assert_eq!(e.check_code, "HEALTH_METADATA_DRIFT");
    assert_eq!(text(&e.details, "linked_target").as_deref(), Some("/tmp/h/other-target"));
    assert_eq!(text(&e.details, "expected_target").as_deref(), Some("/tmp/h/target"));
    let plan = health_record_plan(&r, e, "2026-03-05T11:00:00Z", true);
    assert_eq!(plan.relocation_state, "DEGRADED");
    assert_eq!(plan.error_code.as_deref(), Some("HEALTH_METADATA_DRIFT"));
}

#[test]
fn health_check_compares_link_targets_as_paths() {
    let r = record("/tmp/h/source", "/tmp/h", "/tmp/h/target");
    // A trailing separator names the same path.
    let obs = observation(linked("/tmp/h/target/"));
    assert!(matches!(evaluate_health(&r, &obs), HealthStep::InspectTargetRoot));
}

#[test]
fn health_check_marks_missing_target_as_broken() {
    let r = record("/tmp/h/source", "/tmp/h", "/tmp/h/target");
    let mut obs = observation(linked("/tmp/h/target"));
    obs.target_root_is_dir = Some(true);
    assert!(matches!(evaluate_health(&r, &obs), HealthStep::InspectTarget));
    obs.target = Some(TargetObservation::Missing { error: "gone".to_string() });
    let e = verdict(evaluate_health(&r, &obs));
    assert_eq!(e.state, "broken");
    assert_eq!(e.check_code, "HEALTH_TARGET_MISSING");
    assert_eq!(e.message, "target path is missing.");
    obs.target = Some(TargetObservation::NotDirectory);
    let e = verdict(evaluate_health(&r, &obs));
    assert_eq!(e.message, "target path is not a directory.");
    let plan = health_record_plan(&r, e, "2026-03-05T11:00:00Z", true);
    assert_eq!(plan.relocation_state, "BROKEN");
    assert_eq!(plan.error_code.as_deref(), Some("HEALTH_TARGET_MISSING"));
}

#[test]
fn health_check_marks_non_symlink_source_as_broken() {
    let r = record("/tmp/h/source", "/tmp/h", "/tmp/h/target");
    let e = verdict(evaluate_health(&r, &observation(SourceObservation::NotSymlink)));
    assert_eq!(e.state, "broken");
    assert_eq!(e.check_code, "HEALTH_SYMLINK_MISSING");
    assert_eq!(e.message, "source path is not a symlink.");
    let plan = health_record_plan(&r, e, "2026-03-05T11:00:00Z", true);
    assert_eq!(plan.relocation_state, "BROKEN");
    assert_eq!(plan.error_code.as_deref(), Some("HEALTH_SYMLINK_MISSING"));
}

#[test]
fn health_check_reports_probe_outcomes() {
    let r = record("/tmp/h/source", "/tmp/h", "/tmp/h/target");
    let mut obs = observation(linked("/tmp/h/target"));
    obs.target_root_is_dir = Some(true);
    obs.target = Some(TargetObservation::Directory);
    assert!(matches!(evaluate_health(&r, &obs), HealthStep::RunProbe));
    obs.probe = Some(ProbeObservation::CreateDenied { error: "denied".to_string() });
    assert_eq!(verdict(evaluate_health(&r, &obs)).check_code, "HEALTH_TARGET_READONLY");
    obs.probe = Some(ProbeObservation::CreateFailed { error: "io".to_string() });
    assert_eq!(verdict(evaluate_health(&r, &obs)).check_code, "HEALTH_RW_PROBE_FAILED");
    obs.probe = Some(ProbeObservation::CleanupFailed { probe_file: "/tmp/h/target/p".to_string(), error: "busy".to_string() });
    let e = verdict(evaluate_health(&r, &obs));
    assert_eq!(e.message, "failed to clean health probe file.");
    assert_eq!(text(&e.details, "probe_file").as_deref(), Some("/tmp/h/target/p"));
    obs.probe = Some(ProbeObservation::Written);
    let e = verdict(evaluate_health(&r, &obs));
    assert_eq!(e.state, "healthy");
    assert_eq!(e.check_code, "HEALTH_RW_PROBE_OK");
}

#[test]
fn health_step_follows_the_given_link_comparison() {
    let r = record("/tmp/h/source", "/tmp/h", "/tmp/h/target");
    let obs = observation(linked("/somewhere/else"));
    assert!(matches!(health_step(&r, &obs, true), HealthStep::InspectTargetRoot));
    assert_eq!(verdict(health_step(&r, &obs, false)).check_code, "HEALTH_METADATA_DRIFT");
}

fn healthy_observation(target: &str) -> HealthObservation {
    HealthObservation {
        source: linked(target),
        target_root_is_dir: Some(true),
        target: Some(TargetObservation::Directory),
        probe: Some(ProbeObservation::Written),
    }
}

fn healthy_record(relocation_id: &str) -> RelocationRecord {
    let mut r = record(
        "/tmp/h/source",
        "/tmp/h/target-root",
        "/tmp/h/target-root/AppData/Telegram Desktop",
    );
    r.relocation_id = relocation_id.to_string();
    r.backup_path = Some("/tmp/h/source.bak".to_string());
    r
}

#[test]
fn health_check_can_skip_operation_log_writes() {
    let r = healthy_record("reloc_health_006");
    let e = verdict(evaluate_health(&r, &healthy_observation("/tmp/h/target-root/AppData/Telegram Desktop")));
    let plans = run_health_check(&vec![r], vec![e], &vec!["2026-03-05T10:00:00Z".to_string()], false);
    assert_eq!(plans.len(), 1);
    assert_eq!(plans[0].status.state, "healthy");
    assert_eq!(plans[0].status.relocation_id, "reloc_health_006");
    // No operation log is written for the relocation.
    assert!(plans[0].log_status.is_none());
    assert_eq!(plans[0].relocation_state, "HEALTHY");
    assert!(plans[0].error_code.is_none());
}

#[test]
fn health_check_writes_operation_log_when_enabled() {
    let r = healthy_record("reloc_health_007");
    let e = verdict(evaluate_health(&r, &healthy_observation("/tmp/h/target-root/AppData/Telegram Desktop")));
    let plans = run_health_check(&vec![r], vec![e], &vec!["2026-03-05T10:00:00Z".to_string()], true);
    assert_eq!(plans.len(), 1);
    assert_eq!(plans[0].status.checks.len(), 1);
    assert_eq!(plans[0].status.checks[0].code, "HEALTH_RW_PROBE_OK");
    assert!(plans[0].status.checks[0].ok);
    // Exactly one log entry, marked succeeded.
    assert_eq!(plans[0].log_stage, "health");
    assert_eq!(plans[0].log_step, "evaluate_relocation");
    assert_eq!(plans[0].log_status.as_deref(), Some("succeeded"));
    assert_eq!(plans[0].relocation_id, "reloc_health_007");
}

#[test]
fn health_check_logs_failed_for_a_broken_relocation() {
    let r = record("/tmp/h/source", "/tmp/h", "/tmp/h/target");
    let e = verdict(evaluate_health(&r, &observation(SourceObservation::NotSymlink)));
    let plans = run_health_check(&vec![r], vec![e], &vec!["2026-03-05T11:00:00Z".to_string()], true);
    assert_eq!(plans.len(), 1);
    assert_eq!(plans[0].log_status.as_deref(), Some("failed"));
    assert_eq!(plans[0].status.state, "broken");
    assert_eq!(plans[0].relocation_state, "BROKEN");
    assert_eq!(plans[0].error_code.as_deref(), Some("HEALTH_SYMLINK_MISSING"));
    assert!(!plans[0].status.checks[0].ok);
    assert_eq!(relocation_state_from_health("unknown"), "DEGRADED");
}

#[test]
fn record_drifts_follows_the_given_link_comparison() {
    let r = record("/tmp/h/source", "/tmp/h", "/tmp/h/target");
    let obs = ReconcileObservation {
        source: linked("/elsewhere"),
        target_exists: true,
        temp_exists: false,
        backup_exists: false,
        mount_root_exists: true,
    };
    assert!(record_drifts(&r, &obs, true).is_empty());
    let drifts = record_drifts(&r, &obs, false);
    assert_eq!(drifts.len(), 1);
    assert_eq!(drifts[0].issue.code, "RECON_SOURCE_TARGET_MISMATCH");
}

#[test]
fn icon_helpers_take_the_extension() {
    assert_eq!(icon_mime_for(Some("JPG".to_string())), "image/jpeg");
    assert_eq!(icon_mime_for(None), "image/png");
    assert!(is_icns_extension(Some("ICNS".to_string())));
    assert!(!is_icns_extension(None));
    assert!(is_app_extension(Some("app".to_string())));
    assert!(!is_app_extension(Some("App".to_string())));
    assert_eq!(data_url("image/png", "UE5H"), "data:image/png;base64,UE5H");
}

#[test]
fn disk_status_named_uses_the_given_name() {
    let d = disk_status_named("/Volumes/Ext", Some("Ext".to_string()), true, false, &Ok(5), &Err("x".to_string()));
    assert_eq!(d.display_name, "Ext");
    assert!(!d.is_writable);
    assert_eq!(d.free_bytes, 5);
    assert_eq!(d.total_bytes, 0);
    let d = disk_status_named("/", None, false, true, &Ok(5), &Ok(6));
    assert_eq!(d.display_name, "/");
    assert_eq!(d.free_bytes, 0);
}

fn is_id(id: &str, prefix: &str) -> bool {
    match id.strip_prefix(prefix) {
        Some(rest) => rest.len() == 32 && rest.chars().all(|c| c.is_ascii_digit() || ('a'..='f').contains(&c)),
        None => false,
    }
}

#[test]
fn identifiers_carry_their_prefix_and_random_hex() {
    assert!(is_id(&new_trace_id(), "tr_"));
    assert!(is_id(&new_relocation_id(), "reloc_"));
    assert!(is_id(&new_log_id(), "log_"));
    assert!(is_id(&new_snapshot_id(), "snap_"));
    assert!(is_id(&new_monitor_trace_id("poll"), "tr_health_poll_"));
    assert_ne!(new_trace_id(), new_trace_id());
}

#[test]
fn link_targets_resolve_against_the_link_directory() {
    assert_eq!(resolve_link_target("/Users/u/Library/Data", "/Volumes/Ext/Data"), "/Volumes/Ext/Data");
    assert_eq!(resolve_link_target("/Users/u/Library/Data", "../Other/Data"), "/Users/u/Library/../Other/Data");
    assert_eq!(resolve_link_target("/Users/u/Library/Data", "Data.real"), "/Users/u/Library/Data.real");
    assert_eq!(resolve_link_target("Data", "x"), "x");
}

#[test]
fn target_mount_online_only_asks_for_volumes() {
    let on_volume = record("/tmp/h/source", "/Volumes/Ext/AppData", "/Volumes/Ext/AppData/t");
    assert!(target_mount_online(&on_volume, true));
    assert!(!target_mount_online(&on_volume, false));
    let local = record("/tmp/h/source", "/tmp/h", "/tmp/h/target");
    assert!(target_mount_online(&local, false));
}
