//! The user interface's requests: the errors they report, the selection of
//! what a migration moves, and the listings and disk reports they return.

use crate::fsops::SwitchError;
use crate::models::{details1, details2, details_view, text_field, CommandError, DetailField, DetailValue, Details, DiskStatus};
use crate::paths::expand_tilde;
use crate::planning::{home_view, pick_relocation_unit, planned_units, pick_outcome, MigrationUnitPlan};
use crate::prechecks::{check_migrate_mode, check_profile_available, check_selected_unit, insert_sorted_unique, strictly_sorted, unit_not_found, RunMode};
use crate::profiles::{opt_view, strings_view, AppProfile, UnitView};
use crate::text::{join2, matches_at, owned, starts_with, trim, trim_str};
use crate::planning::{mount_root_from_target_root, mount_root_spec};
use crate::models::MigrateRequest;
use crate::models::{opt_val, Val};
use vstd::prelude::*;

verus! {

/// Code, message, trace, retryability and text details of a reported error.
pub open spec fn command_is(
    e: CommandError,
    code: Seq<char>,
    message: Seq<char>,
    trace_id: Seq<char>,
    retryable: bool,
    details: Seq<(Seq<char>, Val)>,
) -> bool {
    &&& e.code@ == code
    &&& e.message@ == message
    &&& e.trace_id@ == trace_id
    &&& e.retryable == retryable
    &&& details_view(e.details) == details
}

/// A step's error as reported under a trace.
pub fn into_command(e: SwitchError, trace_id: &str) -> (c: CommandError)
    ensures
        c.code@ == e.code@,
        c.message@ == e.message@,
        c.trace_id@ == trace_id@,
        c.retryable == e.retryable,
        c.details == e.details,
{
    CommandError { code: e.code, message: e.message, trace_id: owned(trace_id), retryable: e.retryable, details: e.details }
}

/// A failed store operation: `"<action> failed"`, retryable.
pub fn db_error(trace_id: &str, action: &str, error: &str) -> (c: CommandError)
    ensures
        command_is(
            c,
            "DB_OPERATION_FAILED"@,
            action@ + " failed"@,
            trace_id@,
            true,
            seq![("action"@, Val::Text(action@)), ("error"@, Val::Text(error@))],
        ),
{
    CommandError::new(
        "DB_OPERATION_FAILED",
        join2(action, " failed").as_str(),
        trace_id,
        true,
        details2("action", action, "error", error),
    )
}

/// The profile catalog could not be loaded.
pub fn profile_error(trace_id: &str, error: &str) -> (c: CommandError)
    ensures
        command_is(
            c,
            "PROFILE_PARSE_FAILED"@,
            "Failed to load app profiles."@,
            trace_id@,
            false,
            seq![("error"@, Val::Text(error@))],
        ),
{
    CommandError::new("PROFILE_PARSE_FAILED", "Failed to load app profiles.", trace_id, false, details1("error", error))
}

/// A relocation that was just written could not be read back.
pub fn record_not_found(trace_id: &str, relocation_id: &str, after_rollback: bool) -> (c: CommandError)
    ensures
        command_is(
            c,
            "DB_OPERATION_FAILED"@,
            if after_rollback {
                "updated relocation record not found."@
            } else {
                "saved relocation record not found."@
            },
            trace_id@,
            true,
            seq![("relocation_id"@, Val::Text(relocation_id@))],
        ),
{
    let message = if after_rollback {
        "updated relocation record not found."
    } else {
        "saved relocation record not found."
    };
    CommandError::new("DB_OPERATION_FAILED", message, trace_id, true, details1("relocation_id", relocation_id))
}

/// A rollback of an unknown relocation.
pub fn relocation_not_found(trace_id: &str, relocation_id: &str) -> (c: CommandError)
    ensures
        command_is(
            c,
            "ROLLBACK_RELOCATION_NOT_FOUND"@,
            "relocation_id was not found."@,
            trace_id@,
            false,
            seq![("relocation_id"@, Val::Text(relocation_id@))],
        ),
{
    CommandError::new(
        "ROLLBACK_RELOCATION_NOT_FOUND",
        "relocation_id was not found.",
        trace_id,
        false,
        details1("relocation_id", relocation_id),
    )
}

/// A reconciliation or health run that could not complete.
pub fn run_failed(trace_id: &str, reconcile: bool, error: &str) -> (c: CommandError)
    ensures
        command_is(
            c,
            if reconcile {
                "RECONCILE_RUN_FAILED"@
            } else {
                "HEALTH_CHECK_FAILED"@
            },
            if reconcile {
                "failed to run reconcile task."@
            } else {
                "failed to run health checks."@
            },
            trace_id@,
            true,
            seq![("error"@, Val::Text(error@))],
        ),
{
    if reconcile {
        CommandError::new("RECONCILE_RUN_FAILED", "failed to run reconcile task.", trace_id, true, details1("error", error))
    } else {
        CommandError::new("HEALTH_CHECK_FAILED", "failed to run health checks.", trace_id, true, details1("error", error))
    }
}

/// What a migration request moves: its mode, its profile and its unit.
#[derive(Debug)]
pub struct MigrationSelection {
    pub mode: RunMode,
    pub profile: AppProfile,
    pub unit: MigrationUnitPlan,
}

pub open spec fn req_mode(mode: Seq<char>) -> Option<RunMode> {
    if mode == "bootstrap"@ {
        Some(RunMode::Bootstrap)
    } else if mode == "migrate"@ {
        Some(RunMode::Migrate)
    } else {
        None
    }
}

/// What the request's checks decide once the unit `picked` is selected (or
/// none is): a missing unit, a blocked unit, a unit that needs confirmation,
/// a unit that refuses bootstrap mode, or the selection.
pub open spec fn selection_outcome(
    req: &MigrateRequest,
    trace_id: Seq<char>,
    p: AppProfile,
    picked: Option<UnitView>,
    r: Result<MigrationSelection, CommandError>,
) -> bool {
    match picked {
        None => r matches Err(c) && match req.unit_id {
            Some(id) => command_is(
                c,
                "PRECHECK_UNIT_NOT_FOUND"@,
                "No relocation unit found for app_id and unit_id."@,
                trace_id,
                false,
                seq![("app_id"@, Val::Text(p.app_id@)), ("unit_id"@, Val::Text(id@))],
            ),
            None => command_is(
                c,
                "PRECHECK_SOURCE_NOT_FOUND"@,
                "No source path defined for profile."@,
                trace_id,
                false,
                seq![("app_id"@, Val::Text(p.app_id@))],
            ),
        },
        Some(u) => if !u.enabled || u.blocked_reason is Some {
            r matches Err(c) && command_is(
                c,
                "PRECHECK_UNIT_BLOCKED"@,
                "Selected relocation unit is disabled or blocked."@,
                trace_id,
                false,
                seq![
                    ("app_id"@, Val::Text(p.app_id@)),
                    ("unit_id"@, Val::Text(u.unit_id)),
                    ("blocked_reason"@, match u.blocked_reason {
                        Some(b) => Val::Text(b),
                        None => Val::Null,
                    }),
                ],
            )
        } else if u.requires_confirmation && !req.confirm_high_risk {
            r matches Err(c) && command_is(
                c,
                "PRECHECK_UNIT_CONFIRMATION_REQUIRED"@,
                "Selected relocation unit requires explicit confirmation."@,
                trace_id,
                true,
                seq![("app_id"@, Val::Text(p.app_id@)), ("unit_id"@, Val::Text(u.unit_id))],
            )
        } else if req.mode@ == "bootstrap"@ && !u.allow_bootstrap_if_source_missing {
            r matches Err(c) && command_is(
                c,
                "PRECHECK_BOOTSTRAP_NOT_ALLOWED"@,
                "This relocation unit does not allow bootstrap mode."@,
                trace_id,
                false,
                seq![("app_id"@, Val::Text(p.app_id@)), ("unit_id"@, Val::Text(u.unit_id))],
            )
        } else {
            r matches Ok(sel) && sel.unit@ == u && sel.profile == p && req_mode(req.mode@) == Some(sel.mode)
        },
    }
}

/// A request runs in bootstrap mode only for a unit that allows it, and
/// never for a disabled, blocked or unconfirmed unit.
pub proof fn selected_unit_allows_request(
    req: &MigrateRequest,
    trace_id: Seq<char>,
    p: AppProfile,
    picked: Option<UnitView>,
    r: Result<MigrationSelection, CommandError>,
)
    requires
        selection_outcome(req, trace_id, p, picked, r),
        r is Ok,
    ensures
        r matches Ok(sel) && sel.unit.enabled && sel.unit.blocked_reason is None && (sel.unit.requires_confirmation
            ==> req.confirm_high_risk) && ((sel.mode is Bootstrap) ==> sel.unit.allow_bootstrap_if_source_missing),
{
    reveal_strlit("bootstrap");
    reveal_strlit("migrate");
    assert("bootstrap"@[0] != "migrate"@[0]);
    if let Some(u) = picked {
        if let Ok(sel) = r {
            assert(opt_view(sel.unit.blocked_reason) == u.blocked_reason);
        }
    }
}

/// The request's checks, in order: its mode; the profile lookup (whose
/// result is `lookup`); the profile's availability; the selected unit
/// (`source_exists` tells which planned units' sources exist); the unit's
/// own rules.  The first failing check is reported under `trace_id`.
pub fn select_migration(
    req: &MigrateRequest,
    trace_id: &str,
    lookup: Result<Option<AppProfile>, String>,
    home: Option<&str>,
    source_exists: &Vec<bool>,
) -> (r: Result<MigrationSelection, CommandError>)
    requires
        lookup matches Ok(Some(p)) ==> p.relocation_units@.len() < usize::MAX,
    ensures
        r matches Err(c) ==> c.trace_id@ == trace_id@,
        req_mode(req.mode@) is None ==> (r matches Err(c) && command_is(
            c,
            "PRECHECK_INVALID_MODE"@,
            "mode must be either 'bootstrap' or 'migrate'."@,
            trace_id@,
            false,
            seq![("mode"@, Val::Text(req.mode@))],
        )),
        req_mode(req.mode@) is Some ==> match lookup {
            Err(msg) => r matches Err(c) && command_is(
                c,
                "PROFILE_PARSE_FAILED"@,
                "Failed to load app profiles."@,
                trace_id@,
                false,
                seq![("error"@, Val::Text(msg@))],
            ),
            Ok(None) => r matches Err(c) && command_is(
                c,
                "PRECHECK_PROFILE_NOT_FOUND"@,
                "No profile found for app_id."@,
                trace_id@,
                false,
                seq![("app_id"@, Val::Text(req.app_id@))],
            ),
            Ok(Some(p)) => if p.availability@ == "blocked"@ || p.availability@ == "deprecated"@ {
                r matches Err(c) && command_is(
                    c,
                    "PRECHECK_APP_BLOCKED"@,
                    "Blocked or deprecated profile cannot be migrated."@,
                    trace_id@,
                    false,
                    seq![("app_id"@, Val::Text(p.app_id@)), ("availability"@, Val::Text(p.availability@))],
                )
            } else {
                exists|picked: Option<UnitView>|
                    #[trigger] pick_outcome(
                        planned_units(p@.relocation_units, home_view(home)),
                        opt_view(req.unit_id),
                        source_exists@,
                        picked,
                    ) && selection_outcome(req, trace_id@, p, picked, r)
            },
        },
{
    let mode = match check_migrate_mode(req.mode.as_str()) {
        Ok(m) => m,
        Err(e) => {
            proof {
                reveal_strlit("bootstrap");
                reveal_strlit("migrate");
            }
            return Err(into_command(e, trace_id));
        },
    };
    proof {
        reveal_strlit("bootstrap");
        reveal_strlit("migrate");
        assert("bootstrap"@[0] != "migrate"@[0]);
    }
    let found = match lookup {
        Err(msg) => {
            return Err(profile_error(trace_id, msg.as_str()));
        },
        Ok(found) => found,
    };
    let profile = match crate::prechecks::require_profile(req.app_id.as_str(), found) {
        Ok(p) => p,
        Err(e) => {
            return Err(into_command(e, trace_id));
        },
    };
    if let Err(e) = check_profile_available(&profile) {
        return Err(into_command(e, trace_id));
    }
    let hint: Option<&str> = match &req.unit_id {
        Some(u) => Some(u.as_str()),
        None => None,
    };
    let unit = match pick_relocation_unit(&profile, hint, home, source_exists) {
        Some(u) => u,
        None => {
            let c = into_command(unit_not_found(profile.app_id.as_str(), hint), trace_id);
            assert(selection_outcome(req, trace_id@, profile, None, Err::<MigrationSelection, CommandError>(c)));
            return Err(c);
        },
    };
    if let Err(e) = check_selected_unit(profile.app_id.as_str(), &unit, mode, req.confirm_high_risk) {
        let c = into_command(e, trace_id);
        proof {
            let u = unit@;
            assert(opt_val(unit.blocked_reason) == match u.blocked_reason {
                Some(b) => Val::Text(b),
                None => Val::Null,
            });
            assert(u.unit_id == unit.unit_id@);
            if crate::prechecks::unit_blocked(unit) {
                assert(details_view(c.details) =~= seq![
                    ("app_id"@, Val::Text(profile.app_id@)),
                    ("unit_id"@, Val::Text(u.unit_id)),
                    ("blocked_reason"@, match u.blocked_reason {
                        Some(b) => Val::Text(b),
                        None => Val::Null,
                    }),
                ]);
            }
            assert(selection_outcome(req, trace_id@, profile, Some(u), Err::<MigrationSelection, CommandError>(c)));
        }
        return Err(c);
    }
    Ok(MigrationSelection { mode, profile, unit })
}

// ---------------------------------------------------------------------------
// Opening a path in the file manager
// ---------------------------------------------------------------------------

/// The path a request asks to open: trimmed, with a leading `~/` expanded
/// against `home`; it must not be blank and must be absolute (start at the
/// root `/`, as `std::path::Path::is_absolute` decides on Unix).
pub fn open_path_target(path: &str, home: Option<&str>, trace_id: &str) -> (r: Result<String, CommandError>)
    ensures
        trim(path@).len() == 0 ==> (r matches Err(c) && command_is(
            c,
            "OPEN_PATH_INVALID"@,
            "path cannot be empty."@,
            trace_id@,
            false,
            seq![("path"@, Val::Text(path@))],
        )),
        trim(path@).len() > 0 ==> {
            let resolved = crate::paths::expand_tilde_spec(trim(path@), home_view(home));
            if matches_at(resolved, 0, "/"@) {
                r matches Ok(s) && s@ == resolved
            } else {
                r matches Err(c) && command_is(
                    c,
                    "OPEN_PATH_INVALID"@,
                    "path must be absolute."@,
                    trace_id@,
                    false,
                    seq![("path"@, Val::Text(resolved))],
                )
            }
        },
{
    let input = trim_str(path);
    if input.unicode_len() == 0 {
        return Err(CommandError::new("OPEN_PATH_INVALID", "path cannot be empty.", trace_id, false, details1("path", path)));
    }
    let resolved = expand_tilde(input, home);
    if !starts_with(resolved.as_str(), "/") {
        return Err(
            CommandError::new(
                "OPEN_PATH_INVALID",
                "path must be absolute.",
                trace_id,
                false,
                details1("path", resolved.as_str()),
            ),
        );
    }
    Ok(resolved)
}

/// The resolved path does not exist.
pub fn open_path_missing(resolved: &str, trace_id: &str) -> (c: CommandError)
    ensures
        command_is(c, "OPEN_PATH_NOT_FOUND"@, "path does not exist."@, trace_id@, false, seq![("path"@, Val::Text(resolved@))]),
{
    CommandError::new("OPEN_PATH_NOT_FOUND", "path does not exist.", trace_id, false, details1("path", resolved))
}

/// The file manager could not be started (`error`), or exited without
/// success (`status`, its exit code if it had one).
pub fn open_path_failed(resolved: &str, trace_id: &str, error: Option<&str>, status: Option<i32>) -> (c: CommandError)
    ensures
        c.code@ == "OPEN_PATH_FAILED"@,
        c.message@ == "failed to open path in Finder."@,
        c.trace_id@ == trace_id@,
        c.retryable,
        c.details.fields@.len() == 2,
        details_view(c.details)[0] == ("path"@, Val::Text(resolved@)),
        match error {
            Some(e) => details_view(c.details)[1] == ("error"@, Val::Text(e@)),
            None => c.details.fields@[1].key@ == "status"@ && c.details.fields@[1].value == match status {
                Some(n) => DetailValue::Signed(n as i64),
                None => DetailValue::Null,
            },
        },
{
    let d = match error {
        Some(e) => details2("path", resolved, "error", e),
        None => {
            let v = match status {
                Some(n) => DetailValue::Signed(n as i64),
                None => DetailValue::Null,
            };
            Details { fields: vec![text_field("path", resolved), DetailField { key: owned("status"), value: v }] }
        },
    };
    assert(d.fields@.len() == details_view(d).len());
    CommandError::new("OPEN_PATH_FAILED", "failed to open path in Finder.", trace_id, true, d)
}

/// Opening paths is only possible on macOS.
pub fn open_path_unsupported(trace_id: &str) -> (c: CommandError)
    ensures
        command_is(
            c,
            "OPEN_PATH_UNSUPPORTED"@,
            "open_in_finder is only supported on macOS."@,
            trace_id@,
            false,
            Seq::empty(),
        ),
{
    let d = Details::empty();
    assert(details_view(d) =~= Seq::empty());
    CommandError::new("OPEN_PATH_UNSUPPORTED", "open_in_finder is only supported on macOS.", trace_id, false, d)
}

// ---------------------------------------------------------------------------
// Disks
// ---------------------------------------------------------------------------

/// The disks to report: the mount roots of the monitored relocations' target
/// roots and the mounted volumes, each once, in order.
pub open spec fn reported_roots(target_roots: Seq<Seq<char>>, mounted: Seq<Seq<char>>) -> Set<Seq<char>> {
    Set::new(
        |r: Seq<char>|
            (exists|i: int| 0 <= i < target_roots.len() && mount_root_spec(target_roots[i]) == Some(r))
                || mounted.contains(r),
    )
}

pub fn disk_roots(target_roots: &Vec<String>, mounted: &Vec<String>) -> (r: Vec<String>)
    ensures
        strictly_sorted(strings_view(r@)),
        strings_view(r@).to_set() == reported_roots(strings_view(target_roots@), strings_view(mounted@)),
{
    let ghost trs = strings_view(target_roots@);
    let ghost ms = strings_view(mounted@);
    let mut roots: Vec<String> = Vec::new();
    let mut i: usize = 0;
    while i < target_roots.len()
        invariant
            i <= target_roots@.len(),
            trs == strings_view(target_roots@),
            strictly_sorted(strings_view(roots@)),
            strings_view(roots@).to_set() == Set::new(
                |r: Seq<char>| exists|k: int| 0 <= k < i && mount_root_spec(trs[k]) == Some(r),
            ),
        decreases target_roots@.len() - i,
    {
        let ghost before = strings_view(roots@).to_set();
        assert(trs[i as int] == target_roots@[i as int]@);
        match mount_root_from_target_root(target_roots[i].as_str()) {
            Some(root) => {
                let ghost rv = root@;
                insert_sorted_unique(&mut roots, root);
                assert(strings_view(roots@).to_set() =~= Set::new(
                    |r: Seq<char>| exists|k: int| 0 <= k < i + 1 && mount_root_spec(trs[k]) == Some(r),
                )) by {
                    assert forall|r: Seq<char>| #[trigger] before.insert(rv).contains(r) == (exists|k: int|
                        0 <= k < i + 1 && mount_root_spec(trs[k]) == Some(r)) by {
                        if r == rv {
                            assert(mount_root_spec(trs[i as int]) == Some(r));
                        }
                        if exists|k: int| 0 <= k < i + 1 && mount_root_spec(trs[k]) == Some(r) {
                            let k = choose|k: int| 0 <= k < i + 1 && mount_root_spec(trs[k]) == Some(r);
                            if k < i {
                                assert(before.contains(r));
                            }
                        }
                    }
                }
            },
            None => {
                assert(strings_view(roots@).to_set() =~= Set::new(
                    |r: Seq<char>| exists|k: int| 0 <= k < i + 1 && mount_root_spec(trs[k]) == Some(r),
                )) by {
                    assert forall|r: Seq<char>| #[trigger] before.contains(r) == (exists|k: int|
                        0 <= k < i + 1 && mount_root_spec(trs[k]) == Some(r)) by {
                        if exists|k: int| 0 <= k < i + 1 && mount_root_spec(trs[k]) == Some(r) {
                            let k = choose|k: int| 0 <= k < i + 1 && mount_root_spec(trs[k]) == Some(r);
                            if k == i {
                                assert(mount_root_spec(trs[i as int]) is None);
                            }
                        }
                    }
                }
            },
        }
        i = i + 1;
    }
    let mut j: usize = 0;
    while j < mounted.len()
        invariant
            j <= mounted@.len(),
            trs == strings_view(target_roots@),
            ms == strings_view(mounted@),
            strictly_sorted(strings_view(roots@)),
            strings_view(roots@).to_set() == Set::new(
                |r: Seq<char>|
                    (exists|k: int| 0 <= k < trs.len() && mount_root_spec(trs[k]) == Some(r)) || ms.take(
                        j as int,
                    ).contains(r),
            ),
        decreases mounted@.len() - j,
    {
        let ghost before = strings_view(roots@).to_set();
        let ghost mv = mounted@[j as int]@;
        let ghost t0 = ms.take(j as int);
        let ghost t1 = ms.take(j + 1);
        insert_sorted_unique(&mut roots, mounted[j].clone());
        assert(t1 =~= t0.push(mv));
        assert(strings_view(roots@).to_set() =~= Set::new(
            |r: Seq<char>| (exists|k: int| 0 <= k < trs.len() && mount_root_spec(trs[k]) == Some(r)) || t1.contains(r),
        )) by {
            assert forall|r: Seq<char>| #[trigger] before.insert(mv).contains(r) == ((exists|k: int|
                0 <= k < trs.len() && mount_root_spec(trs[k]) == Some(r)) || t1.contains(r)) by {
                if t1.contains(r) {
                    let k = choose|k: int| 0 <= k < t1.len() && t1[k] == r;
                    if k < j {
                        assert(t0[k] == r);
                    }
                }
                if t0.contains(r) {
                    let k = choose|k: int| 0 <= k < t0.len() && t0[k] == r;
                    assert(t1[k] == r);
                }
                if r == mv {
                    assert(t1[j as int] == r);
                }
            }
        }
        j = j + 1;
    }
    assert(ms.take(j as int) =~= ms);
    assert(strings_view(roots@).to_set() =~= reported_roots(trs, ms));
    roots
}

/// An entry of the volumes directory: its name (when it is valid text), its
/// path, and whether it is a link and a directory (when that could be read).
#[derive(Debug)]
pub struct VolumeEntry {
    pub name: Option<String>,
    pub path: String,
    pub kind: Option<(bool, bool)>,
}

/// Volumes are the non-hidden entries that are directories and not links.
pub open spec fn volume_accepted(e: VolumeEntry) -> bool {
    &&& e.name matches Some(n) && !matches_at(n@, 0, "."@)
    &&& e.kind matches Some((is_link, is_dir)) && !is_link && is_dir
}

pub fn mounted_volume_roots(entries: &Vec<VolumeEntry>) -> (r: Vec<String>)
    ensures
        strictly_sorted(strings_view(r@)),
        strings_view(r@).to_set() == Set::new(
            |p: Seq<char>| exists|i: int| 0 <= i < entries@.len() && volume_accepted(entries@[i]) && entries@[i].path@ == p,
        ),
{
    let mut roots: Vec<String> = Vec::new();
    let mut i: usize = 0;
    while i < entries.len()
        invariant
            i <= entries@.len(),
            strictly_sorted(strings_view(roots@)),
            strings_view(roots@).to_set() == Set::new(
                |p: Seq<char>| exists|k: int| 0 <= k < i && volume_accepted(entries@[k]) && entries@[k].path@ == p,
            ),
        decreases entries@.len() - i,
    {
        let e = &entries[i];
        let ghost before = strings_view(roots@).to_set();
        let accepted = match &e.name {
            Some(n) => !starts_with(n.as_str(), ".") && match e.kind {
                Some((is_link, is_dir)) => !is_link && is_dir,
                None => false,
            },
            None => false,
        };
        assert(accepted == volume_accepted(entries@[i as int]));
        if accepted {
            insert_sorted_unique(&mut roots, e.path.clone());
        }
        assert(strings_view(roots@).to_set() =~= Set::new(
            |p: Seq<char>| exists|k: int| 0 <= k < i + 1 && volume_accepted(entries@[k]) && entries@[k].path@ == p,
        )) by {
            assert forall|p: Seq<char>| #[trigger] strings_view(roots@).to_set().contains(p) == (exists|k: int|
                0 <= k < i + 1 && volume_accepted(entries@[k]) && entries@[k].path@ == p) by {
                if exists|k: int| 0 <= k < i + 1 && volume_accepted(entries@[k]) && entries@[k].path@ == p {
                    let k = choose|k: int| 0 <= k < i + 1 && volume_accepted(entries@[k]) && entries@[k].path@ == p;
                    if k < i {
                        assert(before.contains(p));
                    }
                }
            }
        }
        i = i + 1;
    }
    roots
}

/// The last component of a path, as `std::path::Path::file_name` finds it.
pub uninterp spec fn file_name_of(path: Seq<char>) -> Option<Seq<char>>;

/// `std::path::Path::file_name`: the final component of a path (none for a
/// root or a path ending in `..`); a non-UTF-8 name is taken as absent.
#[verifier::external_body]
fn path_file_name(path: &str) -> (r: Option<String>)
    ensures
        opt_view(r) == file_name_of(path@),
{
    match std::path::Path::new(path).file_name() {
        Some(name) => match name.to_str() {
            Some(n) => Some(n.to_string()),
            None => None,
        },
        None => None,
    }
}

/// The report of one disk: named by its last path component (or by the
/// whole root); space and writability only when it is mounted.
pub fn disk_status(
    root: &str,
    is_mounted: bool,
    probe_ok: bool,
    free: &Result<u64, String>,
    total: &Result<u64, String>,
) -> (d: DiskStatus)
    ensures
        is_disk_report(d, root@, file_name_of(root@), is_mounted, probe_ok, *free, *total),
{
    disk_status_named(root, path_file_name(root), is_mounted, probe_ok, free, total)
}

/// A byte count that was read, or zero.
pub open spec fn read_or_zero(r: Result<u64, String>) -> u64 {
    match r {
        Ok(n) => n,
        Err(_) => 0,
    }
}

/// `d` reports the disk at `root` whose last path component is `name`.
pub open spec fn is_disk_report(
    d: DiskStatus,
    root: Seq<char>,
    name: Option<Seq<char>>,
    is_mounted: bool,
    probe_ok: bool,
    free: Result<u64, String>,
    total: Result<u64, String>,
) -> bool {
    &&& d.mount_point@ == root
    &&& d.display_name@ == match name {
        Some(n) => n,
        None => root,
    }
    &&& d.is_mounted == is_mounted
    &&& d.is_writable == (is_mounted && probe_ok)
    &&& d.free_bytes == if is_mounted {
        read_or_zero(free)
    } else {
        0
    }
    &&& d.total_bytes == if is_mounted {
        read_or_zero(total)
    } else {
        0
    }
}

/// The report of one disk whose last path component is `name`.
pub fn disk_status_named(
    root: &str,
    name: Option<String>,
    is_mounted: bool,
    probe_ok: bool,
    free: &Result<u64, String>,
    total: &Result<u64, String>,
) -> (d: DiskStatus)
    ensures
        is_disk_report(d, root@, opt_view(name), is_mounted, probe_ok, *free, *total),
{
    let display_name = match name {
        Some(n) => n,
        None => owned(root),
    };
    let free_bytes = if is_mounted {
        match free {
            Ok(n) => *n,
            Err(_) => 0,
        }
    } else {
        0
    };
    let total_bytes = if is_mounted {
        match total {
            Ok(n) => *n,
            Err(_) => 0,
        }
    } else {
        0
    };
    DiskStatus {
        mount_point: owned(root),
        display_name,
        is_mounted,
        is_writable: is_mounted && probe_ok,
        free_bytes,
        total_bytes,
    }
}

/// The report of the system disk `/`; its space must be readable.
pub fn system_disk_status(
    is_mounted: bool,
    is_writable: bool,
    free: &Result<u64, String>,
    total: &Result<u64, String>,
    trace_id: &str,
) -> (r: Result<DiskStatus, CommandError>)
    ensures
        match (*free, *total) {
            (Err(e), _) => r matches Err(c) && command_is(
                c,
                "DISK_STATUS_READ_FAILED"@,
                "failed to read system disk free space."@,
                trace_id@,
                true,
                seq![("mount_point"@, Val::Text("/"@)), ("error"@, Val::Text(e@))],
            ),
            (Ok(_), Err(e)) => r matches Err(c) && command_is(
                c,
                "DISK_STATUS_READ_FAILED"@,
                "failed to read system disk total space."@,
                trace_id@,
                true,
                seq![("mount_point"@, Val::Text("/"@)), ("error"@, Val::Text(e@))],
            ),
            (Ok(f), Ok(t)) => r matches Ok(d) && d.mount_point@ == "/"@ && d.display_name@ == "System Disk"@
                && d.is_mounted == is_mounted && d.is_writable == is_writable && d.free_bytes == f && d.total_bytes == t,
        },
{
    let free_bytes = match free {
        Ok(n) => *n,
        Err(e) => {
            return Err(
                CommandError::new(
                    "DISK_STATUS_READ_FAILED",
                    "failed to read system disk free space.",
                    trace_id,
                    true,
                    details2("mount_point", "/", "error", e.as_str()),
                ),
            );
        },
    };
    let total_bytes = match total {
        Ok(n) => *n,
        Err(e) => {
            return Err(
                CommandError::new(
                    "DISK_STATUS_READ_FAILED",
                    "failed to read system disk total space.",
                    trace_id,
                    true,
                    details2("mount_point", "/", "error", e.as_str()),
                ),
            );
        },
    };
    Ok(
        DiskStatus {
            mount_point: owned("/"),
            display_name: owned("System Disk"),
            is_mounted,
            is_writable,
            free_bytes,
            total_bytes,
        },
    )
}

} // verus!
