//! The checks a migration request passes before anything is moved: the
//! request itself, the running processes, the source, the target disk and
//! its free space, and the checks after the link is in place.

use crate::fsops::{err_is, switch_error, SwitchError};
use crate::health::{paths_equal, same_path};
use crate::models::{details1, details2, details3, details_view, text_field, DetailField, DetailValue, Details};
use crate::planning::{render_target_spec, target_path_for_unit, MigrationUnitPlan};
use crate::paths::{backup_path_for, backup_path_spec};
use crate::profiles::{opt_view, strings_view, AppProfile};
use crate::records::NewRelocationRecord;
use crate::text::{chars_of, contains, contains_str, lower, owned, str_eq, to_lower};
use crate::models::{opt_val, Val};
use vstd::prelude::*;

verus! {

/// The two relocation modes.
#[derive(Clone, Copy, Debug)]
pub enum RunMode {
    /// Link an empty (or missing) source to a fresh target directory.
    Bootstrap,
    /// Copy the source to the target, then link it.
    Migrate,
}

pub open spec fn mode_name(m: RunMode) -> Seq<char> {
    match m {
        RunMode::Bootstrap => "bootstrap"@,
        RunMode::Migrate => "migrate"@,
    }
}

/// Details that record a single field with any value.
pub open spec fn one_field(d: Details, key: Seq<char>, v: DetailValue) -> bool {
    d.fields@.len() == 1 && d.fields@[0].key@ == key && d.fields@[0].value == v
}

fn field(key: &str, value: DetailValue) -> (f: DetailField)
    ensures
        f.key@ == key@,
        f.value == value,
{
    DetailField { key: owned(key), value }
}

/// The request's mode.
pub fn check_migrate_mode(mode: &str) -> (r: Result<RunMode, SwitchError>)
    ensures
        mode@ == "bootstrap"@ ==> (r matches Ok(m) && (m is Bootstrap)),
        mode@ == "migrate"@ ==> (r matches Ok(m) && (m is Migrate)),
        mode@ != "bootstrap"@ && mode@ != "migrate"@ ==> (r matches Err(e) && err_is(
            e,
            "PRECHECK_INVALID_MODE"@,
            "mode must be either 'bootstrap' or 'migrate'."@,
            false,
            seq![("mode"@, Val::Text(mode@))],
        )),
{
    proof {
        reveal_strlit("bootstrap");
        reveal_strlit("migrate");
        assert("bootstrap"@[0] != "migrate"@[0]);
    }
    if str_eq(mode, "bootstrap") {
        Ok(RunMode::Bootstrap)
    } else if str_eq(mode, "migrate") {
        Ok(RunMode::Migrate)
    } else {
        Err(
            switch_error(
                "PRECHECK_INVALID_MODE",
                "mode must be either 'bootstrap' or 'migrate'.",
                false,
                details1("mode", mode),
            ),
        )
    }
}

/// The profile of the request's application, when there is one.
pub fn require_profile(app_id: &str, found: Option<AppProfile>) -> (r: Result<AppProfile, SwitchError>)
    ensures
        match found {
            Some(p) => r == Ok::<AppProfile, SwitchError>(p),
            None => r matches Err(e) && err_is(
                e,
                "PRECHECK_PROFILE_NOT_FOUND"@,
                "No profile found for app_id."@,
                false,
                seq![("app_id"@, Val::Text(app_id@))],
            ),
        },
{
    match found {
        Some(p) => Ok(p),
        None => Err(
            switch_error(
                "PRECHECK_PROFILE_NOT_FOUND",
                "No profile found for app_id.",
                false,
                details1("app_id", app_id),
            ),
        ),
    }
}

/// Blocked and deprecated profiles cannot be migrated.
pub fn check_profile_available(profile: &AppProfile) -> (r: Result<(), SwitchError>)
    ensures
        (r is Ok) <==> (profile.availability@ != "blocked"@ && profile.availability@ != "deprecated"@),
        r matches Err(e) ==> err_is(
            e,
            "PRECHECK_APP_BLOCKED"@,
            "Blocked or deprecated profile cannot be migrated."@,
            false,
            seq![("app_id"@, Val::Text(profile.app_id@)), ("availability"@, Val::Text(profile.availability@))],
        ),
{
    if str_eq(profile.availability.as_str(), "blocked") || str_eq(profile.availability.as_str(), "deprecated") {
        return Err(
            switch_error(
                "PRECHECK_APP_BLOCKED",
                "Blocked or deprecated profile cannot be migrated.",
                false,
                details2("app_id", profile.app_id.as_str(), "availability", profile.availability.as_str()),
            ),
        );
    }
    Ok(())
}

/// The error when no unit could be selected: the named unit is unknown, or
/// the profile has no usable unit.
pub fn unit_not_found(app_id: &str, unit_hint: Option<&str>) -> (e: SwitchError)
    ensures
        match unit_hint {
            Some(id) => err_is(
                e,
                "PRECHECK_UNIT_NOT_FOUND"@,
                "No relocation unit found for app_id and unit_id."@,
                false,
                seq![("app_id"@, Val::Text(app_id@)), ("unit_id"@, Val::Text(id@))],
            ),
            None => err_is(
                e,
                "PRECHECK_SOURCE_NOT_FOUND"@,
                "No source path defined for profile."@,
                false,
                seq![("app_id"@, Val::Text(app_id@))],
            ),
        },
{
    match unit_hint {
        Some(id) => switch_error(
            "PRECHECK_UNIT_NOT_FOUND",
            "No relocation unit found for app_id and unit_id.",
            false,
            details2("app_id", app_id, "unit_id", id),
        ),
        None => switch_error(
            "PRECHECK_SOURCE_NOT_FOUND",
            "No source path defined for profile.",
            false,
            details1("app_id", app_id),
        ),
    }
}

pub open spec fn unit_blocked(u: MigrationUnitPlan) -> bool {
    !u.enabled || u.blocked_reason is Some
}

/// The selected unit must be enabled and not blocked, confirmed when it asks
/// for confirmation, and allow bootstrap mode when that mode is requested.
pub fn check_selected_unit(app_id: &str, unit: &MigrationUnitPlan, mode: RunMode, confirm_high_risk: bool) -> (r:
    Result<(), SwitchError>)
    ensures
        (r is Ok) <==> (!unit_blocked(*unit) && !(unit.requires_confirmation && !confirm_high_risk) && !((mode is Bootstrap)
            && !unit.allow_bootstrap_if_source_missing)),
        unit_blocked(*unit) ==> (r matches Err(e) && err_is(
            e,
            "PRECHECK_UNIT_BLOCKED"@,
            "Selected relocation unit is disabled or blocked."@,
            false,
            seq![
                ("app_id"@, Val::Text(app_id@)),
                ("unit_id"@, Val::Text(unit.unit_id@)),
                ("blocked_reason"@, opt_val(unit.blocked_reason)),
            ],
        )),
        !unit_blocked(*unit) && unit.requires_confirmation && !confirm_high_risk ==> (r matches Err(e) && err_is(
            e,
            "PRECHECK_UNIT_CONFIRMATION_REQUIRED"@,
            "Selected relocation unit requires explicit confirmation."@,
            true,
            seq![("app_id"@, Val::Text(app_id@)), ("unit_id"@, Val::Text(unit.unit_id@))],
        )),
        !unit_blocked(*unit) && !(unit.requires_confirmation && !confirm_high_risk) && (mode is Bootstrap)
            && !unit.allow_bootstrap_if_source_missing ==> (r matches Err(e) && err_is(
            e,
            "PRECHECK_BOOTSTRAP_NOT_ALLOWED"@,
            "This relocation unit does not allow bootstrap mode."@,
            false,
            seq![("app_id"@, Val::Text(app_id@)), ("unit_id"@, Val::Text(unit.unit_id@))],
        )),
{
    if !unit.enabled || unit.blocked_reason.is_some() {
        let d = Details::empty().text("app_id", app_id).text("unit_id", unit.unit_id.as_str()).opt_text(
            "blocked_reason",
            &unit.blocked_reason,
        );
        assert(details_view(d) =~= seq![
            ("app_id"@, Val::Text(app_id@)),
            ("unit_id"@, Val::Text(unit.unit_id@)),
            ("blocked_reason"@, opt_val(unit.blocked_reason)),
        ]);
        return Err(switch_error("PRECHECK_UNIT_BLOCKED", "Selected relocation unit is disabled or blocked.", false, d));
    }
    if unit.requires_confirmation && !confirm_high_risk {
        return Err(
            switch_error(
                "PRECHECK_UNIT_CONFIRMATION_REQUIRED",
                "Selected relocation unit requires explicit confirmation.",
                true,
                details2("app_id", app_id, "unit_id", unit.unit_id.as_str()),
            ),
        );
    }
    match mode {
        RunMode::Bootstrap => {
            if !unit.allow_bootstrap_if_source_missing {
                return Err(
                    switch_error(
                        "PRECHECK_BOOTSTRAP_NOT_ALLOWED",
                        "This relocation unit does not allow bootstrap mode.",
                        false,
                        details2("app_id", app_id, "unit_id", unit.unit_id.as_str()),
                    ),
                );
            }
        },
        RunMode::Migrate => {},
    }
    Ok(())
}

/// The relocation record a request starts with: prechecking, health
/// unknown, sizes zero, and a `<source>.bak` backup path in migrate mode.
pub fn new_relocation_record(
    relocation_id: &str,
    profile: &AppProfile,
    mode: RunMode,
    unit: &MigrationUnitPlan,
    target_root: &str,
    trace_id: &str,
    now: &str,
) -> (r: NewRelocationRecord)
    ensures
        r.relocation_id@ == relocation_id@,
        r.app_id@ == profile.app_id@,
        r.tier@ == profile.availability@,
        r.mode@ == mode_name(mode),
        r.source_path@ == unit.source_path@,
        r.target_root@ == target_root@,
        r.target_path@ == render_target_spec(unit.target_path_template@, target_root@, unit.display_name@),
        opt_view(r.backup_path) == match mode {
            RunMode::Migrate => Some(backup_path_spec(unit.source_path@)),
            RunMode::Bootstrap => None,
        },
        r.state@ == "PRECHECKING"@,
        r.health_state@ == "unknown"@,
        r.last_error_code is None,
        r.trace_id@ == trace_id@,
        r.source_size_bytes == 0,
        r.target_size_bytes == 0,
        r.created_at@ == now@,
        r.updated_at@ == now@,
        r.completed_at is None,
{
    let (mode_text, backup_path) = match mode {
        RunMode::Migrate => ("migrate", Some(backup_path_for(unit.source_path.as_str()))),
        RunMode::Bootstrap => ("bootstrap", None),
    };
    NewRelocationRecord {
        relocation_id: owned(relocation_id),
        app_id: profile.app_id.clone(),
        tier: profile.availability.clone(),
        mode: owned(mode_text),
        source_path: unit.source_path.clone(),
        target_root: owned(target_root),
        target_path: target_path_for_unit(unit, target_root),
        backup_path,
        state: owned("PRECHECKING"),
        health_state: owned("unknown"),
        last_error_code: None,
        trace_id: owned(trace_id),
        source_size_bytes: 0,
        target_size_bytes: 0,
        created_at: owned(now),
        updated_at: owned(now),
        completed_at: None,
    }
}

// ---------------------------------------------------------------------------
// Running processes
// ---------------------------------------------------------------------------

/// Lexicographic order of strings by character (the order of `str`, since
/// UTF-8 keeps the order of code points).
pub open spec fn lex_lt(a: Seq<char>, b: Seq<char>) -> bool
    decreases a.len(),
{
    if a.len() == 0 {
        b.len() > 0
    } else if b.len() == 0 {
        false
    } else if (a[0] as int) < (b[0] as int) {
        true
    } else if a[0] == b[0] {
        lex_lt(a.drop_first(), b.drop_first())
    } else {
        false
    }
}

proof fn lemma_lex_lt_irreflexive(a: Seq<char>)
    ensures
        !lex_lt(a, a),
    decreases a.len(),
{
    if a.len() > 0 {
        lemma_lex_lt_irreflexive(a.drop_first());
    }
}

proof fn lemma_lex_total(a: Seq<char>, b: Seq<char>)
    ensures
        a == b || lex_lt(a, b) || lex_lt(b, a),
    decreases a.len(),
{
    if a.len() > 0 && b.len() > 0 && a[0] == b[0] {
        lemma_lex_total(a.drop_first(), b.drop_first());
        if a.drop_first() == b.drop_first() {
            assert(a =~= seq![a[0]] + a.drop_first());
            assert(b =~= seq![b[0]] + b.drop_first());
        }
    } else if a.len() == 0 && b.len() == 0 {
        assert(a =~= b);
    }
}

proof fn lemma_lex_trans(a: Seq<char>, b: Seq<char>, c: Seq<char>)
    requires
        lex_lt(a, b),
        lex_lt(b, c),
    ensures
        lex_lt(a, c),
    decreases a.len(),
{
    if a.len() > 0 && b.len() > 0 && c.len() > 0 && a[0] == b[0] && b[0] == c[0] {
        lemma_lex_trans(a.drop_first(), b.drop_first(), c.drop_first());
    }
}

/// `a < b` on strings.
pub fn str_lt(a: &str, b: &str) -> (r: bool)
    ensures
        r == lex_lt(a@, b@),
{
    let x = chars_of(a);
    let y = chars_of(b);
    let mut i: usize = 0;
    assert(a@.skip(0) =~= a@);
    assert(b@.skip(0) =~= b@);
    while i < x.len() && i < y.len() && x[i] == y[i]
        invariant
            i <= x@.len(),
            i <= y@.len(),
            x@ == a@,
            y@ == b@,
            forall|j: int| 0 <= j < i ==> x@[j] == y@[j],
            lex_lt(a@, b@) == lex_lt(a@.skip(i as int), b@.skip(i as int)),
        decreases x@.len() - i,
    {
        proof {
            let s = a@.skip(i as int);
            let t = b@.skip(i as int);
            assert(s.drop_first() =~= a@.skip(i + 1));
            assert(t.drop_first() =~= b@.skip(i + 1));
            assert(s[0] == t[0]);
        }
        i = i + 1;
    }
    if i == x.len() {
        i < y.len()
    } else if i == y.len() {
        false
    } else {
        assert(a@.skip(i as int)[0] == x@[i as int]);
        assert(b@.skip(i as int)[0] == y@[i as int]);
        x[i] < y[i]
    }
}

pub open spec fn strictly_sorted(s: Seq<Seq<char>>) -> bool {
    forall|i: int, j: int| 0 <= i < j < s.len() ==> lex_lt(s[i], s[j])
}

/// Inserts `x` into a strictly sorted list unless it is already there.
pub fn insert_sorted_unique(v: &mut Vec<String>, x: String)
    requires
        strictly_sorted(strings_view(old(v)@)),
    ensures
        strictly_sorted(strings_view(final(v)@)),
        strings_view(final(v)@).to_set() == strings_view(old(v)@).to_set().insert(x@),
{
    let ghost old_v = strings_view(v@);
    let mut i: usize = 0;
    while i < v.len() && str_lt(v[i].as_str(), x.as_str())
        invariant
            i <= v@.len(),
            strings_view(v@) == old_v,
            strictly_sorted(old_v),
            forall|j: int| 0 <= j < i ==> lex_lt(old_v[j], x@),
        decreases v@.len() - i,
    {
        i = i + 1;
    }
    if i < v.len() && str_eq(v[i].as_str(), x.as_str()) {
        assert(old_v.to_set().insert(x@) =~= old_v.to_set()) by {
            assert(old_v[i as int] == x@);
        }
        return;
    }
    proof {
        if i < old_v.len() {
            assert(old_v[i as int] == v@[i as int]@);
            lemma_lex_total(old_v[i as int], x@);
            assert(lex_lt(x@, old_v[i as int]));
        }
    }
    v.insert(i, x);
    proof {
        let nv = strings_view(v@);
        assert(nv =~= old_v.insert(i as int, x@));
        assert forall|a: int, b: int| 0 <= a < b < nv.len() implies lex_lt(nv[a], nv[b]) by {
            if b < i {
            } else if a < i && b == i {
            } else if a <= i && b > i {
                if b > i + 1 {
                    lemma_lex_trans(x@, old_v[i as int], old_v[b - 1]);
                }
                assert(lex_lt(x@, nv[b]));
                if a < i {
                    lemma_lex_trans(nv[a], x@, nv[b]);
                }
            } else {
                assert(nv[a] == old_v[a - 1] && nv[b] == old_v[b - 1]);
            }
        }
        assert(nv.to_set() =~= old_v.to_set().insert(x@)) by {
            assert forall|y: Seq<char>| nv.to_set().contains(y) <==> old_v.to_set().insert(x@).contains(y) by {
                if nv.to_set().contains(y) {
                    let k = choose|k: int| 0 <= k < nv.len() && nv[k] == y;
                    if k < i {
                        assert(old_v[k] == y);
                    } else if k > i {
                        assert(old_v[k - 1] == y);
                    }
                }
                if old_v.to_set().contains(y) {
                    let k = choose|k: int| 0 <= k < old_v.len() && old_v[k] == y;
                    if k < i {
                        assert(nv[k] == y);
                    } else {
                        assert(nv[k + 1] == y);
                    }
                }
                if y == x@ {
                    assert(nv[i as int] == y);
                }
            }
        }
    }
}

/// A process name matches an expected (lower-case) name when its lower-case
/// form equals or contains it.
pub open spec fn process_matches(expected: Seq<Seq<char>>, name: Seq<char>) -> bool {
    exists|k: int| 0 <= k < expected.len() && (lower(name) == expected[k] || contains(lower(name), expected[k]))
}

/// The running processes of a profile's application: none when the profile
/// names no process or does not require its processes to be stopped; else
/// the names among `process_list` that match one of its process names, each
/// once, in order.
pub fn detect_running_processes(profile: &AppProfile, process_list: &Vec<String>) -> (r: Vec<String>)
    ensures
        strictly_sorted(strings_view(r@)),
        profile.process_names@.len() == 0 || !profile.precheck_rules.require_process_stopped ==> r@.len() == 0,
        profile.process_names@.len() > 0 && profile.precheck_rules.require_process_stopped ==> strings_view(r@).to_set()
            == strings_view(process_list@).to_set().filter(
            |n: Seq<char>| process_matches(strings_view(profile.process_names@).map_values(|x: Seq<char>| lower(x)), n),
        ),
{
    let mut running: Vec<String> = Vec::new();
    if profile.process_names.len() == 0 || !profile.precheck_rules.require_process_stopped {
        return running;
    }
    let ghost expected_v = strings_view(profile.process_names@).map_values(|x: Seq<char>| lower(x));
    let mut expected: Vec<String> = Vec::new();
    let mut k: usize = 0;
    while k < profile.process_names.len()
        invariant
            k <= profile.process_names@.len(),
            expected_v == strings_view(profile.process_names@).map_values(|x: Seq<char>| lower(x)),
            strings_view(expected@) == expected_v.take(k as int),
        decreases profile.process_names@.len() - k,
    {
        let ghost prev = expected@;
        expected.push(to_lower(profile.process_names[k].as_str()));
        assert(expected_v[k as int] == lower(profile.process_names@[k as int]@));
        assert(strings_view(expected@) =~= strings_view(prev).push(expected@[k as int]@));
        assert(strings_view(expected@) =~= expected_v.take(k + 1));
        k = k + 1;
    }
    assert(expected_v.take(k as int) =~= expected_v);
    let ghost names = strings_view(process_list@);
    let ghost pred = |n: Seq<char>| process_matches(expected_v, n);
    let mut i: usize = 0;
    while i < process_list.len()
        invariant
            i <= process_list@.len(),
            names == strings_view(process_list@),
            strings_view(expected@) == expected_v,
            pred == (|n: Seq<char>| process_matches(expected_v, n)),
            strictly_sorted(strings_view(running@)),
            strings_view(running@).to_set() == names.take(i as int).to_set().filter(pred),
        decreases process_list@.len() - i,
    {
        let name = &process_list[i];
        let name_lc = to_lower(name.as_str());
        let mut hit = false;
        let mut k: usize = 0;
        while k < expected.len()
            invariant
                k <= expected@.len(),
                strings_view(expected@) == expected_v,
                name_lc@ == lower(name@),
                hit == exists|m: int| 0 <= m < k && (lower(name@) == expected_v[m] || contains(lower(name@), expected_v[m])),
            decreases expected@.len() - k,
        {
            assert(expected_v[k as int] == expected@[k as int]@);
            if str_eq(name_lc.as_str(), expected[k].as_str()) || contains_str(name_lc.as_str(), expected[k].as_str()) {
                hit = true;
            }
            k = k + 1;
        }
        assert(hit == pred(name@));
        let ghost before = strings_view(running@).to_set();
        proof {
            assert(names.take(i + 1) =~= names.take(i as int).push(name@));
            names.take(i as int).lemma_push_to_set_commute(name@);
        }
        if hit {
            insert_sorted_unique(&mut running, name.clone());
            assert(names.take(i + 1).to_set().filter(pred) =~= before.insert(name@));
        } else {
            assert(names.take(i + 1).to_set().filter(pred) =~= before);
        }
        i = i + 1;
    }
    assert(names.take(i as int) =~= names);
    running
}

/// The process precheck: no process of the application may be running.
pub fn processes_stopped(process_names: &Vec<String>, running: &Vec<String>) -> (r: Result<Details, SwitchError>)
    ensures
        (r is Ok) <==> running@.len() == 0,
        r matches Ok(d) ==> details_view(d) == seq![
            ("required_processes"@, Val::Texts(strings_view(process_names@))),
            ("running_processes"@, Val::Texts(Seq::empty())),
        ],
        r matches Err(e) ==> err_is(
            e,
            "PRECHECK_PROCESS_RUNNING"@,
            "target app process is still running."@,
            true,
            seq![("running_processes"@, Val::Texts(strings_view(running@)))],
        ),
{
    if running.len() > 0 {
        let d = Details { fields: vec![field("running_processes", DetailValue::Texts(crate::profiles::copy_strings(running)))] };
        assert(details_view(d) =~= seq![("running_processes"@, Val::Texts(strings_view(running@)))]);
        return Err(switch_error("PRECHECK_PROCESS_RUNNING", "target app process is still running.", true, d));
    }
    let none: Vec<String> = Vec::new();
    assert(strings_view(none@) =~= Seq::<Seq<char>>::empty());
    let d = Details {
        fields: vec![
            field("required_processes", DetailValue::Texts(crate::profiles::copy_strings(process_names))),
            field("running_processes", DetailValue::Texts(none)),
        ],
    };
    assert(details_view(d) =~= seq![
        ("required_processes"@, Val::Texts(strings_view(process_names@))),
        ("running_processes"@, Val::Texts(Seq::empty())),
    ]);
    Ok(d)
}

// ---------------------------------------------------------------------------
// The source
// ---------------------------------------------------------------------------

/// What is found at the source path (without following a final link).
#[derive(Debug)]
pub enum SourceMeta {
    NotFound,
    PermissionDenied(String),
    Unreadable(String),
    Symlink,
    Directory,
    NotDirectory,
}

/// The next step of the source check.
#[derive(Debug)]
pub enum SourceCheckNext {
    Done(Result<u64, SwitchError>),
    /// List the directory (to detect a missing Full Disk Access grant).
    ListDirectory,
    /// Measure the size of the directory.
    MeasureSize,
}

/// The source check, first step: a missing source is accepted only in
/// bootstrap mode when the unit allows it (as zero bytes); a link, a
/// non-directory or an unreadable source is refused.
pub fn source_check_start(
    mode: RunMode,
    source_path: &str,
    allow_bootstrap_if_missing: bool,
    require_full_disk_access: bool,
    meta: &SourceMeta,
) -> (n: SourceCheckNext)
    ensures
        match *meta {
            SourceMeta::NotFound => if (mode is Bootstrap) && allow_bootstrap_if_missing {
                n matches SourceCheckNext::Done(Ok(z)) && z == 0
            } else {
                n matches SourceCheckNext::Done(Err(e)) && err_is(
                    e,
                    "PRECHECK_SOURCE_NOT_FOUND"@,
                    "source path not found for migration mode."@,
                    false,
                    seq![("source_path"@, Val::Text(source_path@)), ("mode"@, Val::Text(mode_name(mode)))],
                )
            },
            SourceMeta::PermissionDenied(error) => n matches SourceCheckNext::Done(Err(e)) && err_is(
                e,
                "PRECHECK_PERMISSION_DENIED"@,
                "missing permission to read source path."@,
                false,
                seq![("source_path"@, Val::Text(source_path@)), ("error"@, Val::Text(error@))],
            ),
            SourceMeta::Unreadable(error) => n matches SourceCheckNext::Done(Err(e)) && err_is(
                e,
                "PRECHECK_SOURCE_NOT_FOUND"@,
                "failed to inspect source path."@,
                false,
                seq![("source_path"@, Val::Text(source_path@)), ("error"@, Val::Text(error@))],
            ),
            SourceMeta::Symlink => n matches SourceCheckNext::Done(Err(e)) && err_is(
                e,
                "PRECHECK_SOURCE_IS_SYMLINK"@,
                "source path is already a symlink."@,
                false,
                seq![("source_path"@, Val::Text(source_path@))],
            ),
            SourceMeta::NotDirectory => n matches SourceCheckNext::Done(Err(e)) && err_is(
                e,
                "PRECHECK_SOURCE_NOT_FOUND"@,
                "source path is not a directory."@,
                false,
                seq![("source_path"@, Val::Text(source_path@))],
            ),
            SourceMeta::Directory => if require_full_disk_access {
                (n is ListDirectory)
            } else {
                (n is MeasureSize)
            },
        },
{
    match meta {
        SourceMeta::NotFound => {
            let bootstrap = match mode {
                RunMode::Bootstrap => true,
                RunMode::Migrate => false,
            };
            if bootstrap && allow_bootstrap_if_missing {
                SourceCheckNext::Done(Ok(0))
            } else {
                let mode_text = if bootstrap {
                    "bootstrap"
                } else {
                    "migrate"
                };
                SourceCheckNext::Done(
                    Err(
                        switch_error(
                            "PRECHECK_SOURCE_NOT_FOUND",
                            "source path not found for migration mode.",
                            false,
                            details2("source_path", source_path, "mode", mode_text),
                        ),
                    ),
                )
            }
        },
        SourceMeta::PermissionDenied(error) => SourceCheckNext::Done(
            Err(
                switch_error(
                    "PRECHECK_PERMISSION_DENIED",
                    "missing permission to read source path.",
                    false,
                    details2("source_path", source_path, "error", error.as_str()),
                ),
            ),
        ),
        SourceMeta::Unreadable(error) => SourceCheckNext::Done(
            Err(
                switch_error(
                    "PRECHECK_SOURCE_NOT_FOUND",
                    "failed to inspect source path.",
                    false,
                    details2("source_path", source_path, "error", error.as_str()),
                ),
            ),
        ),
        SourceMeta::Symlink => SourceCheckNext::Done(
            Err(
                switch_error(
                    "PRECHECK_SOURCE_IS_SYMLINK",
                    "source path is already a symlink.",
                    false,
                    details1("source_path", source_path),
                ),
            ),
        ),
        SourceMeta::NotDirectory => SourceCheckNext::Done(
            Err(
                switch_error(
                    "PRECHECK_SOURCE_NOT_FOUND",
                    "source path is not a directory.",
                    false,
                    details1("source_path", source_path),
                ),
            ),
        ),
        SourceMeta::Directory => {
            if require_full_disk_access {
                SourceCheckNext::ListDirectory
            } else {
                SourceCheckNext::MeasureSize
            }
        },
    }
}

/// How listing the source directory went.
#[derive(Debug)]
pub enum ListOutcome {
    Listed,
    PermissionDenied(String),
    Failed,
}

/// The source check after listing: a permission error means Full Disk
/// Access is missing; any other outcome goes on to measuring.
pub fn source_check_after_listing(source_path: &str, listing: &ListOutcome) -> (n: SourceCheckNext)
    ensures
        match *listing {
            ListOutcome::PermissionDenied(error) => n matches SourceCheckNext::Done(Err(e)) && err_is(
                e,
                "PRECHECK_PERMISSION_DENIED"@,
                "Full Disk Access permission appears missing."@,
                false,
                seq![("source_path"@, Val::Text(source_path@)), ("error"@, Val::Text(error@))],
            ),
            _ => (n is MeasureSize),
        },
{
    match listing {
        ListOutcome::PermissionDenied(error) => SourceCheckNext::Done(
            Err(
                switch_error(
                    "PRECHECK_PERMISSION_DENIED",
                    "Full Disk Access permission appears missing.",
                    false,
                    details2("source_path", source_path, "error", error.as_str()),
                ),
            ),
        ),
        _ => SourceCheckNext::MeasureSize,
    }
}

/// An I/O failure: whether it was a permission error, and its text.
#[derive(Debug)]
pub struct IoFailure {
    pub permission_denied: bool,
    pub error: String,
}

/// The source check's result from the measured size.
pub fn source_check_after_size(source_path: &str, size: &Result<u64, IoFailure>) -> (r: Result<u64, SwitchError>)
    ensures
        match *size {
            Ok(n) => r == Ok::<u64, SwitchError>(n),
            Err(f) => r matches Err(e) && err_is(
                e,
                if f.permission_denied {
                    "PRECHECK_PERMISSION_DENIED"@
                } else {
                    "PRECHECK_SOURCE_NOT_FOUND"@
                },
                "failed to estimate source data size."@,
                false,
                seq![("source_path"@, Val::Text(source_path@)), ("error"@, Val::Text(f.error@))],
            ),
        },
{
    match size {
        Ok(n) => Ok(*n),
        Err(f) => {
            let code = if f.permission_denied {
                "PRECHECK_PERMISSION_DENIED"
            } else {
                "PRECHECK_SOURCE_NOT_FOUND"
            };
            Err(
                switch_error(
                    code,
                    "failed to estimate source data size.",
                    false,
                    details2("source_path", source_path, "error", f.error.as_str()),
                ),
            )
        },
    }
}

/// Bootstrap mode needs a source without data.
pub fn bootstrap_source_empty(source_path: &str, source_size_bytes: u64) -> (r: Result<Details, SwitchError>)
    ensures
        (r is Ok) <==> source_size_bytes == 0,
        r matches Ok(d) ==> one_field(d, "source_size_bytes"@, DetailValue::Number(source_size_bytes)),
        r matches Err(e) ==> e.code@ == "PRECHECK_BOOTSTRAP_NOT_ALLOWED"@ && e.message@
            == "bootstrap mode requires source path without existing data."@ && !e.retryable && e.details.fields@.len()
            == 2 && details_view(e.details)[0] == ("source_path"@, Val::Text(source_path@)) && e.details.fields@[1].key@
            == "source_size_bytes"@ && e.details.fields@[1].value == DetailValue::Number(source_size_bytes),
{
    if source_size_bytes > 0 {
        let d = Details {
            fields: vec![
                text_field("source_path", source_path),
                field("source_size_bytes", DetailValue::Number(source_size_bytes)),
            ],
        };
        return Err(
            switch_error(
                "PRECHECK_BOOTSTRAP_NOT_ALLOWED",
                "bootstrap mode requires source path without existing data.",
                false,
                d,
            ),
        );
    }
    Ok(Details { fields: vec![field("source_size_bytes", DetailValue::Number(source_size_bytes))] })
}

// ---------------------------------------------------------------------------
// The target disk
// ---------------------------------------------------------------------------

/// The next step of the target-online check.
#[derive(Debug)]
pub enum TargetOnlineNext {
    Online,
    Offline(SwitchError),
    /// Create the missing target root (its parent is a mounted directory).
    CreateRoot,
}

pub open spec fn offline_error(e: SwitchError, target_root: Seq<char>) -> bool {
    err_is(
        e,
        "PRECHECK_DISK_OFFLINE"@,
        "target disk is offline or not mounted."@,
        true,
        seq![("target_root"@, Val::Text(target_root))],
    )
}

fn offline(target_root: &str) -> (e: SwitchError)
    ensures
        offline_error(e, target_root@),
{
    switch_error(
        "PRECHECK_DISK_OFFLINE",
        "target disk is offline or not mounted.",
        true,
        details1("target_root", target_root),
    )
}

/// The target-online check, first step: an existing directory is online; a
/// missing root is created only when its parent is a directory other than
/// `/Volumes` itself (so that no mount point is faked there).
pub fn target_online_start(target_root: &str, is_dir: bool, parent: &Option<(String, bool)>) -> (n: TargetOnlineNext)
    ensures
        is_dir ==> (n is Online),
        !is_dir ==> match *parent {
            None => n matches TargetOnlineNext::Offline(e) && offline_error(e, target_root@),
            Some((p, p_is_dir)) => if !p_is_dir || same_path(p@, "/Volumes"@) {
                n matches TargetOnlineNext::Offline(e) && offline_error(e, target_root@)
            } else {
                (n is CreateRoot)
            },
        },
{
    if is_dir {
        return TargetOnlineNext::Online;
    }
    match parent {
        None => TargetOnlineNext::Offline(offline(target_root)),
        Some((p, p_is_dir)) => {
            if !*p_is_dir || paths_equal(p.as_str(), "/Volumes") {
                TargetOnlineNext::Offline(offline(target_root))
            } else {
                TargetOnlineNext::CreateRoot
            }
        },
    }
}

/// The target-online check after creating the root.
pub fn target_online_after_create(target_root: &str, created: &Result<(), IoFailure>, is_dir_after: bool) -> (r:
    Result<(), SwitchError>)
    ensures
        match *created {
            Err(f) => r matches Err(e) && err_is(
                e,
                if f.permission_denied {
                    "PRECHECK_DISK_READONLY"@
                } else {
                    "PRECHECK_DISK_OFFLINE"@
                },
                "failed to create target root directory."@,
                true,
                seq![("target_root"@, Val::Text(target_root@)), ("error"@, Val::Text(f.error@))],
            ),
            Ok(()) => if is_dir_after {
                (r is Ok)
            } else {
                r matches Err(e) && offline_error(e, target_root@)
            },
        },
{
    match created {
        Err(f) => {
            let code = if f.permission_denied {
                "PRECHECK_DISK_READONLY"
            } else {
                "PRECHECK_DISK_OFFLINE"
            };
            Err(
                switch_error(
                    code,
                    "failed to create target root directory.",
                    true,
                    details2("target_root", target_root, "error", f.error.as_str()),
                ),
            )
        },
        Ok(()) => {
            if is_dir_after {
                Ok(())
            } else {
                Err(offline(target_root))
            }
        },
    }
}

/// How a write probe went: the first failing step, or none.
#[derive(Debug)]
pub enum ProbeOutcome {
    CreateFailed(IoFailure),
    WriteFailed(String),
    RemoveFailed(String),
    Done,
}

/// The target-writable check from its probe file.
pub fn target_writable_result(target_root: &str, probe: &ProbeOutcome) -> (r: Result<(), SwitchError>)
    ensures
        match *probe {
            ProbeOutcome::Done => (r is Ok),
            ProbeOutcome::CreateFailed(f) => r matches Err(e) && err_is(
                e,
                if f.permission_denied {
                    "PRECHECK_DISK_READONLY"@
                } else {
                    "PRECHECK_DISK_OFFLINE"@
                },
                "failed to create writable probe on target root."@,
                true,
                seq![("target_root"@, Val::Text(target_root@)), ("error"@, Val::Text(f.error@))],
            ),
            ProbeOutcome::WriteFailed(error) => r matches Err(e) && err_is(
                e,
                "PRECHECK_DISK_READONLY"@,
                "failed to write probe file on target root."@,
                true,
                seq![("target_root"@, Val::Text(target_root@)), ("error"@, Val::Text(error@))],
            ),
            ProbeOutcome::RemoveFailed(error) => r matches Err(e) && err_is(
                e,
                "PRECHECK_DISK_READONLY"@,
                "failed to cleanup writable probe file."@,
                true,
                seq![("target_root"@, Val::Text(target_root@)), ("error"@, Val::Text(error@))],
            ),
        },
{
    match probe {
        ProbeOutcome::Done => Ok(()),
        ProbeOutcome::CreateFailed(f) => {
            let code = if f.permission_denied {
                "PRECHECK_DISK_READONLY"
            } else {
                "PRECHECK_DISK_OFFLINE"
            };
            Err(
                switch_error(
                    code,
                    "failed to create writable probe on target root.",
                    true,
                    details2("target_root", target_root, "error", f.error.as_str()),
                ),
            )
        },
        ProbeOutcome::WriteFailed(error) => Err(
            switch_error(
                "PRECHECK_DISK_READONLY",
                "failed to write probe file on target root.",
                true,
                details2("target_root", target_root, "error", error.as_str()),
            ),
        ),
        ProbeOutcome::RemoveFailed(error) => Err(
            switch_error(
                "PRECHECK_DISK_READONLY",
                "failed to cleanup writable probe file.",
                true,
                details2("target_root", target_root, "error", error.as_str()),
            ),
        ),
    }
}

/// The least free space kept on the target beyond the data: 512 MiB.
pub const SAFETY_MARGIN_MIN_BYTES: u64 = 536870912u64;

/// The margin kept beyond the data: a tenth of it, at least 512 MiB.
pub open spec fn safety_margin(size: u64) -> int {
    if size / 10 > SAFETY_MARGIN_MIN_BYTES {
        (size / 10) as int
    } else {
        SAFETY_MARGIN_MIN_BYTES as int
    }
}

/// The free space needed: the data plus the margin, capped at `u64::MAX`.
pub open spec fn required_space(size: u64) -> int {
    if size + safety_margin(size) > u64::MAX {
        u64::MAX as int
    } else {
        size + safety_margin(size)
    }
}

/// The space-budget check: free space must cover the data and the margin.
/// On success the free and the required byte counts are returned.
pub fn check_available_space(target_root: &str, source_size_bytes: u64, free: &Result<u64, String>) -> (r: Result<
    (u64, u64),
    SwitchError,
>)
    ensures
        match *free {
            Err(error) => r matches Err(e) && err_is(
                e,
                "PRECHECK_DISK_OFFLINE"@,
                "failed to query available disk space."@,
                true,
                seq![("target_root"@, Val::Text(target_root@)), ("error"@, Val::Text(error@))],
            ),
            Ok(f) => if f < required_space(source_size_bytes) {
                r matches Err(e) && e.code@ == "PRECHECK_INSUFFICIENT_SPACE"@ && e.message@
                    == "target disk has insufficient free space."@ && e.retryable && e.details.fields@.len() == 5
                    && details_view(e.details)[0] == ("target_root"@, Val::Text(target_root@))
                    && e.details.fields@[1].key@ == "free_bytes"@ && e.details.fields@[1].value == DetailValue::Number(f)
                    && e.details.fields@[2].key@ == "required_bytes"@ && e.details.fields@[2].value
                    == DetailValue::Number(required_space(source_size_bytes) as u64) && e.details.fields@[3].key@
                    == "source_size_bytes"@ && e.details.fields@[3].value == DetailValue::Number(source_size_bytes)
                    && e.details.fields@[4].key@ == "safety_margin_bytes"@ && e.details.fields@[4].value
                    == DetailValue::Number(safety_margin(source_size_bytes) as u64)
            } else {
                r == Ok::<(u64, u64), SwitchError>((f, required_space(source_size_bytes) as u64))
            },
        },
{
    let free_bytes = match free {
        Ok(f) => *f,
        Err(error) => {
            return Err(
                switch_error(
                    "PRECHECK_DISK_OFFLINE",
                    "failed to query available disk space.",
                    true,
                    details2("target_root", target_root, "error", error.as_str()),
                ),
            );
        },
    };
    let tenth = source_size_bytes / 10;
    let margin = if tenth > SAFETY_MARGIN_MIN_BYTES {
        tenth
    } else {
        SAFETY_MARGIN_MIN_BYTES
    };
    let required = source_size_bytes.saturating_add(margin);
    if free_bytes < required {
        let d = Details {
            fields: vec![
                text_field("target_root", target_root),
                field("free_bytes", DetailValue::Number(free_bytes)),
                field("required_bytes", DetailValue::Number(required)),
                field("source_size_bytes", DetailValue::Number(source_size_bytes)),
                field("safety_margin_bytes", DetailValue::Number(margin)),
            ],
        };
        return Err(switch_error("PRECHECK_INSUFFICIENT_SPACE", "target disk has insufficient free space.", true, d));
    }
    Ok((free_bytes, required))
}

/// In migrate mode neither the target nor the backup path may exist yet.
pub fn migrate_paths_absent(target_path: &str, backup_path: &str, target_exists: bool, backup_exists: bool) -> (r:
    Result<Details, SwitchError>)
    ensures
        (r is Ok) <==> (!target_exists && !backup_exists),
        r matches Ok(d) ==> details_view(d) == seq![
            ("target_path"@, Val::Text(target_path@)),
            ("backup_path"@, Val::Text(backup_path@)),
        ],
        target_exists ==> (r matches Err(e) && err_is(
            e,
            "PRECHECK_TARGET_PATH_EXISTS"@,
            "target path already exists."@,
            false,
            seq![("target_path"@, Val::Text(target_path@))],
        )),
        !target_exists && backup_exists ==> (r matches Err(e) && err_is(
            e,
            "PRECHECK_BACKUP_PATH_EXISTS"@,
            "backup path already exists."@,
            false,
            seq![("backup_path"@, Val::Text(backup_path@))],
        )),
{
    if target_exists {
        return Err(
            switch_error(
                "PRECHECK_TARGET_PATH_EXISTS",
                "target path already exists.",
                false,
                details1("target_path", target_path),
            ),
        );
    }
    if backup_exists {
        return Err(
            switch_error(
                "PRECHECK_BACKUP_PATH_EXISTS",
                "backup path already exists.",
                false,
                details1("backup_path", backup_path),
            ),
        );
    }
    Ok(details2("target_path", target_path, "backup_path", backup_path))
}

// ---------------------------------------------------------------------------
// After the switch
// ---------------------------------------------------------------------------

/// What is found at the source after the switch.
#[derive(Debug)]
pub enum LinkObservation {
    SourceUnreadable(String),
    NotSymlink,
    LinkUnreadable(String),
    /// The source is a link to this path.
    Linked(String),
}

pub open spec fn postcheck_error(e: SwitchError, message: Seq<char>, details: Seq<(Seq<char>, Val)>) -> bool {
    err_is(e, "MIGRATE_POSTCHECK_FAILED"@, message, false, details)
}

/// The postcheck of the link: the source must be a link to the target.
pub fn postcheck_link(source_path: &str, target_path: &str, obs: &LinkObservation) -> (r: Result<(), SwitchError>)
    ensures
        match *obs {
            LinkObservation::SourceUnreadable(error) => r matches Err(e) && postcheck_error(
                e,
                "failed to inspect source path after bootstrap switch."@,
                seq![("source_path"@, Val::Text(source_path@)), ("error"@, Val::Text(error@))],
            ),
            LinkObservation::NotSymlink => r matches Err(e) && postcheck_error(
                e,
                "source path is not a symlink after bootstrap switch."@,
                seq![("source_path"@, Val::Text(source_path@))],
            ),
            LinkObservation::LinkUnreadable(error) => r matches Err(e) && postcheck_error(
                e,
                "failed to resolve source symlink target."@,
                seq![("source_path"@, Val::Text(source_path@)), ("error"@, Val::Text(error@))],
            ),
            LinkObservation::Linked(linked) => if same_path(linked@, target_path@) {
                (r is Ok)
            } else {
                r matches Err(e) && postcheck_error(
                    e,
                    "source symlink target does not match expected target path."@,
                    seq![
                        ("source_path"@, Val::Text(source_path@)),
                        ("linked_target"@, Val::Text(linked@)),
                        ("expected_target"@, Val::Text(target_path@)),
                    ],
                )
            },
        },
{
    match obs {
        LinkObservation::SourceUnreadable(error) => Err(
            switch_error(
                "MIGRATE_POSTCHECK_FAILED",
                "failed to inspect source path after bootstrap switch.",
                false,
                details2("source_path", source_path, "error", error.as_str()),
            ),
        ),
        LinkObservation::NotSymlink => Err(
            switch_error(
                "MIGRATE_POSTCHECK_FAILED",
                "source path is not a symlink after bootstrap switch.",
                false,
                details1("source_path", source_path),
            ),
        ),
        LinkObservation::LinkUnreadable(error) => Err(
            switch_error(
                "MIGRATE_POSTCHECK_FAILED",
                "failed to resolve source symlink target.",
                false,
                details2("source_path", source_path, "error", error.as_str()),
            ),
        ),
        LinkObservation::Linked(linked) => {
            if paths_equal(linked.as_str(), target_path) {
                Ok(())
            } else {
                Err(
                    switch_error(
                        "MIGRATE_POSTCHECK_FAILED",
                        "source symlink target does not match expected target path.",
                        false,
                        details3(
                            "source_path",
                            source_path,
                            "linked_target",
                            linked.as_str(),
                            "expected_target",
                            target_path,
                        ),
                    ),
                )
            }
        },
    }
}

/// What is found at the target after the switch, with its write probe.
#[derive(Debug)]
pub enum TargetProbeObservation {
    Unreadable(String),
    NotDirectory,
    CreateFailed(String),
    WriteFailed(String),
    RemoveFailed(String),
    Writable,
}

/// The postcheck of the target: a writable directory.
pub fn postcheck_target(source_path: &str, target_path: &str, obs: &TargetProbeObservation) -> (r: Result<
    Details,
    SwitchError,
>)
    ensures
        match *obs {
            TargetProbeObservation::Unreadable(error) => r matches Err(e) && postcheck_error(
                e,
                "failed to inspect target path after bootstrap switch."@,
                seq![("target_path"@, Val::Text(target_path@)), ("error"@, Val::Text(error@))],
            ),
            TargetProbeObservation::NotDirectory => r matches Err(e) && postcheck_error(
                e,
                "target path is not a directory after bootstrap switch."@,
                seq![("target_path"@, Val::Text(target_path@))],
            ),
            TargetProbeObservation::CreateFailed(error) => r matches Err(e) && postcheck_error(
                e,
                "failed to create writable probe in target path."@,
                seq![("target_path"@, Val::Text(target_path@)), ("error"@, Val::Text(error@))],
            ),
            TargetProbeObservation::WriteFailed(error) => r matches Err(e) && postcheck_error(
                e,
                "failed to write writable probe in target path."@,
                seq![("target_path"@, Val::Text(target_path@)), ("error"@, Val::Text(error@))],
            ),
            TargetProbeObservation::RemoveFailed(error) => r matches Err(e) && postcheck_error(
                e,
                "failed to clean writable probe in target path."@,
                seq![("target_path"@, Val::Text(target_path@)), ("error"@, Val::Text(error@))],
            ),
            TargetProbeObservation::Writable => r matches Ok(d) && d.fields@.len() == 4 && details_view(d).take(2)
                == seq![("source_path"@, Val::Text(source_path@)), ("target_path"@, Val::Text(target_path@))]
                && d.fields@[2].key@ == "symlink_ok"@ && d.fields@[2].value == DetailValue::Flag(true)
                && d.fields@[3].key@ == "target_writable_ok"@ && d.fields@[3].value == DetailValue::Flag(true),
        },
{
    let (message, error) = match obs {
        TargetProbeObservation::Writable => {
            let d = Details {
                fields: vec![
                    text_field("source_path", source_path),
                    text_field("target_path", target_path),
                    field("symlink_ok", DetailValue::Flag(true)),
                    field("target_writable_ok", DetailValue::Flag(true)),
                ],
            };
            assert(details_view(d).take(2) =~= seq![
                ("source_path"@, Val::Text(source_path@)),
                ("target_path"@, Val::Text(target_path@)),
            ]);
            return Ok(d);
        },
        TargetProbeObservation::NotDirectory => {
            return Err(
                switch_error(
                    "MIGRATE_POSTCHECK_FAILED",
                    "target path is not a directory after bootstrap switch.",
                    false,
                    details1("target_path", target_path),
                ),
            );
        },
        TargetProbeObservation::Unreadable(error) => ("failed to inspect target path after bootstrap switch.", error),
        TargetProbeObservation::CreateFailed(error) => ("failed to create writable probe in target path.", error),
        TargetProbeObservation::WriteFailed(error) => ("failed to write writable probe in target path.", error),
        TargetProbeObservation::RemoveFailed(error) => ("failed to clean writable probe in target path.", error),
    };
    Err(
        switch_error(
            "MIGRATE_POSTCHECK_FAILED",
            message,
            false,
            details2("target_path", target_path, "error", error.as_str()),
        ),
    )
}

} // verus!
