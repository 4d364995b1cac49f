//! The rules that every normalised profile catalog must satisfy, with the
//! message of the first violated rule.

use crate::profiles::{profiles_view, units_view, AppProfile, ProfileView, RelocationUnit, UnitView};
use crate::text::{chars_of, contains, contains_str, decimal, lower, match_at, matches_at, owned, push_decimal, str_eq, string_of, to_lower, trim, trim_str, trimmed};
use vstd::prelude::*;

verus! {

pub open spec fn is_glob_char(c: char) -> bool {
    c == '*' || c == '?' || c == '['
}

/// The segment after the last `/` of `p` holds a glob character.
pub open spec fn last_segment_has_glob(p: Seq<char>) -> bool
    decreases p.len(),
{
    if p.len() == 0 {
        false
    } else if p.last() == '/' {
        false
    } else {
        is_glob_char(p.last()) || last_segment_has_glob(p.drop_last())
    }
}

/// Number of `/`-terminated segments of `p` that hold a glob character.
pub open spec fn closed_glob_segments(p: Seq<char>) -> nat
    decreases p.len(),
{
    if p.len() == 0 {
        0
    } else if p.last() == '/' {
        closed_glob_segments(p.drop_last()) + if last_segment_has_glob(p.drop_last()) {
            1nat
        } else {
            0nat
        }
    } else {
        closed_glob_segments(p.drop_last())
    }
}

/// Number of `/`-separated segments of a path that hold a glob character
/// (`*`, `?` or `[`).
pub open spec fn glob_segment_count(p: Seq<char>) -> nat {
    closed_glob_segments(p) + if last_segment_has_glob(p) {
        1nat
    } else {
        0nat
    }
}

pub open spec fn is_digit(c: char) -> bool {
    48 <= c as int && c as int <= 57
}

/// End of the run of ASCII digits that starts at `c`.
pub open spec fn digits_end(t: Seq<char>, c: int) -> int
    decreases t.len() - c,
{
    if 0 <= c < t.len() && is_digit(t[c]) {
        digits_end(t, c + 1)
    } else {
        c
    }
}

/// A `{match_N}` placeholder (one or more digits) begins at `b`.
pub open spec fn placeholder_at(t: Seq<char>, b: int) -> bool {
    let c = b + "{match_"@.len();
    let e = digits_end(t, c);
    &&& matches_at(t, b, "{match_"@)
    &&& e > c
    &&& e < t.len()
    &&& t[e] == '}'
}

/// The first `{match_N}` placeholder of `t` at or after `b`.
pub open spec fn first_placeholder_from(t: Seq<char>, b: int) -> Option<Seq<char>>
    decreases t.len() + 1 - b,
{
    if b < 0 || b > t.len() {
        None
    } else if placeholder_at(t, b) {
        Some(t.subrange(b, digits_end(t, b + "{match_"@.len()) + 1))
    } else {
        first_placeholder_from(t, b + 1)
    }
}

pub open spec fn match_token(idx: nat) -> Seq<char> {
    "{match_"@ + decimal(idx) + "}"@
}

/// The first capture index in `idx..=count` whose placeholder is missing from `t`.
pub open spec fn first_missing_capture(t: Seq<char>, count: nat, idx: nat) -> Option<nat>
    decreases count + 1 - idx,
{
    if idx > count {
        None
    } else if !contains(t, match_token(idx)) {
        Some(idx)
    } else {
        first_missing_capture(t, count, idx + 1)
    }
}

pub open spec fn valid_availability(a: Seq<char>) -> bool {
    a == "active"@ || a == "blocked"@ || a == "deprecated"@
}

pub open spec fn valid_risk(r: Seq<char>) -> bool {
    r == "stable"@ || r == "cautious"@ || r == "high"@
}

pub open spec fn has_enabled_unit(units: Seq<UnitView>) -> bool {
    exists|i: int| 0 <= i < units.len() && units[i].enabled
}

pub open spec fn unit_id_repeated(units: Seq<UnitView>, j: int) -> bool {
    exists|m: int| 0 <= m < j && units[m].unit_id == units[j].unit_id
}

pub open spec fn app_id_repeated(ps: Seq<ProfileView>, k: int) -> bool {
    exists|m: int| 0 <= m < k && trim(ps[m].app_id) == trim(ps[k].app_id)
}

pub open spec fn unit_prefix(id: Seq<char>, uid: Seq<char>) -> Seq<char> {
    "profile "@ + id + " unit "@ + uid
}

/// The message of the first rule that unit `j` of profile `id` violates.
pub open spec fn unit_error(id: Seq<char>, units: Seq<UnitView>, j: int) -> Option<Seq<char>> {
    let u = units[j];
    let wc = glob_segment_count(u.source_path);
    if trim(u.unit_id).len() == 0 {
        Some("profile "@ + id + " has empty unit_id"@)
    } else if unit_id_repeated(units, j) {
        Some("profile "@ + id + " has duplicate unit_id: "@ + u.unit_id)
    } else if trim(u.source_path).len() == 0 {
        Some(unit_prefix(id, u.unit_id) + " has empty source_path"@)
    } else if u.enabled && trim(u.target_path_template).len() == 0 {
        Some(unit_prefix(id, u.unit_id) + " is enabled but target_path_template is empty"@)
    } else if u.enabled && wc == 0 && first_placeholder_from(u.target_path_template, 0) is Some {
        Some(
            unit_prefix(id, u.unit_id)
                + " source_path has no wildcard segment but target_path_template contains "@
                + first_placeholder_from(u.target_path_template, 0)->0,
        )
    } else if u.enabled && wc > 0 && first_missing_capture(u.target_path_template, wc, 1) is Some {
        Some(
            unit_prefix(id, u.unit_id) + " source_path has "@ + decimal(wc)
                + " wildcard segment(s) but target_path_template misses "@ + match_token(
                first_missing_capture(u.target_path_template, wc, 1)->0,
            ),
        )
    } else if !valid_risk(lower(trim(u.risk_level))) {
        Some(unit_prefix(id, u.unit_id) + " has invalid risk_level: "@ + u.risk_level)
    } else {
        None
    }
}

pub open spec fn units_error_from(id: Seq<char>, units: Seq<UnitView>, j: int) -> Option<Seq<char>>
    decreases units.len() - j,
{
    if j < 0 || j >= units.len() {
        None
    } else if unit_error(id, units, j) is Some {
        unit_error(id, units, j)
    } else {
        units_error_from(id, units, j + 1)
    }
}

/// The message of the first rule that profile `k` violates.
pub open spec fn profile_error(ps: Seq<ProfileView>, k: int) -> Option<Seq<char>> {
    let p = ps[k];
    let availability = lower(trim(p.availability));
    if trim(p.app_id).len() == 0 {
        Some("profile app_id cannot be empty"@)
    } else if app_id_repeated(ps, k) {
        Some("duplicate app_id found: "@ + p.app_id)
    } else if !valid_availability(availability) {
        Some("profile "@ + p.app_id + " has invalid availability: "@ + p.availability)
    } else if availability == "active"@ && !has_enabled_unit(p.relocation_units) {
        Some("profile "@ + p.app_id + " is active but has no enabled units"@)
    } else {
        units_error_from(p.app_id, p.relocation_units, 0)
    }
}

pub open spec fn profiles_error_from(ps: Seq<ProfileView>, k: int) -> Option<Seq<char>>
    decreases ps.len() - k,
{
    if k < 0 || k >= ps.len() {
        None
    } else if profile_error(ps, k) is Some {
        profile_error(ps, k)
    } else {
        profiles_error_from(ps, k + 1)
    }
}

/// The message of the first violated rule of a catalog, if any.
pub open spec fn validation_error(ps: Seq<ProfileView>) -> Option<Seq<char>> {
    profiles_error_from(ps, 0)
}

proof fn lemma_units_prefix_ok(id: Seq<char>, units: Seq<UnitView>, j: int)
    requires
        0 <= j <= units.len(),
        forall|m: int| 0 <= m < j ==> unit_error(id, units, m) is None,
    ensures
        units_error_from(id, units, 0) == units_error_from(id, units, j),
    decreases j,
{
    if j > 0 {
        lemma_units_prefix_ok(id, units, j - 1);
    }
}

proof fn lemma_profiles_prefix_ok(ps: Seq<ProfileView>, k: int)
    requires
        0 <= k <= ps.len(),
        forall|m: int| 0 <= m < k ==> profile_error(ps, m) is None,
    ensures
        profiles_error_from(ps, 0) == profiles_error_from(ps, k),
    decreases k,
{
    if k > 0 {
        lemma_profiles_prefix_ok(ps, k - 1);
    }
}

/// Number of `/`-separated segments of `path` holding `*`, `?` or `[`.
pub fn glob_segments(path: &str) -> (r: usize)
    ensures
        r == glob_segment_count(path@),
{
    let v = chars_of(path);
    let mut closed: usize = 0;
    let mut cur = false;
    let mut i: usize = 0;
    while i < v.len()
        invariant
            i <= v.len(),
            v@ == path@,
            closed + (if cur { 1int } else { 0int }) <= i,
            closed == closed_glob_segments(v@.take(i as int)),
            cur == last_segment_has_glob(v@.take(i as int)),
        decreases v.len() - i,
    {
        let c = v[i];
        proof {
            assert(v@.take(i + 1).drop_last() =~= v@.take(i as int));
            assert(v@.take(i + 1).last() == c);
        }
        if c == '/' {
            if cur {
                closed = closed + 1;
            }
            cur = false;
        } else {
            cur = cur || c == '*' || c == '?' || c == '[';
        }
        i = i + 1;
    }
    assert(v@.take(i as int) =~= path@);
    if cur {
        closed + 1
    } else {
        closed
    }
}

/// The first `{match_N}` placeholder of a target template, if any.
pub fn first_match_placeholder(template: &str) -> (r: Option<String>)
    ensures
        match r {
            Some(s) => first_placeholder_from(template@, 0) == Some(s@),
            None => first_placeholder_from(template@, 0) is None,
        },
{
    let t = chars_of(template);
    let prefix = chars_of("{match_");
    let mut b: usize = 0;
    while b <= t.len()
        invariant
            t@ == template@,
            prefix@ == "{match_"@,
            b <= t.len() + 1,
            first_placeholder_from(t@, 0) == first_placeholder_from(t@, b as int),
        decreases t.len() + 1 - b,
    {
        if match_at(&t, b, &prefix) {
            let start = b + prefix.len();
            let mut cursor = start;
            while cursor < t.len() && is_digit_char(t[cursor])
                invariant
                    start <= cursor <= t.len(),
                    digits_end(t@, start as int) == digits_end(t@, cursor as int),
                decreases t.len() - cursor,
            {
                cursor = cursor + 1;
            }
            proof {
                assert(digits_end(t@, cursor as int) == cursor);
                assert(start == b + "{match_"@.len());
            }
            if cursor > start && cursor < t.len() && t[cursor] == '}' {
                return Some(string_of(&t, b, cursor + 1));
            }
        }
        proof {
            assert(!placeholder_at(t@, b as int));
            assert(first_placeholder_from(t@, b as int) == first_placeholder_from(t@, b + 1));
        }
        if b == t.len() {
            assert(first_placeholder_from(t@, b + 1) is None);
            return None;
        }
        b = b + 1;
    }
    None
}

fn is_digit_char(c: char) -> (r: bool)
    ensures
        r == is_digit(c),
{
    let n = c as u32;
    48 <= n && n <= 57
}

/// The placeholder text `{match_N}`.
pub fn match_token_string(idx: usize) -> (r: String)
    ensures
        r@ == match_token(idx as nat),
{
    let mut s = owned("{match_");
    push_decimal(&mut s, idx);
    s.append("}");
    s
}

fn first_missing(template: &str, count: usize) -> (r: Option<usize>)
    ensures
        match r {
            Some(i) => first_missing_capture(template@, count as nat, 1) == Some(i as nat),
            None => first_missing_capture(template@, count as nat, 1) is None,
        },
{
    let mut idx: usize = 1;
    while idx <= count
        invariant
            1 <= idx,
            idx <= count + 1,
            first_missing_capture(template@, count as nat, 1) == first_missing_capture(
                template@,
                count as nat,
                idx as nat,
            ),
        decreases count + 1 - idx,
    {
        let token = match_token_string(idx);
        if !contains_str(template, &token) {
            return Some(idx);
        }
        if idx == count {
            assert(first_missing_capture(template@, count as nat, (idx + 1) as nat) is None);
            return None;
        }
        idx = idx + 1;
    }
    None
}

fn id_in(seen: &Vec<String>, id: &str) -> (r: bool)
    ensures
        r == exists|m: int| 0 <= m < seen@.len() && seen@[m]@ == id@,
{
    let mut i: usize = 0;
    while i < seen.len()
        invariant
            i <= seen.len(),
            forall|m: int| 0 <= m < i ==> seen@[m]@ != id@,
        decreases seen.len() - i,
    {
        if str_eq(&seen[i], id) {
            return true;
        }
        i = i + 1;
    }
    false
}

fn unit_message(app_id: &str, unit_id: &str, tail: &str) -> (r: String)
    ensures
        r@ == unit_prefix(app_id@, unit_id@) + tail@,
{
    let mut m = owned("profile ");
    m.append(app_id);
    m.append(" unit ");
    m.append(unit_id);
    m.append(tail);
    m
}

/// The first rule violated by unit `j` of a profile.
fn check_unit(app_id: &String, units: &Vec<RelocationUnit>, j: usize, seen: &Vec<String>) -> (r: Option<String>)
    requires
        j < units.len(),
        seen@.len() == j,
        forall|m: int| 0 <= m < j ==> seen@[m]@ == units@[m].unit_id@,
    ensures
        match r {
            Some(e) => unit_error(app_id@, units_view(units@), j as int) == Some(e@),
            None => unit_error(app_id@, units_view(units@), j as int) is None,
        },
{
    let ghost uv = units_view(units@);
    let u = &units[j];
    proof {
        assert(uv[j as int] == u@);
        assert(unit_id_repeated(uv, j as int) == exists|m: int| 0 <= m < seen@.len() && seen@[m]@
            == u.unit_id@) by {
            if unit_id_repeated(uv, j as int) {
                let m = choose|m: int| 0 <= m < j && uv[m].unit_id == uv[j as int].unit_id;
                assert(seen@[m]@ == uv[m].unit_id);
            }
            if exists|m: int| 0 <= m < seen@.len() && seen@[m]@ == u.unit_id@ {
                let m = choose|m: int| 0 <= m < seen@.len() && seen@[m]@ == u.unit_id@;
                assert(uv[m].unit_id == units@[m].unit_id@);
            }
        }
    }
    if trim_str(&u.unit_id).unicode_len() == 0 {
        let mut m = owned("profile ");
        m.append(app_id);
        m.append(" has empty unit_id");
        return Some(m);
    }
    if id_in(seen, &u.unit_id) {
        let mut m = owned("profile ");
        m.append(app_id);
        m.append(" has duplicate unit_id: ");
        m.append(&u.unit_id);
        return Some(m);
    }
    if trim_str(&u.source_path).unicode_len() == 0 {
        return Some(unit_message(app_id, &u.unit_id, " has empty source_path"));
    }
    if u.enabled && trim_str(&u.target_path_template).unicode_len() == 0 {
        return Some(unit_message(app_id, &u.unit_id, " is enabled but target_path_template is empty"));
    }
    let wildcard_count = glob_segments(&u.source_path);
    if u.enabled && wildcard_count == 0 {
        match first_match_placeholder(&u.target_path_template) {
            Some(placeholder) => {
                let mut m = unit_message(
                    app_id,
                    &u.unit_id,
                    " source_path has no wildcard segment but target_path_template contains ",
                );
                m.append(&placeholder);
                return Some(m);
            },
            None => {},
        }
    }
    if u.enabled && wildcard_count > 0 {
        match first_missing(&u.target_path_template, wildcard_count) {
            Some(idx) => {
                let mut m = unit_message(app_id, &u.unit_id, " source_path has ");
                push_decimal(&mut m, wildcard_count);
                m.append(" wildcard segment(s) but target_path_template misses ");
                let token = match_token_string(idx);
                m.append(&token);
                return Some(m);
            },
            None => {},
        }
    }
    let risk = to_lower(trim_str(&u.risk_level));
    if !(str_eq(&risk, "stable") || str_eq(&risk, "cautious") || str_eq(&risk, "high")) {
        return Some(unit_message(app_id, &u.unit_id, " has invalid risk_level: ").concat(&u.risk_level));
    }
    None
}

fn check_profile(profiles: &Vec<AppProfile>, k: usize, seen: &Vec<String>) -> (r: Option<String>)
    requires
        k < profiles.len(),
        seen@.len() == k,
        forall|m: int| 0 <= m < k ==> seen@[m]@ == trim(profiles@[m].app_id@),
    ensures
        match r {
            Some(e) => profile_error(profiles_view(profiles@), k as int) == Some(e@),
            None => profile_error(profiles_view(profiles@), k as int) is None,
        },
{
    let ghost pv = profiles_view(profiles@);
    let p = &profiles[k];
    let app_id = trim_str(&p.app_id);
    proof {
        assert(pv[k as int] == p@);
        assert(app_id@ == trim(pv[k as int].app_id));
        if app_id_repeated(pv, k as int) {
            let m = choose|m: int| 0 <= m < k && trim(pv[m].app_id) == trim(pv[k as int].app_id);
            assert(pv[m] == profiles@[m]@);
            assert(seen@[m]@ == app_id@);
        }
        if exists|m: int| 0 <= m < seen@.len() && seen@[m]@ == app_id@ {
            let m = choose|m: int| 0 <= m < seen@.len() && seen@[m]@ == app_id@;
            assert(pv[m] == profiles@[m]@);
            assert(trim(pv[m].app_id) == trim(pv[k as int].app_id));
            assert(app_id_repeated(pv, k as int));
        }
    }
    if app_id.unicode_len() == 0 {
        return Some(owned("profile app_id cannot be empty"));
    }
    if id_in(seen, app_id) {
        let mut m = owned("duplicate app_id found: ");
        m.append(&p.app_id);
        return Some(m);
    }
    let availability = to_lower(trim_str(&p.availability));
    if !(str_eq(&availability, "active") || str_eq(&availability, "blocked") || str_eq(
        &availability,
        "deprecated",
    )) {
        let mut m = owned("profile ");
        m.append(&p.app_id);
        m.append(" has invalid availability: ");
        m.append(&p.availability);
        return Some(m);
    }
    let units = &p.relocation_units;
    let ghost uv = units_view(units@);
    let mut any_enabled = false;
    let mut i: usize = 0;
    while i < units.len()
        invariant
            i <= units.len(),
            uv == units_view(units@),
            any_enabled == exists|m: int| 0 <= m < i && uv[m].enabled,
        decreases units.len() - i,
    {
        if units[i].enabled {
            any_enabled = true;
        }
        assert(uv[i as int] == units@[i as int]@);
        i = i + 1;
    }
    if str_eq(&availability, "active") && !any_enabled {
        let mut m = owned("profile ");
        m.append(&p.app_id);
        m.append(" is active but has no enabled units");
        return Some(m);
    }
    proof {
        assert(has_enabled_unit(uv) == any_enabled);
        assert(availability@ == lower(trim(pv[k as int].availability)));
        assert(profile_error(pv, k as int) == units_error_from(p.app_id@, uv, 0));
    }
    let mut unit_ids: Vec<String> = Vec::new();
    let mut j: usize = 0;
    while j < units.len()
        invariant
            j <= units.len(),
            profile_error(pv, k as int) == units_error_from(p.app_id@, uv, 0),
            k < profiles.len(),
            pv == profiles_view(profiles@),
            uv == units_view(units@),
            uv == pv[k as int].relocation_units,
            unit_ids@.len() == j,
            forall|m: int| 0 <= m < j ==> unit_ids@[m]@ == units@[m].unit_id@,
            forall|m: int| 0 <= m < j ==> unit_error(p.app_id@, uv, m) is None,
        decreases units.len() - j,
    {
        match check_unit(&p.app_id, units, j, &unit_ids) {
            Some(e) => {
                proof {
                    lemma_units_prefix_ok(p.app_id@, uv, j as int);
                    assert(unit_error(p.app_id@, uv, j as int) == Some(e@));
                    assert(units_error_from(p.app_id@, uv, j as int) == Some(e@));
                    assert(profile_error(pv, k as int) == Some(e@));
                }
                return Some(e);
            },
            None => {},
        }
        unit_ids.push(units[j].unit_id.clone());
        j = j + 1;
    }
    proof {
        lemma_units_prefix_ok(p.app_id@, uv, j as int);
    }
    None
}

/// The rules for unit `j` of a profile: a non-blank identifier not used by
/// an earlier unit, a non-blank source path, and, when enabled, a non-blank
/// target template whose `{match_<n>}` placeholders fit the source's
/// wildcard segments (none without wildcards, each of `{match_1}` to
/// `{match_n}` with `n` of them); and a risk level `stable`, `cautious` or
/// `high` (trimmed, in any case).
pub open spec fn unit_rules(units: Seq<UnitView>, j: int) -> bool {
    let u = units[j];
    let wc = glob_segment_count(u.source_path);
    &&& trim(u.unit_id).len() > 0
    &&& !unit_id_repeated(units, j)
    &&& trim(u.source_path).len() > 0
    &&& u.enabled ==> trim(u.target_path_template).len() > 0
    &&& u.enabled && wc == 0 ==> first_placeholder_from(u.target_path_template, 0) is None
    &&& u.enabled && wc > 0 ==> first_missing_capture(u.target_path_template, wc, 1) is None
    &&& valid_risk(lower(trim(u.risk_level)))
}

/// The rules for profile `k` of a catalog: a non-blank identifier unique
/// (trimmed) in the catalog, an availability `active`, `blocked` or
/// `deprecated` (trimmed, in any case), an enabled unit when active, and
/// the rules of each of its units.
pub open spec fn profile_rules(ps: Seq<ProfileView>, k: int) -> bool {
    let p = ps[k];
    &&& trim(p.app_id).len() > 0
    &&& !app_id_repeated(ps, k)
    &&& valid_availability(lower(trim(p.availability)))
    &&& lower(trim(p.availability)) == "active"@ ==> has_enabled_unit(p.relocation_units)
    &&& forall|j: int| 0 <= j < p.relocation_units.len() ==> #[trigger] unit_rules(p.relocation_units, j)
}

proof fn lemma_units_error_none(id: Seq<char>, units: Seq<UnitView>, j: int)
    requires
        0 <= j <= units.len(),
    ensures
        (units_error_from(id, units, j) is None) <==> forall|m: int| j <= m < units.len() ==> #[trigger] unit_rules(units, m),
    decreases units.len() - j,
{
    if j < units.len() {
        lemma_units_error_none(id, units, j + 1);
        assert((unit_error(id, units, j) is None) <==> unit_rules(units, j));
        if units_error_from(id, units, j) is None {
            assert forall|m: int| j <= m < units.len() implies #[trigger] unit_rules(units, m) by {
                if m > j {
                }
            }
        }
    }
}

proof fn lemma_profiles_error_none(ps: Seq<ProfileView>, k: int)
    requires
        0 <= k <= ps.len(),
    ensures
        (profiles_error_from(ps, k) is None) <==> forall|m: int| k <= m < ps.len() ==> #[trigger] profile_rules(ps, m),
    decreases ps.len() - k,
{
    if k < ps.len() {
        lemma_profiles_error_none(ps, k + 1);
        let p = ps[k];
        lemma_units_error_none(p.app_id, p.relocation_units, 0);
        assert((profile_error(ps, k) is None) <==> profile_rules(ps, k));
        if profiles_error_from(ps, k) is None {
            assert forall|m: int| k <= m < ps.len() implies #[trigger] profile_rules(ps, m) by {
                if m > k {
                }
            }
        }
    }
}

/// A catalog is accepted exactly when every profile satisfies its rules.
pub proof fn catalog_valid_iff_rules_hold(ps: Seq<ProfileView>)
    ensures
        (validation_error(ps) is None) <==> forall|k: int| 0 <= k < ps.len() ==> #[trigger] profile_rules(ps, k),
{
    lemma_profiles_error_none(ps, 0);
}

/// Checks a normalised catalog: `Ok` exactly when no rule is violated, else
/// the message of the first violated rule.
pub fn validate_profiles(profiles: &Vec<AppProfile>) -> (r: Result<(), String>)
    ensures
        match r {
            Ok(()) => validation_error(profiles_view(profiles@)) is None,
            Err(e) => validation_error(profiles_view(profiles@)) == Some(e@),
        },
{
    let ghost pv = profiles_view(profiles@);
    let mut seen: Vec<String> = Vec::new();
    let mut k: usize = 0;
    while k < profiles.len()
        invariant
            k <= profiles.len(),
            pv == profiles_view(profiles@),
            seen@.len() == k,
            forall|m: int| 0 <= m < k ==> seen@[m]@ == trim(profiles@[m].app_id@),
            forall|m: int| 0 <= m < k ==> profile_error(pv, m) is None,
        decreases profiles.len() - k,
    {
        match check_profile(profiles, k, &seen) {
            Some(e) => {
                proof {
                    lemma_profiles_prefix_ok(pv, k as int);
                }
                return Err(e);
            },
            None => {},
        }
        seen.push(trimmed(&profiles[k].app_id));
        k = k + 1;
    }
    proof {
        lemma_profiles_prefix_ok(pv, k as int);
    }
    Ok(())
}

} // verus!
