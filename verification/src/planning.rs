//! Choosing what to relocate: the relocation units of a profile, the unit a
//! request selects, where its data goes, and how a profile is matched to an
//! installed application bundle.

use crate::paths::{expand_tilde, expand_tilde_spec, volume_mount_root, volume_root};
use crate::profiles::{
    generated_unit_id, opt_view, strings_view, trimmed_or, AppProfile, ProfileView, RelocationUnit, UnitView,
};
use crate::records::clone_opt;
use crate::text::{
    contains, contains_str, is_blank, lower, matches_at, owned, push_decimal, replace_all, replace_str, starts_with,
    str_eq, join3, to_lower, trim, trim_str,
};
use vstd::prelude::*;

verus! {

/// A relocation unit as the planner uses it: identifiers filled in and the
/// source path expanded.
#[derive(Debug)]
pub struct MigrationUnitPlan {
    pub unit_id: String,
    pub display_name: String,
    pub source_path: String,
    pub target_path_template: String,
    pub default_enabled: bool,
    pub enabled: bool,
    pub risk_level: String,
    pub requires_confirmation: bool,
    pub blocked_reason: Option<String>,
    pub allow_bootstrap_if_source_missing: bool,
    pub category: String,
}

impl View for MigrationUnitPlan {
    type V = UnitView;

    open spec fn view(&self) -> UnitView {
        UnitView {
            unit_id: self.unit_id@,
            display_name: self.display_name@,
            source_path: self.source_path@,
            target_path_template: self.target_path_template@,
            default_enabled: self.default_enabled,
            enabled: self.enabled,
            risk_level: self.risk_level@,
            requires_confirmation: self.requires_confirmation,
            blocked_reason: opt_view(self.blocked_reason),
            allow_bootstrap_if_source_missing: self.allow_bootstrap_if_source_missing,
            category: self.category@,
        }
    }
}

impl MigrationUnitPlan {
    /// An identical copy.
    pub fn copy(&self) -> (r: MigrationUnitPlan)
        ensures
            r@ == self@,
    {
        MigrationUnitPlan {
            unit_id: self.unit_id.clone(),
            display_name: self.display_name.clone(),
            source_path: self.source_path.clone(),
            target_path_template: self.target_path_template.clone(),
            default_enabled: self.default_enabled,
            enabled: self.enabled,
            risk_level: self.risk_level.clone(),
            requires_confirmation: self.requires_confirmation,
            blocked_reason: clone_opt(&self.blocked_reason),
            allow_bootstrap_if_source_missing: self.allow_bootstrap_if_source_missing,
            category: self.category.clone(),
        }
    }
}

pub open spec fn plans_view(v: Seq<MigrationUnitPlan>) -> Seq<UnitView> {
    v.map_values(|u: MigrationUnitPlan| u@)
}

/// The target path of a unit: its template with `{target_root}` replaced, or
/// `<target_root>/AppData/<display name>` when the template is blank.
pub open spec fn render_target_spec(template: Seq<char>, target_root: Seq<char>, fallback: Seq<char>) -> Seq<char> {
    if trim(template).len() == 0 {
        target_root + "/AppData/"@ + fallback
    } else {
        replace_all(template, "{target_root}"@, target_root)
    }
}

pub fn render_target_path(template: &str, target_root: &str, fallback_display_name: &str) -> (r: String)
    ensures
        r@ == render_target_spec(template@, target_root@, fallback_display_name@),
{
    if is_blank(template) {
        return join3(target_root, "/AppData/", fallback_display_name);
    }
    proof {
        reveal_strlit("{target_root}");
    }
    replace_str(template, "{target_root}", target_root)
}

/// The plan of the unit at position `index`, or `None` when its source path
/// is blank.
pub open spec fn plan_unit_spec(index: int, u: UnitView, home: Option<Seq<char>>) -> Option<UnitView> {
    let source = trim(u.source_path);
    if source.len() == 0 {
        None
    } else {
        let unit_id = trimmed_or(u.unit_id, generated_unit_id(index));
        Some(
            UnitView {
                unit_id: unit_id,
                display_name: trimmed_or(u.display_name, unit_id),
                source_path: expand_tilde_spec(source, home),
                target_path_template: u.target_path_template,
                default_enabled: u.default_enabled,
                enabled: u.enabled,
                risk_level: u.risk_level,
                requires_confirmation: u.requires_confirmation,
                blocked_reason: u.blocked_reason,
                allow_bootstrap_if_source_missing: u.allow_bootstrap_if_source_missing,
                category: u.category,
            },
        )
    }
}

pub open spec fn home_view(home: Option<&str>) -> Option<Seq<char>> {
    match home {
        Some(h) => Some(h@),
        None => None,
    }
}

/// The plan of one unit; `home` expands a leading `~/` of its source path.
pub fn normalize_profile_unit(index: usize, raw_unit: &RelocationUnit, home: Option<&str>) -> (r: Option<
    MigrationUnitPlan,
>)
    requires
        index < usize::MAX,
    ensures
        match r {
            Some(p) => plan_unit_spec(index as int, raw_unit@, home_view(home)) == Some(p@),
            None => plan_unit_spec(index as int, raw_unit@, home_view(home)) is None,
        },
{
    let source = trim_str(raw_unit.source_path.as_str());
    if source.unicode_len() == 0 {
        return None;
    }
    let unit_id = if is_blank(&raw_unit.unit_id) {
        let mut s = owned("unit-");
        push_decimal(&mut s, index + 1);
        proof {
            reveal_strlit("unit-");
        }
        s
    } else {
        owned(trim_str(raw_unit.unit_id.as_str()))
    };
    let display_name = if is_blank(&raw_unit.display_name) {
        unit_id.clone()
    } else {
        owned(trim_str(raw_unit.display_name.as_str()))
    };
    Some(
        MigrationUnitPlan {
            unit_id,
            display_name,
            source_path: expand_tilde(source, home),
            target_path_template: raw_unit.target_path_template.clone(),
            default_enabled: raw_unit.default_enabled,
            enabled: raw_unit.enabled,
            risk_level: raw_unit.risk_level.clone(),
            requires_confirmation: raw_unit.requires_confirmation,
            blocked_reason: clone_opt(&raw_unit.blocked_reason),
            allow_bootstrap_if_source_missing: raw_unit.allow_bootstrap_if_source_missing,
            category: raw_unit.category.clone(),
        },
    )
}

/// Some unit of `s` has the identifier `id`.
pub open spec fn has_unit_id(s: Seq<UnitView>, id: Seq<char>) -> bool {
    exists|i: int| 0 <= i < s.len() && s[i].unit_id == id
}

/// The plans of a profile's units in order, without blank sources, keeping
/// only the first unit of each identifier.
pub open spec fn planned_units(units: Seq<UnitView>, home: Option<Seq<char>>) -> Seq<UnitView>
    decreases units.len(),
{
    if units.len() == 0 {
        Seq::empty()
    } else {
        let prev = planned_units(units.drop_last(), home);
        match plan_unit_spec(units.len() - 1, units.last(), home) {
            Some(p) => if has_unit_id(prev, p.unit_id) {
                prev
            } else {
                prev.push(p)
            },
            None => prev,
        }
    }
}

fn has_unit(units: &Vec<MigrationUnitPlan>, id: &str) -> (r: bool)
    ensures
        r == has_unit_id(plans_view(units@), id@),
{
    let mut i: usize = 0;
    while i < units.len()
        invariant
            i <= units@.len(),
            forall|j: int| 0 <= j < i ==> units@[j].unit_id@ != id@,
        decreases units@.len() - i,
    {
        if str_eq(units[i].unit_id.as_str(), id) {
            assert(plans_view(units@)[i as int].unit_id == id@);
            return true;
        }
        i = i + 1;
    }
    false
}

/// The plans of all usable units of a profile.
pub fn profile_relocation_units(profile: &AppProfile, home: Option<&str>) -> (r: Vec<MigrationUnitPlan>)
    requires
        profile.relocation_units@.len() < usize::MAX,
    ensures
        plans_view(r@) == planned_units(profile@.relocation_units, home_view(home)),
{
    let ghost raw = profile@.relocation_units;
    let mut out: Vec<MigrationUnitPlan> = Vec::new();
    let mut i: usize = 0;
    while i < profile.relocation_units.len()
        invariant
            i <= profile.relocation_units@.len(),
            profile.relocation_units@.len() < usize::MAX,
            raw == profile@.relocation_units,
            plans_view(out@) == planned_units(raw.take(i as int), home_view(home)),
        decreases profile.relocation_units@.len() - i,
    {
        let ghost prev = out@;
        proof {
            assert(raw.take(i + 1).drop_last() =~= raw.take(i as int));
            assert(raw.take(i + 1).last() == raw[i as int]);
            assert(raw[i as int] == profile.relocation_units@[i as int]@);
        }
        match normalize_profile_unit(i, &profile.relocation_units[i], home) {
            Some(plan) => {
                if !has_unit(&out, plan.unit_id.as_str()) {
                    out.push(plan);
                    assert(plans_view(out@) =~= plans_view(prev).push(out@.last()@));
                }
            },
            None => {},
        }
        i = i + 1;
    }
    assert(raw.take(i as int) =~= raw);
    out
}

/// Whether the source of the unit at `i` was found (positions past the end
/// count as not found).
pub open spec fn exists_at(e: Seq<bool>, i: int) -> bool {
    0 <= i < e.len() && e[i]
}

/// The preference tiers of the default unit: enabled, default and present;
/// enabled and default; enabled and present; enabled.
pub open spec fn tier_ok(u: UnitView, present: bool, tier: int) -> bool {
    if tier == 0 {
        u.enabled && u.default_enabled && present
    } else if tier == 1 {
        u.enabled && u.default_enabled
    } else if tier == 2 {
        u.enabled && present
    } else {
        u.enabled
    }
}

pub open spec fn tier_empty(units: Seq<UnitView>, e: Seq<bool>, tier: int) -> bool {
    forall|j: int| 0 <= j < units.len() ==> !tier_ok(units[j], exists_at(e, j), tier)
}

/// `k` is the first unit of tier `tier`.
pub open spec fn first_in_tier(units: Seq<UnitView>, e: Seq<bool>, tier: int, k: int) -> bool {
    &&& 0 <= k < units.len()
    &&& tier_ok(units[k], exists_at(e, k), tier)
    &&& forall|j: int| 0 <= j < k ==> !tier_ok(units[j], exists_at(e, j), tier)
}

/// `k` is the default unit: the first of the best tier that has any.
pub open spec fn default_pick(units: Seq<UnitView>, e: Seq<bool>, k: int) -> bool {
    ||| first_in_tier(units, e, 0, k)
    ||| tier_empty(units, e, 0) && first_in_tier(units, e, 1, k)
    ||| tier_empty(units, e, 0) && tier_empty(units, e, 1) && first_in_tier(units, e, 2, k)
    ||| tier_empty(units, e, 0) && tier_empty(units, e, 1) && tier_empty(units, e, 2) && first_in_tier(
        units,
        e,
        3,
        k,
    )
}

fn find_in_tier(units: &Vec<MigrationUnitPlan>, source_exists: &Vec<bool>, tier: u8) -> (r: Option<usize>)
    requires
        tier <= 3,
    ensures
        match r {
            Some(k) => first_in_tier(plans_view(units@), source_exists@, tier as int, k as int),
            None => tier_empty(plans_view(units@), source_exists@, tier as int),
        },
{
    let ghost v = plans_view(units@);
    let mut i: usize = 0;
    while i < units.len()
        invariant
            i <= units@.len(),
            tier <= 3,
            v == plans_view(units@),
            forall|j: int| 0 <= j < i ==> !tier_ok(v[j], exists_at(source_exists@, j), tier as int),
        decreases units@.len() - i,
    {
        let present = i < source_exists.len() && source_exists[i];
        let u = &units[i];
        let ok = if tier == 0 {
            u.enabled && u.default_enabled && present
        } else if tier == 1 {
            u.enabled && u.default_enabled
        } else if tier == 2 {
            u.enabled && present
        } else {
            u.enabled
        };
        assert(v[i as int] == units@[i as int]@);
        if ok {
            return Some(i);
        }
        i = i + 1;
    }
    None
}

/// The default unit: enabled units first, preferring default units, and
/// among those units whose source exists.
pub fn pick_default_unit(units: &Vec<MigrationUnitPlan>, source_exists: &Vec<bool>) -> (r: Option<MigrationUnitPlan>)
    ensures
        match r {
            Some(u) => exists|k: int| default_pick(plans_view(units@), source_exists@, k) && u@ == plans_view(units@)[k],
            None => tier_empty(plans_view(units@), source_exists@, 3),
        },
{
    let ghost v = plans_view(units@);
    let mut tier: u8 = 0;
    while tier < 4
        invariant
            tier <= 4,
            v == plans_view(units@),
            forall|t: int| 0 <= t < tier ==> tier_empty(v, source_exists@, t),
        decreases 4 - tier,
    {
        match find_in_tier(units, source_exists, tier) {
            Some(k) => {
                assert(default_pick(v, source_exists@, k as int));
                let u = units[k].copy();
                return Some(u);
            },
            None => {},
        }
        tier = tier + 1;
    }
    assert(tier_empty(v, source_exists@, 3));
    None
}

/// The unit of a profile a request selects: the unit named `unit_id` (after
/// trimming), or the default unit when none is named.
pub open spec fn named_pick(units: Seq<UnitView>, id: Seq<char>, k: int) -> bool {
    &&& 0 <= k < units.len()
    &&& units[k].unit_id == trim(id)
    &&& forall|j: int| 0 <= j < k ==> units[j].unit_id != trim(id)
}

/// `r` is the unit selected among `units`: the first named `unit_id` (after
/// trimming), or the default unit when none is named.
pub open spec fn pick_outcome(units: Seq<UnitView>, unit_id: Option<Seq<char>>, e: Seq<bool>, r: Option<UnitView>) -> bool {
    match unit_id {
        Some(id) => match r {
            Some(u) => exists|k: int| named_pick(units, id, k) && u == units[k],
            None => forall|j: int| 0 <= j < units.len() ==> units[j].unit_id != trim(id),
        },
        None => match r {
            Some(u) => exists|k: int| default_pick(units, e, k) && u == units[k],
            None => tier_empty(units, e, 3),
        },
    }
}

pub fn pick_relocation_unit(
    profile: &AppProfile,
    unit_id: Option<&str>,
    home: Option<&str>,
    source_exists: &Vec<bool>,
) -> (r: Option<MigrationUnitPlan>)
    requires
        profile.relocation_units@.len() < usize::MAX,
    ensures
        pick_outcome(
            planned_units(profile@.relocation_units, home_view(home)),
            match unit_id {
                Some(id) => Some(id@),
                None => None,
            },
            source_exists@,
            match r {
                Some(u) => Some(u@),
                None => None,
            },
        ),
{
    let units = profile_relocation_units(profile, home);
    let ghost v = plans_view(units@);
    if units.len() == 0 {
        return None;
    }
    match unit_id {
        Some(id) => {
            let wanted = trim_str(id);
            let mut i: usize = 0;
            while i < units.len()
                invariant
                    i <= units@.len(),
                    v == plans_view(units@),
                    v == planned_units(profile@.relocation_units, home_view(home)),
                    wanted@ == trim(id@),
                    unit_id == Some(id),
                    forall|j: int| 0 <= j < i ==> v[j].unit_id != trim(id@),
                decreases units@.len() - i,
            {
                assert(v[i as int] == units@[i as int]@);
                if str_eq(units[i].unit_id.as_str(), wanted) {
                    assert(named_pick(v, id@, i as int));
                    let picked = units[i].copy();
                    assert(picked@ == v[i as int]);
                    return Some(picked);
                }
                i = i + 1;
            }
            None
        },
        None => pick_default_unit(&units, source_exists),
    }
}

/// Where a unit's data goes under a target root.
pub fn target_path_for_unit(unit: &MigrationUnitPlan, target_root: &str) -> (r: String)
    ensures
        r@ == render_target_spec(unit.target_path_template@, target_root@, unit.display_name@),
{
    render_target_path(unit.target_path_template.as_str(), target_root, unit.display_name.as_str())
}

/// `str::to_ascii_lowercase` applied to each string.
pub open spec fn lower_all(s: Seq<Seq<char>>) -> Seq<Seq<char>> {
    s.map_values(|x: Seq<char>| lower(x))
}

/// Application names that the JetBrains cache profile also matches.
pub open spec fn jetbrains_tokens() -> Seq<Seq<char>> {
    seq![
        "intellij idea"@,
        "pycharm"@,
        "webstorm"@,
        "goland"@,
        "clion"@,
        "rubymine"@,
        "datagrip"@,
        "android studio"@,
    ]
}

/// Lower-case names that identify a profile's application: its process
/// names, display name, identifier and bundle identifiers.
pub open spec fn match_hints(p: ProfileView) -> Seq<Seq<char>> {
    lower_all(p.process_names) + seq![lower(p.display_name), lower(p.app_id)] + lower_all(p.bundle_ids) + if p.app_id
        == "jetbrains-caches"@ {
        jetbrains_tokens()
    } else {
        Seq::empty()
    }
}

fn push_lowered(out: &mut Vec<String>, items: &Vec<String>)
    ensures
        strings_view(final(out)@) == strings_view(old(out)@) + lower_all(strings_view(items@)),
{
    let ghost start = strings_view(out@);
    let mut i: usize = 0;
    while i < items.len()
        invariant
            i <= items@.len(),
            strings_view(out@) == start + lower_all(strings_view(items@.take(i as int))),
        decreases items@.len() - i,
    {
        let ghost before = out@;
        out.push(to_lower(items[i].as_str()));
        proof {
            assert(strings_view(out@) =~= strings_view(before).push(lower(items@[i as int]@)));
            assert(lower_all(strings_view(items@.take(i + 1))) =~= lower_all(strings_view(items@.take(i as int))).push(
                lower(items@[i as int]@),
            ));
        }
        i = i + 1;
    }
    assert(items@.take(i as int) =~= items@);
}

pub fn profile_match_hints(profile: &AppProfile) -> (r: Vec<String>)
    ensures
        strings_view(r@) == match_hints(profile@),
{
    let mut hints: Vec<String> = Vec::new();
    push_lowered(&mut hints, &profile.process_names);
    hints.push(to_lower(profile.display_name.as_str()));
    hints.push(to_lower(profile.app_id.as_str()));
    push_lowered(&mut hints, &profile.bundle_ids);
    if str_eq(profile.app_id.as_str(), "jetbrains-caches") {
        let tokens: Vec<String> = vec![
            owned("intellij idea"),
            owned("pycharm"),
            owned("webstorm"),
            owned("goland"),
            owned("clion"),
            owned("rubymine"),
            owned("datagrip"),
            owned("android studio"),
        ];
        let ghost before = strings_view(hints@);
        let mut i: usize = 0;
        while i < tokens.len()
            invariant
                i <= tokens@.len(),
                strings_view(tokens@) == jetbrains_tokens(),
                strings_view(hints@) == before + strings_view(tokens@).take(i as int),
            decreases tokens@.len() - i,
        {
            let ghost prev = hints@;
            hints.push(tokens[i].clone());
            assert(strings_view(hints@) =~= strings_view(prev).push(tokens@[i as int]@));
            assert(strings_view(tokens@).take(i + 1) =~= strings_view(tokens@).take(i as int).push(
                tokens@[i as int]@,
            ));
            i = i + 1;
        }
        assert(strings_view(tokens@).take(i as int) =~= jetbrains_tokens());
        assert(strings_view(hints@) =~= match_hints(profile@));
    } else {
        assert(strings_view(hints@) =~= match_hints(profile@));
    }
    hints
}

/// An application bundle found on disk, with its lower-case file stem and
/// bundle identifier.
#[derive(Debug)]
pub struct InstalledBundle {
    pub path: String,
    pub stem_lc: String,
    pub bundle_id_lc: Option<String>,
}

pub struct BundleView {
    pub path: Seq<char>,
    pub stem_lc: Seq<char>,
    pub bundle_id_lc: Option<Seq<char>>,
}

impl View for InstalledBundle {
    type V = BundleView;

    open spec fn view(&self) -> BundleView {
        BundleView { path: self.path@, stem_lc: self.stem_lc@, bundle_id_lc: opt_view(self.bundle_id_lc) }
    }
}

pub open spec fn bundles_view(v: Seq<InstalledBundle>) -> Seq<BundleView> {
    v.map_values(|b: InstalledBundle| b@)
}

/// The profile's bundle identifiers, trimmed and lower-cased, blanks dropped.
pub open spec fn target_bundle_ids(ids: Seq<Seq<char>>) -> Seq<Seq<char>>
    decreases ids.len(),
{
    if ids.len() == 0 {
        Seq::empty()
    } else {
        let prev = target_bundle_ids(ids.drop_last());
        let x = lower(trim(ids.last()));
        if x.len() > 0 {
            prev.push(x)
        } else {
            prev
        }
    }
}

pub open spec fn id_match(targets: Seq<Seq<char>>, b: BundleView) -> bool {
    match b.bundle_id_lc {
        Some(id) => targets.contains(id),
        None => false,
    }
}

/// A non-blank hint equals the bundle's stem, or one contains the other.
pub open spec fn hint_fits(hint: Seq<char>, stem: Seq<char>) -> bool {
    let t = trim(hint);
    t.len() > 0 && (stem == t || contains(stem, t) || contains(t, stem))
}

pub open spec fn hint_match(hints: Seq<Seq<char>>, b: BundleView) -> bool {
    exists|h: int| 0 <= h < hints.len() && hint_fits(hints[h], b.stem_lc)
}

/// `k` is the first bundle whose identifier is one of `targets`.
pub open spec fn first_by_id(bundles: Seq<BundleView>, targets: Seq<Seq<char>>, k: int) -> bool {
    &&& 0 <= k < bundles.len()
    &&& id_match(targets, bundles[k])
    &&& forall|j: int| 0 <= j < k ==> !id_match(targets, bundles[j])
}

pub open spec fn none_by_id(bundles: Seq<BundleView>, targets: Seq<Seq<char>>) -> bool {
    forall|j: int| 0 <= j < bundles.len() ==> !id_match(targets, bundles[j])
}

/// `k` is the first bundle that one of `hints` fits.
pub open spec fn first_by_hint(bundles: Seq<BundleView>, hints: Seq<Seq<char>>, k: int) -> bool {
    &&& 0 <= k < bundles.len()
    &&& hint_match(hints, bundles[k])
    &&& forall|j: int| 0 <= j < k ==> !hint_match(hints, bundles[j])
}

pub open spec fn none_by_hint(bundles: Seq<BundleView>, hints: Seq<Seq<char>>) -> bool {
    forall|j: int| 0 <= j < bundles.len() ==> !hint_match(hints, bundles[j])
}

fn lowered_targets(ids: &Vec<String>) -> (r: Vec<String>)
    ensures
        strings_view(r@) == target_bundle_ids(strings_view(ids@)),
{
    let mut r: Vec<String> = Vec::new();
    let mut i: usize = 0;
    while i < ids.len()
        invariant
            i <= ids@.len(),
            strings_view(r@) == target_bundle_ids(strings_view(ids@.take(i as int))),
        decreases ids@.len() - i,
    {
        proof {
            assert(strings_view(ids@.take(i + 1)).drop_last() =~= strings_view(ids@.take(i as int)));
        }
        let x = to_lower(trim_str(ids[i].as_str()));
        if x.unicode_len() > 0 {
            let ghost prev = r@;
            r.push(x);
            assert(strings_view(r@) =~= strings_view(prev).push(x@));
        }
        i = i + 1;
    }
    assert(ids@.take(i as int) =~= ids@);
    r
}

fn contains_string(v: &Vec<String>, x: &str) -> (r: bool)
    ensures
        r == strings_view(v@).contains(x@),
{
    let mut i: usize = 0;
    while i < v.len()
        invariant
            i <= v@.len(),
            forall|j: int| 0 <= j < i ==> v@[j]@ != x@,
        decreases v@.len() - i,
    {
        if str_eq(v[i].as_str(), x) {
            assert(strings_view(v@)[i as int] == x@);
            return true;
        }
        i = i + 1;
    }
    proof {
        if strings_view(v@).contains(x@) {
            let j = choose|j: int| 0 <= j < strings_view(v@).len() && strings_view(v@)[j] == x@;
            assert(v@[j]@ == x@);
        }
    }
    false
}

fn hint_fits_exec(hint: &str, stem: &str) -> (r: bool)
    ensures
        r == hint_fits(hint@, stem@),
{
    let t = trim_str(hint);
    t.unicode_len() > 0 && (str_eq(stem, t) || contains_str(stem, t) || contains_str(t, stem))
}

fn any_hint_fits(hints: &Vec<String>, stem: &str) -> (r: bool)
    ensures
        r == exists|h: int| 0 <= h < hints@.len() && hint_fits(strings_view(hints@)[h], stem@),
{
    let mut i: usize = 0;
    while i < hints.len()
        invariant
            i <= hints@.len(),
            forall|j: int| 0 <= j < i ==> !hint_fits(strings_view(hints@)[j], stem@),
        decreases hints@.len() - i,
    {
        assert(strings_view(hints@)[i as int] == hints@[i as int]@);
        if hint_fits_exec(hints[i].as_str(), stem) {
            return true;
        }
        i = i + 1;
    }
    false
}

/// The installed bundle of a profile's application: the first bundle whose
/// identifier is one of the profile's, else the first whose stem fits one of
/// the profile's match hints.
pub fn match_profile_bundle(profile: &AppProfile, installed_bundles: &Vec<InstalledBundle>) -> (r: Option<String>)
    ensures
        ({
            let bs = bundles_view(installed_bundles@);
            let targets = target_bundle_ids(profile@.bundle_ids);
            let hints = match_hints(profile@);
            match r {
                Some(path) => exists|k: int|
                    (first_by_id(bs, targets, k) || (none_by_id(bs, targets) && first_by_hint(bs, hints, k)))
                        && path@ == bs[k].path,
                None => none_by_id(bs, targets) && none_by_hint(bs, hints),
            }
        }),
{
    let ghost bs = bundles_view(installed_bundles@);
    let ghost targets_v = target_bundle_ids(profile@.bundle_ids);
    if installed_bundles.len() == 0 {
        return None;
    }
    let targets = lowered_targets(&profile.bundle_ids);
    let mut i: usize = 0;
    while i < installed_bundles.len()
        invariant
            i <= installed_bundles@.len(),
            bs == bundles_view(installed_bundles@),
            strings_view(targets@) == targets_v,
            targets_v == target_bundle_ids(profile@.bundle_ids),
            forall|j: int| 0 <= j < i ==> !id_match(targets_v, bs[j]),
        decreases installed_bundles@.len() - i,
    {
        let b = &installed_bundles[i];
        assert(bs[i as int] == b@);
        let hit = match &b.bundle_id_lc {
            Some(id) => contains_string(&targets, id.as_str()),
            None => false,
        };
        if hit {
            assert(first_by_id(bs, targets_v, i as int));
            return Some(b.path.clone());
        }
        i = i + 1;
    }
    assert(none_by_id(bs, targets_v));
    let hints = profile_match_hints(profile);
    let mut i: usize = 0;
    while i < installed_bundles.len()
        invariant
            i <= installed_bundles@.len(),
            bs == bundles_view(installed_bundles@),
            strings_view(hints@) == match_hints(profile@),
            none_by_id(bs, targets_v),
            targets_v == target_bundle_ids(profile@.bundle_ids),
            forall|j: int| 0 <= j < i ==> !hint_match(match_hints(profile@), bs[j]),
        decreases installed_bundles@.len() - i,
    {
        let b = &installed_bundles[i];
        assert(bs[i as int] == b@);
        if any_hint_fits(&hints, b.stem_lc.as_str()) {
            assert(first_by_hint(bs, match_hints(profile@), i as int));
            return Some(b.path.clone());
        }
        i = i + 1;
    }
    None
}

/// The name a bundle shows: its non-blank display name or bundle name from
/// `Info.plist` (`None` when there is none), else its file stem.
pub fn resolve_bundle_display_name(
    plist_display_name: Option<String>,
    plist_bundle_name: Option<String>,
    file_stem: Option<String>,
) -> (r: Option<String>)
    ensures
        r == match plist_display_name {
            Some(d) if trim(d@).len() > 0 => Some(d),
            _ => match plist_bundle_name {
                Some(n) if trim(n@).len() > 0 => Some(n),
                _ => file_stem,
            },
        },
{
    if let Some(d) = &plist_display_name {
        if !is_blank(d.as_str()) {
            return plist_display_name;
        }
    }
    if let Some(n) = &plist_bundle_name {
        if !is_blank(n.as_str()) {
            return plist_bundle_name;
        }
    }
    file_stem
}

/// The name shown for a profile: the matched bundle's name when it is not
/// blank, else the profile's display name.
pub fn resolve_profile_display_name(profile: &AppProfile, bundle_display_name: Option<String>) -> (r: String)
    ensures
        r@ == match bundle_display_name {
            Some(n) if trim(n@).len() > 0 => n@,
            _ => profile.display_name@,
        },
{
    match bundle_display_name {
        Some(n) => {
            if is_blank(n.as_str()) {
                profile.display_name.clone()
            } else {
                n
            }
        },
        None => profile.display_name.clone(),
    }
}

/// The extension of the file name of a path, as `std::path::Path::extension`
/// finds it.
pub uninterp spec fn extension_of(path: Seq<char>) -> Option<Seq<char>>;

/// `std::path::Path::extension`: the text after the last `.` of the final
/// component (none for names without an inner dot); a non-UTF-8 extension is
/// taken as absent.
#[verifier::external_body]
pub(crate) fn path_extension(path: &str) -> (r: Option<String>)
    ensures
        opt_view(r) == extension_of(path@),
{
    match std::path::Path::new(path).extension() {
        Some(ext) => match ext.to_str() {
            Some(e) => Some(e.to_string()),
            None => None,
        },
        None => None,
    }
}

/// The MIME type of an icon by its lower-cased extension.
pub open spec fn mime_for_ext(ext: Seq<char>) -> Seq<char> {
    if ext == "jpg"@ || ext == "jpeg"@ {
        "image/jpeg"@
    } else if ext == "webp"@ {
        "image/webp"@
    } else if ext == "gif"@ {
        "image/gif"@
    } else if ext == "bmp"@ {
        "image/bmp"@
    } else {
        "image/png"@
    }
}

/// The lower-cased form of an optional extension (empty when absent).
pub open spec fn lower_ext(ext: Option<Seq<char>>) -> Seq<char> {
    match ext {
        Some(e) => lower(e),
        None => Seq::empty(),
    }
}

/// The MIME type of an icon file by its path's extension.
pub fn icon_mime_from_ext(path: &str) -> (r: String)
    ensures
        r@ == mime_for_ext(lower_ext(extension_of(path@))),
{
    icon_mime_for(path_extension(path))
}

/// The MIME type of an icon whose file has the extension `ext`.
pub fn icon_mime_for(ext: Option<String>) -> (r: String)
    ensures
        r@ == mime_for_ext(lower_ext(opt_view(ext))),
{
    let lowered = match ext {
        Some(e) => to_lower(e.as_str()),
        None => String::new(),
    };
    let e = lowered.as_str();
    let mime = if str_eq(e, "jpg") || str_eq(e, "jpeg") {
        "image/jpeg"
    } else if str_eq(e, "webp") {
        "image/webp"
    } else if str_eq(e, "gif") {
        "image/gif"
    } else if str_eq(e, "bmp") {
        "image/bmp"
    } else {
        "image/png"
    };
    owned(mime)
}

/// Icons in these formats are shown as they are; an `icns` icon is
/// converted first.
pub fn icon_needs_conversion(path: &str) -> (r: bool)
    ensures
        r == (lower_ext(extension_of(path@)) == "icns"@),
{
    is_icns_extension(path_extension(path))
}

/// Whether the extension `ext` is `icns` in any case.
pub fn is_icns_extension(ext: Option<String>) -> (r: bool)
    ensures
        r == (lower_ext(opt_view(ext)) == "icns"@),
{
    match ext {
        Some(e) => {
            let l = to_lower(e.as_str());
            str_eq(l.as_str(), "icns")
        },
        None => {
            proof {
                reveal_strlit("icns");
                assert("icns"@.len() == 4);
                assert(Seq::<char>::empty() != "icns"@);
            }
            false
        },
    }
}

/// The disk a target root lives on: `/` for the root itself, the volume
/// mount point `/Volumes/<name>` for a path under `/Volumes`, and any other
/// path as given (trimmed); nothing for a blank root or `/Volumes` itself.
pub open spec fn mount_root_spec(target_root: Seq<char>) -> Option<Seq<char>> {
    let t = trim(target_root);
    if t.len() == 0 {
        None
    } else if t == "/"@ {
        Some("/"@)
    } else if matches_at(t, 0, "/Volumes/"@) {
        volume_root(target_root)
    } else if t == "/Volumes"@ {
        None
    } else {
        Some(t)
    }
}

pub fn mount_root_from_target_root(target_root: &str) -> (r: Option<String>)
    ensures
        opt_view(r) == mount_root_spec(target_root@),
{
    let t = trim_str(target_root);
    if t.unicode_len() == 0 {
        return None;
    }
    if str_eq(t, "/") {
        return Some(owned("/"));
    }
    if starts_with(t, "/Volumes/") {
        return volume_mount_root(target_root);
    }
    if str_eq(t, "/Volumes") {
        return None;
    }
    Some(owned(t))
}

/// The planned units of a profile have distinct identifiers.
pub proof fn planned_unit_ids_unique(units: Seq<UnitView>, home: Option<Seq<char>>)
    ensures
        forall|i: int, j: int|
            0 <= i < j < planned_units(units, home).len() ==> planned_units(units, home)[i].unit_id != planned_units(
                units,
                home,
            )[j].unit_id,
    decreases units.len(),
{
    if units.len() > 0 {
        planned_unit_ids_unique(units.drop_last(), home);
        let prev = planned_units(units.drop_last(), home);
        match plan_unit_spec(units.len() - 1, units.last(), home) {
            Some(p) => {
                if !has_unit_id(prev, p.unit_id) {
                    let cur = prev.push(p);
                    assert forall|i: int, j: int| 0 <= i < j < cur.len() implies cur[i].unit_id != cur[j].unit_id by {
                        if j == prev.len() {
                            assert(cur[i] == prev[i]);
                        }
                    }
                }
            },
            None => {},
        }
    }
}

/// The default unit is always an enabled unit, and there is one whenever
/// some unit is enabled.
pub proof fn default_unit_is_enabled(units: Seq<UnitView>, e: Seq<bool>)
    ensures
        forall|k: int| #[trigger] default_pick(units, e, k) ==> units[k].enabled,
        tier_empty(units, e, 3) <==> forall|j: int| 0 <= j < units.len() ==> !units[j].enabled,
{
}

/// The default unit is determined: the first enabled default unit whose
/// source exists; failing that the first enabled default unit; failing that
/// the first enabled unit whose source exists; failing that the first
/// enabled unit.
pub proof fn default_pick_is_unique(units: Seq<UnitView>, e: Seq<bool>, k1: int, k2: int)
    requires
        default_pick(units, e, k1),
        default_pick(units, e, k2),
    ensures
        k1 == k2,
{
    if k1 < k2 {
        assert(tier_ok(units[k1], exists_at(e, k1), 3));
    } else if k2 < k1 {
        assert(tier_ok(units[k2], exists_at(e, k2), 3));
    }
}

/// Application bundles are the entries whose extension is exactly `app`.
pub fn is_app_bundle(path: &str) -> (r: bool)
    ensures
        r == (extension_of(path@) == Some("app"@)),
{
    is_app_extension(path_extension(path))
}

/// Whether the extension `ext` is exactly `app`.
pub fn is_app_extension(ext: Option<String>) -> (r: bool)
    ensures
        r == (opt_view(ext) == Some("app"@)),
{
    match ext {
        Some(e) => str_eq(e.as_str(), "app"),
        None => false,
    }
}

/// An installed bundle with its lower-cased stem and bundle identifier.
pub fn installed_bundle(path: String, stem: &str, bundle_id: Option<&str>) -> (b: InstalledBundle)
    ensures
        b.path == path,
        b.stem_lc@ == lower(stem@),
        opt_view(b.bundle_id_lc) == match bundle_id {
            Some(id) => Some(lower(id@)),
            None => None,
        },
{
    let bundle_id_lc = match bundle_id {
        Some(id) => Some(to_lower(id)),
        None => None,
    };
    InstalledBundle { path, stem_lc: to_lower(stem), bundle_id_lc }
}

} // verus!
