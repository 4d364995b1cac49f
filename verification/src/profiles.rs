//! Application profiles: the raw catalog form, its normalisation, and the
//! validation rules every loaded catalog has to satisfy.

use crate::text::{chars_of, decimal, is_blank, lower, owned, push_decimal, str_eq, to_lower, trim, trim_str, trimmed};
use vstd::prelude::*;

verus! {

// ---------------------------------------------------------------------------
// Normalised profile types
// ---------------------------------------------------------------------------

/// One localised text entry (locale key and text).
#[derive(Debug)]
pub struct LocalizedText {
    pub locale: String,
    pub text: String,
}

/// A set of normalised application profiles.
#[derive(Debug)]
pub struct ProfileSet {
    pub profiles: Vec<AppProfile>,
}

/// A normalised application profile.
#[derive(Debug)]
pub struct AppProfile {
    pub app_id: String,
    pub display_name: String,
    pub description_i18n: Vec<LocalizedText>,
    pub migration_warning_i18n: Vec<LocalizedText>,
    pub migration_warning_countdown_seconds: u32,
    pub availability: String,
    pub blocked_reason: Option<String>,
    pub bundle_ids: Vec<String>,
    pub process_names: Vec<String>,
    pub relocation_units: Vec<RelocationUnit>,
    pub precheck_rules: PrecheckRules,
}

/// A normalised relocation unit of a profile.
#[derive(Debug)]
pub struct RelocationUnit {
    pub unit_id: String,
    pub display_name: String,
    pub source_path: String,
    pub target_path_template: String,
    pub default_enabled: bool,
    pub enabled: bool,
    pub risk_level: String,
    pub requires_confirmation: bool,
    pub blocked_reason: Option<String>,
    pub allow_bootstrap_if_source_missing: bool,
    pub category: String,
}

/// Precheck policy derived for a profile.
#[derive(Clone, Copy, Debug)]
pub struct PrecheckRules {
    pub allow_bootstrap_if_source_missing: bool,
    pub require_process_stopped: bool,
    pub require_full_disk_access: bool,
}

impl Default for PrecheckRules {
    fn default() -> (r: Self)
        ensures
            !r.allow_bootstrap_if_source_missing,
            !r.require_process_stopped,
            !r.require_full_disk_access,
    {
        PrecheckRules {
            allow_bootstrap_if_source_missing: false,
            require_process_stopped: false,
            require_full_disk_access: false,
        }
    }
}

// ---------------------------------------------------------------------------
// Raw (catalog) types
// ---------------------------------------------------------------------------

/// A profile catalog as written by its authors.
#[derive(Debug)]
pub struct RawProfileSet {
    pub engine_defaults: RawEngineDefaults,
    pub profiles: Vec<RawAppProfile>,
}

/// Catalog-wide defaults.
#[derive(Debug)]
pub struct RawEngineDefaults {
    pub app_level: RawAppLevelDefaults,
    pub unit_level: RawUnitLevelDefaults,
}

/// Defaults applied to every profile.
#[derive(Debug)]
pub struct RawAppLevelDefaults {
    pub availability: String,
    pub process_policy: RawProcessPolicy,
}

/// Defaults applied to every relocation unit.
#[derive(Debug)]
pub struct RawUnitLevelDefaults {
    pub enabled: bool,
    pub risk_level: String,
    pub allow_bootstrap_if_source_missing: bool,
}

/// Process policy of a profile or of the catalog defaults.
#[derive(Clone, Copy, Debug)]
pub struct RawProcessPolicy {
    pub require_process_stopped: Option<bool>,
    pub require_full_disk_access: Option<bool>,
}

/// A profile as written in the catalog.
#[derive(Debug)]
pub struct RawAppProfile {
    pub app_id: String,
    pub display_name: String,
    pub description_i18n: Vec<LocalizedText>,
    pub migration_warning_i18n: Vec<LocalizedText>,
    pub migration_warning_countdown_seconds: Option<u32>,
    pub availability: String,
    pub blocked_reason: Option<String>,
    pub bundle_ids: Vec<String>,
    pub process_names: Vec<String>,
    pub units: Vec<RawRelocationUnit>,
    pub process_policy: Option<RawProcessPolicy>,
}

/// A relocation unit as written in the catalog.
#[derive(Debug)]
pub struct RawRelocationUnit {
    pub unit_id: String,
    pub display_name: String,
    pub source_path: String,
    pub target_path_template: String,
    pub enabled: Option<bool>,
    pub default_enabled: Option<bool>,
    pub risk_level: Option<String>,
    pub requires_confirmation: Option<bool>,
    pub blocked_reason: Option<String>,
    pub allow_bootstrap_if_source_missing: Option<bool>,
    pub category: String,
}

// ---------------------------------------------------------------------------
// Views
// ---------------------------------------------------------------------------

pub open spec fn opt_view(o: Option<String>) -> Option<Seq<char>> {
    match o {
        Some(s) => Some(s@),
        None => None,
    }
}

pub open spec fn strings_view(v: Seq<String>) -> Seq<Seq<char>> {
    v.map_values(|s: String| s@)
}

pub open spec fn texts_view(v: Seq<LocalizedText>) -> Seq<(Seq<char>, Seq<char>)> {
    v.map_values(|t: LocalizedText| (t.locale@, t.text@))
}

pub struct UnitView {
    pub unit_id: Seq<char>,
    pub display_name: Seq<char>,
    pub source_path: Seq<char>,
    pub target_path_template: Seq<char>,
    pub default_enabled: bool,
    pub enabled: bool,
    pub risk_level: Seq<char>,
    pub requires_confirmation: bool,
    pub blocked_reason: Option<Seq<char>>,
    pub allow_bootstrap_if_source_missing: bool,
    pub category: Seq<char>,
}

impl View for RelocationUnit {
    type V = UnitView;

    open spec fn view(&self) -> UnitView {
        UnitView {
            unit_id: self.unit_id@,
            display_name: self.display_name@,
            source_path: self.source_path@,
            target_path_template: self.target_path_template@,
            default_enabled: self.default_enabled,
            enabled: self.enabled,
            risk_level: self.risk_level@,
            requires_confirmation: self.requires_confirmation,
            blocked_reason: opt_view(self.blocked_reason),
            allow_bootstrap_if_source_missing: self.allow_bootstrap_if_source_missing,
            category: self.category@,
        }
    }
}

pub open spec fn units_view(v: Seq<RelocationUnit>) -> Seq<UnitView> {
    v.map_values(|u: RelocationUnit| u@)
}

pub struct ProfileView {
    pub app_id: Seq<char>,
    pub display_name: Seq<char>,
    pub description_i18n: Seq<(Seq<char>, Seq<char>)>,
    pub migration_warning_i18n: Seq<(Seq<char>, Seq<char>)>,
    pub migration_warning_countdown_seconds: u32,
    pub availability: Seq<char>,
    pub blocked_reason: Option<Seq<char>>,
    pub bundle_ids: Seq<Seq<char>>,
    pub process_names: Seq<Seq<char>>,
    pub relocation_units: Seq<UnitView>,
    pub precheck_rules: PrecheckRules,
}

impl View for AppProfile {
    type V = ProfileView;

    open spec fn view(&self) -> ProfileView {
        ProfileView {
            app_id: self.app_id@,
            display_name: self.display_name@,
            description_i18n: texts_view(self.description_i18n@),
            migration_warning_i18n: texts_view(self.migration_warning_i18n@),
            migration_warning_countdown_seconds: self.migration_warning_countdown_seconds,
            availability: self.availability@,
            blocked_reason: opt_view(self.blocked_reason),
            bundle_ids: strings_view(self.bundle_ids@),
            process_names: strings_view(self.process_names@),
            relocation_units: units_view(self.relocation_units@),
            precheck_rules: self.precheck_rules,
        }
    }
}

pub open spec fn profiles_view(v: Seq<AppProfile>) -> Seq<ProfileView> {
    v.map_values(|p: AppProfile| p@)
}

pub struct RawUnitView {
    pub unit_id: Seq<char>,
    pub display_name: Seq<char>,
    pub source_path: Seq<char>,
    pub target_path_template: Seq<char>,
    pub enabled: Option<bool>,
    pub default_enabled: Option<bool>,
    pub risk_level: Option<Seq<char>>,
    pub requires_confirmation: Option<bool>,
    pub blocked_reason: Option<Seq<char>>,
    pub allow_bootstrap_if_source_missing: Option<bool>,
    pub category: Seq<char>,
}

impl View for RawRelocationUnit {
    type V = RawUnitView;

    open spec fn view(&self) -> RawUnitView {
        RawUnitView {
            unit_id: self.unit_id@,
            display_name: self.display_name@,
            source_path: self.source_path@,
            target_path_template: self.target_path_template@,
            enabled: self.enabled,
            default_enabled: self.default_enabled,
            risk_level: opt_view(self.risk_level),
            requires_confirmation: self.requires_confirmation,
            blocked_reason: opt_view(self.blocked_reason),
            allow_bootstrap_if_source_missing: self.allow_bootstrap_if_source_missing,
            category: self.category@,
        }
    }
}

pub open spec fn raw_units_view(v: Seq<RawRelocationUnit>) -> Seq<RawUnitView> {
    v.map_values(|u: RawRelocationUnit| u@)
}

pub struct RawProfileView {
    pub app_id: Seq<char>,
    pub display_name: Seq<char>,
    pub description_i18n: Seq<(Seq<char>, Seq<char>)>,
    pub migration_warning_i18n: Seq<(Seq<char>, Seq<char>)>,
    pub migration_warning_countdown_seconds: Option<u32>,
    pub availability: Seq<char>,
    pub blocked_reason: Option<Seq<char>>,
    pub bundle_ids: Seq<Seq<char>>,
    pub process_names: Seq<Seq<char>>,
    pub units: Seq<RawUnitView>,
    pub process_policy: Option<RawProcessPolicy>,
}

impl View for RawAppProfile {
    type V = RawProfileView;

    open spec fn view(&self) -> RawProfileView {
        RawProfileView {
            app_id: self.app_id@,
            display_name: self.display_name@,
            description_i18n: texts_view(self.description_i18n@),
            migration_warning_i18n: texts_view(self.migration_warning_i18n@),
            migration_warning_countdown_seconds: self.migration_warning_countdown_seconds,
            availability: self.availability@,
            blocked_reason: opt_view(self.blocked_reason),
            bundle_ids: strings_view(self.bundle_ids@),
            process_names: strings_view(self.process_names@),
            units: raw_units_view(self.units@),
            process_policy: self.process_policy,
        }
    }
}

pub open spec fn raw_profiles_view(v: Seq<RawAppProfile>) -> Seq<RawProfileView> {
    v.map_values(|p: RawAppProfile| p@)
}

pub struct UnitDefaultsView {
    pub enabled: bool,
    pub risk_level: Seq<char>,
    pub allow_bootstrap_if_source_missing: bool,
}

impl View for RawUnitLevelDefaults {
    type V = UnitDefaultsView;

    open spec fn view(&self) -> UnitDefaultsView {
        UnitDefaultsView {
            enabled: self.enabled,
            risk_level: self.risk_level@,
            allow_bootstrap_if_source_missing: self.allow_bootstrap_if_source_missing,
        }
    }
}

pub struct AppDefaultsView {
    pub availability: Seq<char>,
    pub process_policy: RawProcessPolicy,
}

impl View for RawAppLevelDefaults {
    type V = AppDefaultsView;

    open spec fn view(&self) -> AppDefaultsView {
        AppDefaultsView { availability: self.availability@, process_policy: self.process_policy }
    }
}

// ---------------------------------------------------------------------------
// Defaults
// ---------------------------------------------------------------------------

pub fn default_false() -> (b: bool)
    ensures
        !b,
{
    false
}

pub fn default_true() -> (b: bool)
    ensures
        b,
{
    true
}

pub fn default_active() -> (s: String)
    ensures
        s@ == "active"@,
{
    owned("active")
}

pub fn default_stable() -> (s: String)
    ensures
        s@ == "stable"@,
{
    owned("stable")
}

/// The catalog-wide process policy when none is written: stop the app and
/// require Full Disk Access.
pub fn default_process_policy() -> (p: RawProcessPolicy)
    ensures
        p.require_process_stopped == Some(true),
        p.require_full_disk_access == Some(true),
{
    RawProcessPolicy { require_process_stopped: Some(true), require_full_disk_access: Some(true) }
}

impl Default for RawAppLevelDefaults {
    fn default() -> (r: Self)
        ensures
            r@.availability == "active"@,
            r@.process_policy.require_process_stopped == Some(true),
            r@.process_policy.require_full_disk_access == Some(true),
    {
        RawAppLevelDefaults { availability: default_active(), process_policy: default_process_policy() }
    }
}

impl Default for RawUnitLevelDefaults {
    fn default() -> (r: Self)
        ensures
            r@.enabled,
            r@.risk_level == "stable"@,
            !r@.allow_bootstrap_if_source_missing,
    {
        RawUnitLevelDefaults {
            enabled: default_true(),
            risk_level: default_stable(),
            allow_bootstrap_if_source_missing: default_false(),
        }
    }
}

// ---------------------------------------------------------------------------
// Normalisation: specifications
// ---------------------------------------------------------------------------

/// A trimmed value, or `fallback` when the trimmed value is empty.
pub open spec fn trimmed_or(s: Seq<char>, fallback: Seq<char>) -> Seq<char> {
    if trim(s).len() == 0 {
        fallback
    } else {
        trim(s)
    }
}

pub open spec fn trimmed_option_spec(o: Option<Seq<char>>) -> Option<Seq<char>> {
    match o {
        Some(v) => if trim(v).len() == 0 {
            None
        } else {
            Some(trim(v))
        },
        None => None,
    }
}

pub open spec fn availability_spec(raw: Seq<char>, default_availability: Seq<char>) -> Seq<char> {
    if lower(trim(raw)).len() != 0 {
        lower(trim(raw))
    } else if lower(trim(default_availability)).len() != 0 {
        lower(trim(default_availability))
    } else {
        "active"@
    }
}

pub open spec fn risk_spec(raw: Option<Seq<char>>, default_risk: Seq<char>) -> Seq<char> {
    let chosen = match raw {
        Some(r) => r,
        None => default_risk,
    };
    if lower(trim(chosen)).len() == 0 {
        "stable"@
    } else {
        lower(trim(chosen))
    }
}

/// Generated identifier of the unit at position `index`.
pub open spec fn generated_unit_id(index: int) -> Seq<char> {
    "unit-"@ + decimal((index + 1) as nat)
}

/// The normalised form of the raw unit at position `index`.
pub open spec fn unit_spec(r: RawUnitView, d: UnitDefaultsView, index: int) -> UnitView {
    let unit_id = trimmed_or(r.unit_id, generated_unit_id(index));
    let enabled = match r.enabled {
        Some(b) => b,
        None => d.enabled,
    };
    let risk = risk_spec(r.risk_level, d.risk_level);
    UnitView {
        unit_id: unit_id,
        display_name: trimmed_or(r.display_name, unit_id),
        source_path: trim(r.source_path),
        target_path_template: trim(r.target_path_template),
        default_enabled: match r.default_enabled {
            Some(b) => b,
            None => enabled,
        } && enabled,
        enabled: enabled,
        risk_level: risk,
        requires_confirmation: match r.requires_confirmation {
            Some(b) => b,
            None => risk == "high"@,
        },
        blocked_reason: trimmed_option_spec(r.blocked_reason),
        allow_bootstrap_if_source_missing: match r.allow_bootstrap_if_source_missing {
            Some(b) => b,
            None => d.allow_bootstrap_if_source_missing,
        },
        category: trimmed_or(r.category, "app-data"@),
    }
}

pub open spec fn units_spec(raw: Seq<RawUnitView>, d: UnitDefaultsView) -> Seq<UnitView> {
    Seq::new(raw.len(), |i: int| unit_spec(raw[i], d, i))
}

/// Localised entries kept after normalisation (locale trimmed and lower-cased,
/// text trimmed; entries with an empty locale or text dropped), in order.
pub open spec fn kept_texts(raw: Seq<(Seq<char>, Seq<char>)>) -> Seq<(Seq<char>, Seq<char>)>
    decreases raw.len(),
{
    if raw.len() == 0 {
        Seq::empty()
    } else {
        let e = raw.last();
        let k = lower(trim(e.0));
        let v = trim(e.1);
        if k.len() == 0 || v.len() == 0 {
            kept_texts(raw.drop_last())
        } else {
            kept_texts(raw.drop_last()).push((k, v))
        }
    }
}

/// The text that the last kept entry gives to `locale`.
pub open spec fn last_text(kept: Seq<(Seq<char>, Seq<char>)>, locale: Seq<char>) -> Option<Seq<char>>
    decreases kept.len(),
{
    if kept.len() == 0 {
        None
    } else if kept.last().0 == locale {
        Some(kept.last().1)
    } else {
        last_text(kept.drop_last(), locale)
    }
}

/// `out` is the locale map of `raw`: locales unique, each with the text of its
/// last kept entry.
pub open spec fn i18n_spec(out: Seq<(Seq<char>, Seq<char>)>, raw: Seq<(Seq<char>, Seq<char>)>) -> bool {
    &&& forall|i: int, j: int| 0 <= i < j < out.len() ==> out[i].0 != out[j].0
    &&& forall|i: int| 0 <= i < out.len() ==> last_text(kept_texts(raw), out[i].0) == Some(out[i].1)
    &&& forall|k: Seq<char>| last_text(kept_texts(raw), k) is Some ==> exists|i: int|
        0 <= i < out.len() && out[i].0 == k
}

pub open spec fn process_policy_spec(
    app_defaults: RawProcessPolicy,
    profile_policy: Option<RawProcessPolicy>,
) -> (bool, bool) {
    let stopped = match profile_policy {
        Some(p) if p.require_process_stopped is Some => p.require_process_stopped->0,
        _ => match app_defaults.require_process_stopped {
            Some(b) => b,
            None => true,
        },
    };
    let fda = match profile_policy {
        Some(p) if p.require_full_disk_access is Some => p.require_full_disk_access->0,
        _ => match app_defaults.require_full_disk_access {
            Some(b) => b,
            None => true,
        },
    };
    (stopped, fda)
}

/// A profile's own process policy wins: a setting the profile makes is the
/// resolved rule whatever the catalog-wide default says; the default is used
/// only for a setting the profile leaves open, and a setting neither gives is
/// required (true).
pub proof fn profile_policy_wins(app_defaults: RawProcessPolicy, profile_policy: Option<RawProcessPolicy>)
    ensures
        ({
            let (stopped, fda) = process_policy_spec(app_defaults, profile_policy);
            &&& (profile_policy matches Some(p) && p.require_process_stopped is Some) ==> stopped
                == profile_policy->Some_0.require_process_stopped->Some_0
            &&& (profile_policy matches Some(p) && p.require_full_disk_access is Some) ==> fda
                == profile_policy->Some_0.require_full_disk_access->Some_0
            &&& !(profile_policy matches Some(p) && p.require_process_stopped is Some) ==> stopped == match app_defaults.require_process_stopped {
                Some(b) => b,
                None => true,
            }
            &&& !(profile_policy matches Some(p) && p.require_full_disk_access is Some) ==> fda == match app_defaults.require_full_disk_access {
                Some(b) => b,
                None => true,
            }
        }),
{
}

/// Some enabled unit allows bootstrap when its source is missing.
pub open spec fn any_bootstrap_unit(units: Seq<UnitView>) -> bool {
    exists|i: int| 0 <= i < units.len() && units[i].enabled && units[i].allow_bootstrap_if_source_missing
}

/// The normalised profile of a raw profile (the localised maps are related by
/// `i18n_spec` separately).
pub open spec fn profile_spec_holds(
    p: ProfileView,
    r: RawProfileView,
    app: AppDefaultsView,
    unit: UnitDefaultsView,
) -> bool {
    let policy = process_policy_spec(app.process_policy, r.process_policy);
    &&& p.app_id == trim(r.app_id)
    &&& p.display_name == trimmed_or(r.display_name, trim(r.app_id))
    &&& i18n_spec(p.description_i18n, r.description_i18n)
    &&& i18n_spec(p.migration_warning_i18n, r.migration_warning_i18n)
    &&& p.migration_warning_countdown_seconds == match r.migration_warning_countdown_seconds {
        Some(n) => n,
        None => 0u32,
    }
    &&& p.availability == availability_spec(r.availability, app.availability)
    &&& p.blocked_reason == trimmed_option_spec(r.blocked_reason)
    &&& p.bundle_ids == r.bundle_ids
    &&& p.process_names == r.process_names
    &&& p.relocation_units == units_spec(r.units, unit)
    &&& p.precheck_rules.allow_bootstrap_if_source_missing == any_bootstrap_unit(p.relocation_units)
    &&& p.precheck_rules.require_process_stopped == policy.0
    &&& p.precheck_rules.require_full_disk_access == policy.1
}

// ---------------------------------------------------------------------------
// Normalisation: implementation
// ---------------------------------------------------------------------------

pub fn copy_strings(v: &Vec<String>) -> (r: Vec<String>)
    ensures
        strings_view(r@) == strings_view(v@),
{
    let mut r: Vec<String> = Vec::new();
    let mut i: usize = 0;
    while i < v.len()
        invariant
            i <= v.len(),
            r@.len() == i,
            forall|k: int| 0 <= k < i ==> r@[k]@ == v@[k]@,
        decreases v.len() - i,
    {
        let c = v[i].clone();
        r.push(c);
        i = i + 1;
    }
    assert(strings_view(r@) =~= strings_view(v@));
    r
}

pub fn trim_or_empty(value: &str) -> (r: String)
    ensures
        r@ == trim(value@),
{
    trimmed(value)
}

pub fn contains_glob_meta(segment: &str) -> (r: bool)
    ensures
        r == (segment@.contains('*') || segment@.contains('?') || segment@.contains('[')),
{
    let v = chars_of(segment);
    let mut i: usize = 0;
    while i < v.len()
        invariant
            i <= v.len(),
            v@ == segment@,
            forall|j: int| 0 <= j < i ==> v@[j] != '*' && v@[j] != '?' && v@[j] != '[',
        decreases v.len() - i,
    {
        if v[i] == '*' || v[i] == '?' || v[i] == '[' {
            assert(segment@[i as int] == v[i as int]);
            return true;
        }
        i = i + 1;
    }
    false
}

pub fn trimmed_option(value: &Option<String>) -> (r: Option<String>)
    ensures
        opt_view(r) == trimmed_option_spec(opt_view(*value)),
{
    match value {
        Some(v) => {
            let t = trimmed(v);
            if is_blank(v) {
                None
            } else {
                Some(t)
            }
        },
        None => None,
    }
}

pub fn normalize_availability(raw: &RawAppProfile, default_availability: &str) -> (r: String)
    ensures
        r@ == availability_spec(raw.availability@, default_availability@),
{
    let availability = to_lower(trim_str(&raw.availability));
    if availability.unicode_len() != 0 {
        return availability;
    }
    let fallback = to_lower(trim_str(default_availability));
    if fallback.unicode_len() == 0 {
        default_active()
    } else {
        fallback
    }
}

pub fn normalize_risk_level(raw: &Option<String>, default_risk: &str) -> (r: String)
    ensures
        r@ == risk_spec(opt_view(*raw), default_risk@),
{
    let risk = match raw {
        Some(r) => to_lower(trim_str(r)),
        None => to_lower(trim_str(default_risk)),
    };
    if risk.unicode_len() == 0 {
        return default_stable();
    }
    risk
}

spec fn last_text_push(kept: Seq<(Seq<char>, Seq<char>)>, e: (Seq<char>, Seq<char>), k: Seq<char>)
    -> bool {
    last_text(kept.push(e), k) == if e.0 == k {
        Some(e.1)
    } else {
        last_text(kept, k)
    }
}

proof fn lemma_last_text_push(kept: Seq<(Seq<char>, Seq<char>)>, e: (Seq<char>, Seq<char>), k: Seq<char>)
    ensures
        last_text_push(kept, e, k),
{
    assert(kept.push(e).drop_last() =~= kept);
}

fn find_locale(out: &Vec<LocalizedText>, key: &String) -> (r: Option<usize>)
    ensures
        match r {
            Some(j) => j < out.len() && out@[j as int].locale@ == key@,
            None => forall|m: int| 0 <= m < out.len() ==> out@[m].locale@ != key@,
        },
{
    let mut j: usize = 0;
    while j < out.len()
        invariant
            j <= out.len(),
            forall|m: int| 0 <= m < j ==> out@[m].locale@ != key@,
        decreases out.len() - j,
    {
        if str_eq(&out[j].locale, key) {
            return Some(j);
        }
        j = j + 1;
    }
    None
}

/// Normalised localised texts: locale keys trimmed and lower-cased, texts
/// trimmed, empty entries dropped, and for a repeated locale the last text kept.
pub fn normalize_description_i18n(raw: &Vec<LocalizedText>) -> (r: Vec<LocalizedText>)
    ensures
        i18n_spec(texts_view(r@), texts_view(raw@)),
{
    let ghost rv = texts_view(raw@);
    let mut out: Vec<LocalizedText> = Vec::new();
    let mut i: usize = 0;
    while i < raw.len()
        invariant
            i <= raw.len(),
            rv == texts_view(raw@),
            i18n_spec(texts_view(out@), rv.take(i as int)),
        decreases raw.len() - i,
    {
        let key = to_lower(trim_str(&raw[i].locale));
        let text = trimmed(&raw[i].text);
        let ghost prev = rv.take(i as int);
        let ghost next = rv.take(i + 1);
        proof {
            assert(next.drop_last() =~= prev);
            assert(next.last() == rv[i as int]);
        }
        if key.unicode_len() == 0 || text.unicode_len() == 0 {
            proof {
                assert(kept_texts(next) == kept_texts(prev));
            }
        } else {
            let ghost old_out = texts_view(out@);
            let ghost kp = kept_texts(prev);
            let ghost kn = kept_texts(next);
            proof {
                assert(kn == kp.push((key@, text@)));
            }
            match find_locale(&out, &key) {
                Some(j) => {
                    let loc = out[j].locale.clone();
                    out.set(j, LocalizedText { locale: loc, text: text });
                    proof {
                        let nv = texts_view(out@);
                        assert(nv =~= old_out.update(j as int, (key@, text@)));
                        assert forall|a: int, b: int| 0 <= a < b < nv.len() implies nv[a].0 != nv[b].0 by {
                            assert(nv[a].0 == old_out[a].0);
                            assert(nv[b].0 == old_out[b].0);
                        }
                        assert forall|k: Seq<char>| last_text(kn, k) is Some implies exists|m: int|
                            0 <= m < nv.len() && nv[m].0 == k by {
                            lemma_last_text_push(kp, (key@, text@), k);
                            if k != key@ {
                                let m = choose|m: int| 0 <= m < old_out.len() && old_out[m].0 == k;
                                assert(nv[m].0 == k);
                            } else {
                                assert(nv[j as int].0 == k);
                            }
                        }
                        assert forall|m: int| 0 <= m < nv.len() implies last_text(kn, nv[m].0)
                            == Some(nv[m].1) by {
                            lemma_last_text_push(kp, (key@, text@), nv[m].0);
                            if m != j {
                                assert(old_out[m].0 != old_out[j as int].0);
                            }
                        }
                    }
                },
                None => {
                    out.push(LocalizedText { locale: key, text: text });
                    proof {
                        let nv = texts_view(out@);
                        assert(nv =~= old_out.push((key@, text@)));
                        assert forall|a: int, b: int| 0 <= a < b < nv.len() implies nv[a].0 != nv[b].0 by {
                            if b == old_out.len() {
                                assert(old_out[a].0 != key@);
                            }
                        }
                        assert forall|k: Seq<char>| last_text(kn, k) is Some implies exists|m: int|
                            0 <= m < nv.len() && nv[m].0 == k by {
                            lemma_last_text_push(kp, (key@, text@), k);
                            if k != key@ {
                                let m = choose|m: int| 0 <= m < old_out.len() && old_out[m].0 == k;
                                assert(nv[m].0 == k);
                            } else {
                                assert(nv[old_out.len() as int].0 == k);
                            }
                        }
                        assert forall|m: int| 0 <= m < nv.len() implies last_text(kn, nv[m].0)
                            == Some(nv[m].1) by {
                            lemma_last_text_push(kp, (key@, text@), nv[m].0);
                            if m < old_out.len() {
                                assert(old_out[m].0 != key@);
                            }
                        }
                    }
                },
            }
        }
        i = i + 1;
    }
    assert(rv.take(raw.len() as int) =~= rv);
    out
}

/// The normalised unit at position `index`.
pub fn normalize_unit(index: usize, raw_unit: &RawRelocationUnit, defaults: &RawUnitLevelDefaults) -> (u:
    RelocationUnit)
    requires
        index < usize::MAX,
    ensures
        u@ == unit_spec(raw_unit@, defaults@, index as int),
{
    let unit_id = if is_blank(&raw_unit.unit_id) {
        let mut s = owned("unit-");
        push_decimal(&mut s, index + 1);
        s
    } else {
        trim_or_empty(&raw_unit.unit_id)
    };
    let enabled = match raw_unit.enabled {
        Some(b) => b,
        None => defaults.enabled,
    };
    let default_enabled = match raw_unit.default_enabled {
        Some(b) => b,
        None => enabled,
    } && enabled;
    let display_name = if is_blank(&raw_unit.display_name) {
        unit_id.clone()
    } else {
        trim_or_empty(&raw_unit.display_name)
    };
    let risk_level = normalize_risk_level(&raw_unit.risk_level, &defaults.risk_level);
    let requires_confirmation = match raw_unit.requires_confirmation {
        Some(b) => b,
        None => str_eq(&risk_level, "high"),
    };
    let allow_bootstrap_if_source_missing = match raw_unit.allow_bootstrap_if_source_missing {
        Some(b) => b,
        None => defaults.allow_bootstrap_if_source_missing,
    };
    let category = if is_blank(&raw_unit.category) {
        owned("app-data")
    } else {
        trim_or_empty(&raw_unit.category)
    };
    RelocationUnit {
        unit_id,
        display_name,
        source_path: trim_or_empty(&raw_unit.source_path),
        target_path_template: trim_or_empty(&raw_unit.target_path_template),
        default_enabled,
        enabled,
        risk_level,
        requires_confirmation,
        blocked_reason: trimmed_option(&raw_unit.blocked_reason),
        allow_bootstrap_if_source_missing,
        category,
    }
}

/// Normalises every raw unit, in order.
pub fn normalize_units(raw_units: &Vec<RawRelocationUnit>, unit_defaults: &RawUnitLevelDefaults) -> (r:
    Vec<RelocationUnit>)
    ensures
        units_view(r@) == units_spec(raw_units_view(raw_units@), unit_defaults@),
{
    let mut out: Vec<RelocationUnit> = Vec::new();
    let mut i: usize = 0;
    while i < raw_units.len()
        invariant
            i <= raw_units.len(),
            out@.len() == i,
            forall|k: int| 0 <= k < i ==> out@[k]@ == unit_spec(raw_units@[k]@, unit_defaults@, k),
        decreases raw_units.len() - i,
    {
        let u = normalize_unit(i, &raw_units[i], unit_defaults);
        out.push(u);
        i = i + 1;
    }
    assert(units_view(out@) =~= units_spec(raw_units_view(raw_units@), unit_defaults@));
    out
}

/// The effective (require_process_stopped, require_full_disk_access) policy:
/// the profile's own setting, else the catalog default, else `true`.
pub fn resolve_process_policy(app_defaults: &RawProcessPolicy, profile_policy: &Option<RawProcessPolicy>) -> (r:
    (bool, bool))
    ensures
        r == process_policy_spec(*app_defaults, *profile_policy),
        (*profile_policy matches Some(p) && p.require_process_stopped is Some) ==> r.0
            == profile_policy->Some_0.require_process_stopped->Some_0,
        (*profile_policy matches Some(p) && p.require_full_disk_access is Some) ==> r.1
            == profile_policy->Some_0.require_full_disk_access->Some_0,
{
    let stopped = match profile_policy {
        Some(p) if p.require_process_stopped.is_some() => p.require_process_stopped.unwrap(),
        _ => match app_defaults.require_process_stopped {
            Some(b) => b,
            None => true,
        },
    };
    let fda = match profile_policy {
        Some(p) if p.require_full_disk_access.is_some() => p.require_full_disk_access.unwrap(),
        _ => match app_defaults.require_full_disk_access {
            Some(b) => b,
            None => true,
        },
    };
    (stopped, fda)
}

fn any_bootstrap(units: &Vec<RelocationUnit>) -> (r: bool)
    ensures
        r == any_bootstrap_unit(units_view(units@)),
{
    let mut i: usize = 0;
    while i < units.len()
        invariant
            i <= units.len(),
            forall|k: int| 0 <= k < i ==> !(units@[k].enabled && units@[k].allow_bootstrap_if_source_missing),
        decreases units.len() - i,
    {
        if units[i].enabled && units[i].allow_bootstrap_if_source_missing {
            assert(units_view(units@)[i as int] == units@[i as int]@);
            return true;
        }
        i = i + 1;
    }
    proof {
        if any_bootstrap_unit(units_view(units@)) {
            let k = choose|k: int| 0 <= k < units_view(units@).len() && units_view(units@)[k].enabled
                && units_view(units@)[k].allow_bootstrap_if_source_missing;
            assert(units_view(units@)[k] == units@[k]@);
        }
    }
    false
}

/// The normalised form of one raw profile.
pub fn normalize_profile(raw: &RawAppProfile, app_defaults: &RawAppLevelDefaults, unit_defaults: &RawUnitLevelDefaults) -> (p:
    AppProfile)
    ensures
        profile_spec_holds(p@, raw@, app_defaults@, unit_defaults@),
{
    let app_id = trim_or_empty(&raw.app_id);
    let display_name = if is_blank(&raw.display_name) {
        app_id.clone()
    } else {
        trimmed(&raw.display_name)
    };
    let availability = normalize_availability(raw, &app_defaults.availability);
    let policy = resolve_process_policy(&app_defaults.process_policy, &raw.process_policy);
    let relocation_units = normalize_units(&raw.units, unit_defaults);
    let allow_bootstrap = any_bootstrap(&relocation_units);
    let precheck_rules = PrecheckRules {
        allow_bootstrap_if_source_missing: allow_bootstrap,
        require_process_stopped: policy.0,
        require_full_disk_access: policy.1,
    };
    let countdown = match raw.migration_warning_countdown_seconds {
        Some(n) => n,
        None => 0,
    };
    AppProfile {
        app_id,
        display_name,
        description_i18n: normalize_description_i18n(&raw.description_i18n),
        migration_warning_i18n: normalize_description_i18n(&raw.migration_warning_i18n),
        migration_warning_countdown_seconds: countdown,
        availability,
        blocked_reason: trimmed_option(&raw.blocked_reason),
        bundle_ids: copy_strings(&raw.bundle_ids),
        process_names: copy_strings(&raw.process_names),
        relocation_units,
        precheck_rules,
    }
}

/// Every profile of `ps` is the normalised form of the raw profile at the same
/// position.
pub open spec fn normalized_list(
    ps: Seq<ProfileView>,
    raw: Seq<RawProfileView>,
    app: AppDefaultsView,
    unit: UnitDefaultsView,
) -> bool {
    &&& ps.len() == raw.len()
    &&& forall|i: int| 0 <= i < ps.len() ==> profile_spec_holds(ps[i], raw[i], app, unit)
}

pub struct RawSetView {
    pub app_level: AppDefaultsView,
    pub unit_level: UnitDefaultsView,
    pub profiles: Seq<RawProfileView>,
}

impl View for RawProfileSet {
    type V = RawSetView;

    open spec fn view(&self) -> RawSetView {
        RawSetView {
            app_level: self.engine_defaults.app_level@,
            unit_level: self.engine_defaults.unit_level@,
            profiles: raw_profiles_view(self.profiles@),
        }
    }
}

/// The outcome of loading a raw catalog: its normalised profiles when they
/// satisfy every rule, else the message of the first violated rule.
pub open spec fn load_outcome(raw: RawSetView, r: Result<Seq<ProfileView>, Seq<char>>) -> bool {
    match r {
        Ok(ps) => normalized_list(ps, raw.profiles, raw.app_level, raw.unit_level)
            && crate::validation::validation_error(ps) is None,
        Err(e) => exists|ps: Seq<ProfileView>|
            normalized_list(ps, raw.profiles, raw.app_level, raw.unit_level)
                && #[trigger] crate::validation::validation_error(ps) == Some(e),
    }
}

pub open spec fn set_result_view(r: Result<ProfileSet, String>) -> Result<Seq<ProfileView>, Seq<char>> {
    match r {
        Ok(set) => Ok(profiles_view(set.profiles@)),
        Err(e) => Err(e@),
    }
}

/// Normalises every profile of a raw catalog and validates the result.
pub fn normalize_profile_set(raw: &RawProfileSet) -> (r: Result<ProfileSet, String>)
    ensures
        load_outcome(raw@, set_result_view(r)),
{
    let app_defaults = &raw.engine_defaults.app_level;
    let unit_defaults = &raw.engine_defaults.unit_level;
    let mut profiles: Vec<AppProfile> = Vec::new();
    let mut i: usize = 0;
    while i < raw.profiles.len()
        invariant
            i <= raw.profiles.len(),
            app_defaults == &raw.engine_defaults.app_level,
            unit_defaults == &raw.engine_defaults.unit_level,
            profiles@.len() == i,
            forall|k: int| 0 <= k < i ==> profile_spec_holds(profiles@[k]@, raw.profiles@[k]@, app_defaults@,
                unit_defaults@),
        decreases raw.profiles.len() - i,
    {
        let p = normalize_profile(&raw.profiles[i], app_defaults, unit_defaults);
        profiles.push(p);
        i = i + 1;
    }
    let ghost pv = profiles_view(profiles@);
    proof {
        assert forall|k: int| 0 <= k < pv.len() implies profile_spec_holds(pv[k], raw@.profiles[k], raw@.app_level,
            raw@.unit_level) by {
            assert(pv[k] == profiles@[k]@);
            assert(raw@.profiles[k] == raw.profiles@[k]@);
        }
    }
    match crate::validation::validate_profiles(&profiles) {
        Ok(()) => Ok(ProfileSet { profiles }),
        Err(e) => Err(e),
    }
}

} // verus!
