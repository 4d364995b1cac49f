//! The built-in profile catalog and the profile store that serves it.

use crate::profiles::{load_outcome, normalize_profile_set, normalized_list, profiles_view, raw_units_view, strings_view, texts_view, AppDefaultsView, AppProfile, LocalizedText, ProfileView, RawAppLevelDefaults, RawAppProfile, RawEngineDefaults, RawProcessPolicy, RawProfileSet, RawProfileView, RawRelocationUnit, RawSetView, RawUnitLevelDefaults, RawUnitView, UnitDefaultsView};
use crate::text::{owned, str_eq};
use crate::validation::validation_error;
use vstd::prelude::*;

verus! {

pub open spec fn unit_v(
    unit_id: Seq<char>,
    display_name: Seq<char>,
    source_path: Seq<char>,
    target_path_template: Seq<char>,
    risk_level: Seq<char>,
    allow_bootstrap: bool,
    category: Seq<char>,
) -> RawUnitView {
    RawUnitView {
        unit_id,
        display_name,
        source_path,
        target_path_template,
        enabled: None,
        default_enabled: None,
        risk_level: Some(risk_level),
        requires_confirmation: None,
        blocked_reason: None,
        allow_bootstrap_if_source_missing: Some(allow_bootstrap),
        category,
    }
}

fn unit(
    unit_id: &str,
    display_name: &str,
    source_path: &str,
    target_path_template: &str,
    risk_level: &str,
    allow_bootstrap: bool,
    category: &str,
) -> (u: RawRelocationUnit)
    ensures
        u@ == unit_v(
            unit_id@,
            display_name@,
            source_path@,
            target_path_template@,
            risk_level@,
            allow_bootstrap,
            category@,
        ),
{
    RawRelocationUnit {
        unit_id: owned(unit_id),
        display_name: owned(display_name),
        source_path: owned(source_path),
        target_path_template: owned(target_path_template),
        enabled: None,
        default_enabled: None,
        risk_level: Some(owned(risk_level)),
        requires_confirmation: None,
        blocked_reason: None,
        allow_bootstrap_if_source_missing: Some(allow_bootstrap),
        category: owned(category),
    }
}

fn text(locale: &str, value: &str) -> (t: LocalizedText)
    ensures
        t.locale@ == locale@,
        t.text@ == value@,
{
    LocalizedText { locale: owned(locale), text: owned(value) }
}

pub open spec fn profile_v(
    app_id: Seq<char>,
    display_name: Seq<char>,
    description: Seq<(Seq<char>, Seq<char>)>,
    warning: Seq<(Seq<char>, Seq<char>)>,
    countdown: Option<u32>,
    bundle_ids: Seq<Seq<char>>,
    process_names: Seq<Seq<char>>,
    units: Seq<RawUnitView>,
) -> RawProfileView {
    RawProfileView {
        app_id,
        display_name,
        description_i18n: description,
        migration_warning_i18n: warning,
        migration_warning_countdown_seconds: countdown,
        availability: "active"@,
        blocked_reason: None,
        bundle_ids,
        process_names,
        units,
        process_policy: None,
    }
}

fn profile(
    app_id: &str,
    display_name: &str,
    description: Vec<LocalizedText>,
    warning: Vec<LocalizedText>,
    countdown: Option<u32>,
    bundle_ids: Vec<String>,
    process_names: Vec<String>,
    units: Vec<RawRelocationUnit>,
) -> (p: RawAppProfile)
    ensures
        p@ == profile_v(
            app_id@,
            display_name@,
            texts_view(description@),
            texts_view(warning@),
            countdown,
            strings_view(bundle_ids@),
            strings_view(process_names@),
            raw_units_view(units@),
        ),
{
    RawAppProfile {
        app_id: owned(app_id),
        display_name: owned(display_name),
        description_i18n: description,
        migration_warning_i18n: warning,
        migration_warning_countdown_seconds: countdown,
        availability: owned("active"),
        blocked_reason: None,
        bundle_ids,
        process_names,
        units,
        process_policy: None,
    }
}

fn one(s: &str) -> (v: Vec<String>)
    ensures
        strings_view(v@) == seq![s@],
{
    let v = vec![owned(s)];
    assert(strings_view(v@) =~= seq![s@]);
    v
}

pub open spec fn wechat_v() -> RawProfileView {
    profile_v(
        "wechat-non-mas"@,
        "WeChat (Non-MAS)"@,
        seq![("en"@, "WeChat chat history, files and media (xwechat_files)."@)],
        seq![
            (
                "en"@,
                "WeChat keeps its whole message database in this folder. Quit WeChat completely and keep the external disk connected while it is relocated."@,
            ),
        ],
        Some(3u32),
        seq!["com.tencent.xinWeChat"@],
        seq!["WeChat"@],
        seq![
            unit_v(
                "wechat-core-xwechat-files"@,
                "WeChat core data (xwechat_files)"@,
                "~/Library/Containers/com.tencent.xinWeChat/Data/Documents/xwechat_files"@,
                "{target_root}/AppData/WeChat/xwechat_files"@,
                "high"@,
                false,
                "app-data"@,
            ),
        ],
    )
}

fn wechat() -> (p: RawAppProfile)
    ensures
        p@ == wechat_v(),
{
    let description = vec![text("en", "WeChat chat history, files and media (xwechat_files).")];
    let warning = vec![
        text(
            "en",
            "WeChat keeps its whole message database in this folder. Quit WeChat completely and keep the external disk connected while it is relocated.",
        ),
    ];
    let units = vec![
        unit(
            "wechat-core-xwechat-files",
            "WeChat core data (xwechat_files)",
            "~/Library/Containers/com.tencent.xinWeChat/Data/Documents/xwechat_files",
            "{target_root}/AppData/WeChat/xwechat_files",
            "high",
            false,
            "app-data",
        ),
    ];
    proof {
        assert(texts_view(description@) =~= wechat_v().description_i18n);
        assert(texts_view(warning@) =~= wechat_v().migration_warning_i18n);
        assert(raw_units_view(units@) =~= wechat_v().units);
    }
    profile(
        "wechat-non-mas",
        "WeChat (Non-MAS)",
        description,
        warning,
        Some(3),
        one("com.tencent.xinWeChat"),
        one("WeChat"),
        units,
    )
}

pub open spec fn telegram_v() -> RawProfileView {
    profile_v(
        "telegram-desktop"@,
        "Telegram Desktop"@,
        seq![("en"@, "Telegram Desktop account data and downloaded media."@)],
        seq![],
        None,
        seq!["com.tdesktop.Telegram"@],
        seq!["Telegram"@],
        seq![
            unit_v(
                "telegram-desktop-data"@,
                "Telegram Desktop data"@,
                "~/Library/Application Support/Telegram Desktop"@,
                "{target_root}/AppData/Telegram Desktop"@,
                "stable"@,
                true,
                "app-data"@,
            ),
        ],
    )
}

fn telegram() -> (p: RawAppProfile)
    ensures
        p@ == telegram_v(),
{
    let description = vec![text("en", "Telegram Desktop account data and downloaded media.")];
    let warning: Vec<LocalizedText> = Vec::new();
    let units = vec![
        unit(
            "telegram-desktop-data",
            "Telegram Desktop data",
            "~/Library/Application Support/Telegram Desktop",
            "{target_root}/AppData/Telegram Desktop",
            "stable",
            true,
            "app-data",
        ),
    ];
    proof {
        assert(texts_view(description@) =~= telegram_v().description_i18n);
        assert(texts_view(warning@) =~= telegram_v().migration_warning_i18n);
        assert(raw_units_view(units@) =~= telegram_v().units);
    }
    profile(
        "telegram-desktop",
        "Telegram Desktop",
        description,
        warning,
        None,
        one("com.tdesktop.Telegram"),
        one("Telegram"),
        units,
    )
}

pub open spec fn dingtalk_v() -> RawProfileView {
    profile_v(
        "dingtalk"@,
        "DingTalk"@,
        seq![("en"@, "DingTalk images, videos, audio, stickers and mini-app caches."@)],
        seq![],
        None,
        seq!["com.alibaba.DingTalkMac"@],
        seq!["DingTalk"@],
        seq![
            unit_v(
                "dingtalk-web-image"@,
                "Images"@,
                "~/Library/Application Support/DingTalkMac/*/ImageFiles"@,
                "{target_root}/AppData/DingTalk/{match_1}/ImageFiles"@,
                "stable"@,
                false,
                "media"@,
            ),
            unit_v(
                "dingtalk-web-video"@,
                "Videos"@,
                "~/Library/Application Support/DingTalkMac/*/VideoFiles"@,
                "{target_root}/AppData/DingTalk/{match_1}/VideoFiles"@,
                "stable"@,
                false,
                "media"@,
            ),
            unit_v(
                "dingtalk-web-audio"@,
                "Audio"@,
                "~/Library/Application Support/DingTalkMac/*/AudioFiles"@,
                "{target_root}/AppData/DingTalk/{match_1}/AudioFiles"@,
                "stable"@,
                false,
                "media"@,
            ),
            unit_v(
                "dingtalk-web-emotion"@,
                "Stickers"@,
                "~/Library/Application Support/DingTalkMac/*/GifEmotionFiles"@,
                "{target_root}/AppData/DingTalk/{match_1}/GifEmotionFiles"@,
                "stable"@,
                false,
                "media"@,
            ),
            unit_v(
                "dingtalk-web-eapp-download"@,
                "Mini-app downloads"@,
                "~/Library/Application Support/DingTalkMac/*/EAppFiles/download"@,
                "{target_root}/AppData/DingTalk/{match_1}/EAppFiles/download"@,
                "stable"@,
                false,
                "cache"@,
            ),
            unit_v(
                "dingtalk-web-eapp-unziped"@,
                "Mini-app packages"@,
                "~/Library/Application Support/DingTalkMac/*/EAppFiles/unziped"@,
                "{target_root}/AppData/DingTalk/{match_1}/EAppFiles/unziped"@,
                "stable"@,
                false,
                "cache"@,
            ),
        ],
    )
}

fn dingtalk() -> (p: RawAppProfile)
    ensures
        p@ == dingtalk_v(),
{
    let description = vec![text("en", "DingTalk images, videos, audio, stickers and mini-app caches.")];
    let warning: Vec<LocalizedText> = Vec::new();
    let units = vec![
        unit(
            "dingtalk-web-image",
            "Images",
            "~/Library/Application Support/DingTalkMac/*/ImageFiles",
            "{target_root}/AppData/DingTalk/{match_1}/ImageFiles",
            "stable",
            false,
            "media",
        ),
        unit(
            "dingtalk-web-video",
            "Videos",
            "~/Library/Application Support/DingTalkMac/*/VideoFiles",
            "{target_root}/AppData/DingTalk/{match_1}/VideoFiles",
            "stable",
            false,
            "media",
        ),
        unit(
            "dingtalk-web-audio",
            "Audio",
            "~/Library/Application Support/DingTalkMac/*/AudioFiles",
            "{target_root}/AppData/DingTalk/{match_1}/AudioFiles",
            "stable",
            false,
            "media",
        ),
        unit(
            "dingtalk-web-emotion",
            "Stickers",
            "~/Library/Application Support/DingTalkMac/*/GifEmotionFiles",
            "{target_root}/AppData/DingTalk/{match_1}/GifEmotionFiles",
            "stable",
            false,
            "media",
        ),
        unit(
            "dingtalk-web-eapp-download",
            "Mini-app downloads",
            "~/Library/Application Support/DingTalkMac/*/EAppFiles/download",
            "{target_root}/AppData/DingTalk/{match_1}/EAppFiles/download",
            "stable",
            false,
            "cache",
        ),
        unit(
            "dingtalk-web-eapp-unziped",
            "Mini-app packages",
            "~/Library/Application Support/DingTalkMac/*/EAppFiles/unziped",
            "{target_root}/AppData/DingTalk/{match_1}/EAppFiles/unziped",
            "stable",
            false,
            "cache",
        ),
    ];
    proof {
        assert(texts_view(description@) =~= dingtalk_v().description_i18n);
        assert(texts_view(warning@) =~= dingtalk_v().migration_warning_i18n);
        assert(raw_units_view(units@) =~= dingtalk_v().units);
    }
    profile(
        "dingtalk",
        "DingTalk",
        description,
        warning,
        None,
        one("com.alibaba.DingTalkMac"),
        one("DingTalk"),
        units,
    )
}

pub open spec fn feishu_v() -> RawProfileView {
    profile_v(
        "feishu"@,
        "Feishu"@,
        seq![("en"@, "Feishu / Lark message cache and downloaded files."@)],
        seq![],
        None,
        seq!["com.bytedance.macos.feishu"@],
        seq!["Feishu"@],
        seq![
            unit_v(
                "feishu-sdk-storage"@,
                "Feishu data"@,
                "~/Library/Application Support/LarkShell/sdk_storage"@,
                "{target_root}/AppData/Feishu/sdk_storage"@,
                "cautious"@,
                false,
                "app-data"@,
            ),
        ],
    )
}

fn feishu() -> (p: RawAppProfile)
    ensures
        p@ == feishu_v(),
{
    let description = vec![text("en", "Feishu / Lark message cache and downloaded files.")];
    let warning: Vec<LocalizedText> = Vec::new();
    let units = vec![
        unit(
            "feishu-sdk-storage",
            "Feishu data",
            "~/Library/Application Support/LarkShell/sdk_storage",
            "{target_root}/AppData/Feishu/sdk_storage",
            "cautious",
            false,
            "app-data",
        ),
    ];
    proof {
        assert(texts_view(description@) =~= feishu_v().description_i18n);
        assert(texts_view(warning@) =~= feishu_v().migration_warning_i18n);
        assert(raw_units_view(units@) =~= feishu_v().units);
    }
    profile(
        "feishu",
        "Feishu",
        description,
        warning,
        None,
        one("com.bytedance.macos.feishu"),
        one("Feishu"),
        units,
    )
}

pub open spec fn discord_v() -> RawProfileView {
    profile_v(
        "discord"@,
        "Discord"@,
        seq![("en"@, "Discord media cache."@)],
        seq![],
        None,
        seq!["com.hnc.Discord"@],
        seq!["Discord"@],
        seq![
            unit_v(
                "discord-cache"@,
                "Discord cache"@,
                "~/Library/Application Support/discord/Cache"@,
                "{target_root}/AppData/Discord/Cache"@,
                "stable"@,
                true,
                "cache"@,
            ),
        ],
    )
}

fn discord() -> (p: RawAppProfile)
    ensures
        p@ == discord_v(),
{
    let description = vec![text("en", "Discord media cache.")];
    let warning: Vec<LocalizedText> = Vec::new();
    let units = vec![
        unit(
            "discord-cache",
            "Discord cache",
            "~/Library/Application Support/discord/Cache",
            "{target_root}/AppData/Discord/Cache",
            "stable",
            true,
            "cache",
        ),
    ];
    proof {
        assert(texts_view(description@) =~= discord_v().description_i18n);
        assert(texts_view(warning@) =~= discord_v().migration_warning_i18n);
        assert(raw_units_view(units@) =~= discord_v().units);
    }
    profile(
        "discord",
        "Discord",
        description,
        warning,
        None,
        one("com.hnc.Discord"),
        one("Discord"),
        units,
    )
}

/// The built-in catalog: WeChat, Telegram, DingTalk, Feishu and Discord.
pub open spec fn builtin_catalog() -> RawSetView {
    RawSetView {
        app_level: AppDefaultsView {
            availability: "active"@,
            process_policy: RawProcessPolicy {
                require_process_stopped: Some(true),
                require_full_disk_access: Some(true),
            },
        },
        unit_level: UnitDefaultsView {
            enabled: true,
            risk_level: "stable"@,
            allow_bootstrap_if_source_missing: false,
        },
        profiles: seq![wechat_v(), telegram_v(), dingtalk_v(), feishu_v(), discord_v()],
    }
}

/// The built-in catalog in raw form.
pub fn builtin_profile_set() -> (r: RawProfileSet)
    ensures
        r@ == builtin_catalog(),
{
    let profiles = vec![wechat(), telegram(), dingtalk(), feishu(), discord()];
    let r = RawProfileSet {
        engine_defaults: RawEngineDefaults {
            app_level: RawAppLevelDefaults::default(),
            unit_level: RawUnitLevelDefaults::default(),
        },
        profiles,
    };
    assert(r@.profiles =~= builtin_catalog().profiles);
    r
}

/// The loaded catalog, or the message of its first violated rule.
pub fn profile_store() -> (r: Result<Vec<AppProfile>, String>)
    ensures
        load_outcome(
            builtin_catalog(),
            match r {
                Ok(v) => Ok(profiles_view(v@)),
                Err(e) => Err(e@),
            },
        ),
{
    match normalize_profile_set(&builtin_profile_set()) {
        Ok(set) => Ok(set.profiles),
        Err(e) => Err(e),
    }
}

/// Loads the catalog once to surface a broken catalog early.
pub fn initialize_profile_store() -> (r: Result<(), String>)
    ensures
        init_outcome(
            match r {
                Ok(()) => Ok(()),
                Err(e) => Err(e@),
            },
        ),
{
    match profile_store() {
        Ok(v) => {
            assert(normalized_list(profiles_view(v@), builtin_catalog().profiles,
                builtin_catalog().app_level, builtin_catalog().unit_level));
            Ok(())
        },
        Err(e) => Err(e),
    }
}

/// All profiles of the catalog, in catalog order.
pub fn list_profiles() -> (r: Result<Vec<AppProfile>, String>)
    ensures
        load_outcome(
            builtin_catalog(),
            match r {
                Ok(v) => Ok(profiles_view(v@)),
                Err(e) => Err(e@),
            },
        ),
{
    profile_store()
}

/// The outcome of looking up `app_id` in the catalog: the first profile whose
/// (trimmed) identifier equals `app_id`, or none.
pub open spec fn lookup_outcome(app_id: Seq<char>, r: Result<Option<ProfileView>, Seq<char>>) -> bool {
    let raw = builtin_catalog();
    match r {
        Ok(found) => exists|ps: Seq<ProfileView>|
            #[trigger] normalized_list(ps, raw.profiles, raw.app_level, raw.unit_level)
                && validation_error(ps) is None && match found {
                Some(p) => exists|k: int|
                    0 <= k < ps.len() && ps[k] == p && p.app_id == app_id && forall|m: int|
                        0 <= m < k ==> ps[m].app_id != app_id,
                None => forall|m: int| 0 <= m < ps.len() ==> ps[m].app_id != app_id,
            },
        Err(e) => load_outcome(raw, Err(e)),
    }
}

/// The profile whose identifier equals `app_id`.
pub fn profile_by_id(app_id: &str) -> (r: Result<Option<AppProfile>, String>)
    ensures
        lookup_outcome(
            app_id@,
            match r {
                Ok(Some(p)) => Ok(Some(p@)),
                Ok(None) => Ok(None),
                Err(e) => Err(e@),
            },
        ),
{
    let mut profiles = match profile_store() {
        Ok(v) => v,
        Err(e) => return Err(e),
    };
    let ghost pv = profiles_view(profiles@);
    let mut k: usize = 0;
    while k < profiles.len()
        invariant
            k <= profiles.len(),
            pv == profiles_view(profiles@),
            normalized_list(pv, builtin_catalog().profiles, builtin_catalog().app_level,
                builtin_catalog().unit_level),
            validation_error(pv) is None,
            forall|m: int| 0 <= m < k ==> pv[m].app_id != app_id@,
        decreases profiles.len() - k,
    {
        if str_eq(&profiles[k].app_id, app_id) {
            assert(pv[k as int] == profiles@[k as int]@);
            let p = profiles.remove(k);
            assert(pv[k as int] == p@);
            assert(exists|j: int| 0 <= j < pv.len() && pv[j] == p@ && p@.app_id == app_id@ && forall|m: int|
                0 <= m < j ==> pv[m].app_id != app_id@);
            return Ok(Some(p));
        }
        assert(pv[k as int] == profiles@[k as int]@);
        k = k + 1;
    }
    Ok(None)
}

/// Two catalogs agree on what validation reads of each profile: its
/// identifier, availability and units.
pub open spec fn agree_for_validation(ps1: Seq<ProfileView>, ps2: Seq<ProfileView>) -> bool {
    &&& ps1.len() == ps2.len()
    &&& forall|i: int|
        0 <= i < ps1.len() ==> {
            &&& (#[trigger] ps1[i]).app_id == ps2[i].app_id
            &&& ps1[i].availability == ps2[i].availability
            &&& ps1[i].relocation_units == ps2[i].relocation_units
        }
}

proof fn lemma_profile_error_agrees(ps1: Seq<ProfileView>, ps2: Seq<ProfileView>, k: int)
    requires
        agree_for_validation(ps1, ps2),
        0 <= k < ps1.len(),
    ensures
        crate::validation::profile_error(ps1, k) == crate::validation::profile_error(ps2, k),
{
    let a = ps1[k];
    let b = ps2[k];
    assert(a.app_id == b.app_id && a.availability == b.availability && a.relocation_units == b.relocation_units);
    assert(crate::validation::app_id_repeated(ps1, k) == crate::validation::app_id_repeated(ps2, k)) by {
        if crate::validation::app_id_repeated(ps1, k) {
            let m = choose|m: int| 0 <= m < k && crate::text::trim(ps1[m].app_id) == crate::text::trim(ps1[k].app_id);
            assert(ps1[m].app_id == ps2[m].app_id);
        }
        if crate::validation::app_id_repeated(ps2, k) {
            let m = choose|m: int| 0 <= m < k && crate::text::trim(ps2[m].app_id) == crate::text::trim(ps2[k].app_id);
            assert(ps1[m].app_id == ps2[m].app_id);
        }
    }
}

proof fn lemma_errors_from_agree(ps1: Seq<ProfileView>, ps2: Seq<ProfileView>, k: int)
    requires
        agree_for_validation(ps1, ps2),
        0 <= k,
    ensures
        crate::validation::profiles_error_from(ps1, k) == crate::validation::profiles_error_from(ps2, k),
    decreases ps1.len() - k,
{
    if k < ps1.len() {
        lemma_profile_error_agrees(ps1, ps2, k);
        lemma_errors_from_agree(ps1, ps2, k + 1);
    }
}

/// Any two normalisations of a raw catalog agree on what validation reads.
proof fn lemma_normalizations_agree(ps1: Seq<ProfileView>, ps2: Seq<ProfileView>, raw: RawSetView)
    requires
        normalized_list(ps1, raw.profiles, raw.app_level, raw.unit_level),
        normalized_list(ps2, raw.profiles, raw.app_level, raw.unit_level),
    ensures
        agree_for_validation(ps1, ps2),
        validation_error(ps1) == validation_error(ps2),
        forall|i: int| 0 <= i < ps1.len() ==> (#[trigger] ps1[i]).app_id == ps2[i].app_id,
{
    assert forall|i: int| 0 <= i < ps1.len() implies {
        &&& (#[trigger] ps1[i]).app_id == ps2[i].app_id
        &&& ps1[i].availability == ps2[i].availability
        &&& ps1[i].relocation_units == ps2[i].relocation_units
    } by {
        assert(crate::profiles::profile_spec_holds(ps1[i], raw.profiles[i], raw.app_level, raw.unit_level));
        assert(crate::profiles::profile_spec_holds(ps2[i], raw.profiles[i], raw.app_level, raw.unit_level));
    }
    lemma_errors_from_agree(ps1, ps2, 0);
}

/// What loading the store reports: success when the catalog is valid, else
/// the message of its first violated rule.
pub open spec fn init_outcome(r: Result<(), Seq<char>>) -> bool {
    match r {
        Ok(()) => exists|ps: Seq<ProfileView>|
            #[trigger] normalized_list(ps, builtin_catalog().profiles, builtin_catalog().app_level,
                builtin_catalog().unit_level) && validation_error(ps) is None,
        Err(e) => load_outcome(builtin_catalog(), Err(e)),
    }
}

/// Loading is the same every time: initialising the store succeeds exactly
/// when listing the profiles does, and a failed load always reports the same
/// message.
pub proof fn loading_is_consistent(init: Result<(), Seq<char>>, listed: Result<Seq<ProfileView>, Seq<char>>)
    requires
        init_outcome(init),
        load_outcome(builtin_catalog(), listed),
    ensures
        (init is Ok) <==> (listed is Ok),
        init matches Err(e) ==> listed == Err::<Seq<ProfileView>, Seq<char>>(e),
{
    let raw = builtin_catalog();
    match init {
        Ok(()) => {
            let ps1 = choose|ps: Seq<ProfileView>|
                #[trigger] normalized_list(ps, raw.profiles, raw.app_level, raw.unit_level)
                    && validation_error(ps) is None;
            if let Err(e) = listed {
                let ps2 = choose|ps: Seq<ProfileView>|
                    normalized_list(ps, raw.profiles, raw.app_level, raw.unit_level)
                        && #[trigger] validation_error(ps) == Some(e);
                lemma_normalizations_agree(ps1, ps2, raw);
            }
        },
        Err(e1) => {
            let ps1 = choose|ps: Seq<ProfileView>|
                normalized_list(ps, raw.profiles, raw.app_level, raw.unit_level)
                    && #[trigger] validation_error(ps) == Some(e1);
            match listed {
                Ok(ps2) => {
                    lemma_normalizations_agree(ps1, ps2, raw);
                },
                Err(e2) => {
                    let ps2 = choose|ps: Seq<ProfileView>|
                        normalized_list(ps, raw.profiles, raw.app_level, raw.unit_level)
                            && #[trigger] validation_error(ps) == Some(e2);
                    lemma_normalizations_agree(ps1, ps2, raw);
                },
            }
        },
    }
}

/// Looking up a profile agrees with the listing: there is none exactly when
/// no listed profile has that identifier; a found profile has it, and stands
/// for the first listed profile that has it (both are normalised from the
/// same catalog entry).
pub proof fn lookup_agrees_with_listing(
    app_id: Seq<char>,
    listed: Seq<ProfileView>,
    found: Option<ProfileView>,
)
    requires
        load_outcome(builtin_catalog(), Ok(listed)),
        lookup_outcome(app_id, Ok(found)),
    ensures
        (found is None) <==> (forall|k: int| 0 <= k < listed.len() ==> listed[k].app_id != app_id),
        found matches Some(p) ==> p.app_id == app_id && exists|k: int|
            0 <= k < listed.len() && listed[k].app_id == app_id && (forall|m: int|
                0 <= m < k ==> listed[m].app_id != app_id) && crate::profiles::profile_spec_holds(
                p,
                builtin_catalog().profiles[k],
                builtin_catalog().app_level,
                builtin_catalog().unit_level,
            ) && crate::profiles::profile_spec_holds(
                listed[k],
                builtin_catalog().profiles[k],
                builtin_catalog().app_level,
                builtin_catalog().unit_level,
            ),
{
    let raw = builtin_catalog();
    let ps = choose|ps: Seq<ProfileView>|
        #[trigger] normalized_list(ps, raw.profiles, raw.app_level, raw.unit_level)
            && validation_error(ps) is None && match found {
            Some(p) => exists|k: int|
                0 <= k < ps.len() && ps[k] == p && p.app_id == app_id && forall|m: int|
                    0 <= m < k ==> ps[m].app_id != app_id,
            None => forall|m: int| 0 <= m < ps.len() ==> ps[m].app_id != app_id,
        };
    lemma_normalizations_agree(ps, listed, raw);
    match found {
        Some(p) => {
            let k = choose|k: int|
                0 <= k < ps.len() && ps[k] == p && p.app_id == app_id && forall|m: int|
                    0 <= m < k ==> ps[m].app_id != app_id;
            assert(listed[k].app_id == app_id);
            assert forall|m: int| 0 <= m < k implies listed[m].app_id != app_id by {
                assert(ps[m].app_id == listed[m].app_id);
            }
            assert(crate::profiles::profile_spec_holds(ps[k], raw.profiles[k], raw.app_level, raw.unit_level));
            assert(crate::profiles::profile_spec_holds(listed[k], raw.profiles[k], raw.app_level, raw.unit_level));
        },
        None => {
            assert forall|k: int| 0 <= k < listed.len() implies listed[k].app_id != app_id by {
                assert(ps[k].app_id == listed[k].app_id);
            }
        },
    }
}

} // verus!
