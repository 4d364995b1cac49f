use disk_relocator::catalog::{initialize_profile_store, list_profiles, profile_by_id};
use disk_relocator::profiles::{
    normalize_profile_set, LocalizedText, RawAppLevelDefaults, RawAppProfile, RawEngineDefaults, RawProfileSet,
    RawRelocationUnit, RawUnitLevelDefaults,
};
use std::collections::HashSet;

fn raw_unit(unit_id: &str, source_path: &str, target_path_template: &str) -> RawRelocationUnit {
    RawRelocationUnit {
        unit_id: unit_id.to_string(),
        display_name: String::new(),
        source_path: source_path.to_string(),
        target_path_template: target_path_template.to_string(),
        enabled: None,
        default_enabled: None,
        risk_level: None,
        requires_confirmation: None,
        blocked_reason: None,
        allow_bootstrap_if_source_missing: None,
        category: String::new(),
    }
}

fn raw_set(app_id: &str, display_name: &str, units: Vec<RawRelocationUnit>) -> RawProfileSet {
    RawProfileSet {
        engine_defaults: RawEngineDefaults {
            app_level: RawAppLevelDefaults::default(),
            unit_level: RawUnitLevelDefaults::default(),
        },
        profiles: vec![RawAppProfile {
            app_id: app_id.to_string(),
            display_name: display_name.to_string(),
            description_i18n: Vec::<LocalizedText>::new(),
            migration_warning_i18n: Vec::new(),
            migration_warning_countdown_seconds: None,
            availability: String::new(),
            blocked_reason: None,
            bundle_ids: vec![],
            process_names: vec![],
            units,
            process_policy: None,
        }],
    }
}

#[test]
fn list_profiles_has_unique_app_ids() {
    let profiles = list_profiles().expect("load profiles");
    let mut ids = HashSet::new();
    for profile in profiles {
        assert!(ids.insert(profile.app_id.clone()), "duplicate app_id found: {}", profile.app_id);
    }
}

#[test]
fn wechat_profile_has_expected_bundle_and_mode_flags() {
    let profile = profile_by_id("wechat-non-mas")
        .expect("load profiles")
        .expect("wechat profile should exist");
    assert_eq!(profile.availability, "active");
    assert!(
        profile.bundle_ids.contains(&"com.tencent.xinWeChat".to_string()),
        "wechat profile should contain bundle id com.tencent.xinWeChat"
    );
    assert!(!profile.precheck_rules.allow_bootstrap_if_source_missing);
    let unit = profile
        .relocation_units
        .iter()
        .find(|unit| unit.unit_id == "wechat-core-xwechat-files" && unit.enabled)
        .expect("wechat profile should contain enabled wechat-core-xwechat-files unit");
    assert_eq!(
        unit.source_path,
        "~/Library/Containers/com.tencent.xinWeChat/Data/Documents/xwechat_files"
    );
    assert_eq!(unit.target_path_template, "{target_root}/AppData/WeChat/xwechat_files");
    assert_eq!(unit.risk_level, "high");
    assert!(!profile.migration_warning_i18n.is_empty());
    assert_eq!(profile.migration_warning_countdown_seconds, 3);
}

#[test]
fn dingtalk_profile_has_expected_bundle_process_and_unit_paths() {
    let profile = profile_by_id("dingtalk")
        .expect("load profiles")
        .expect("dingtalk profile should exist");
    assert_eq!(profile.availability, "active");
    assert!(profile.bundle_ids.contains(&"com.alibaba.DingTalkMac".to_string()));
    assert!(profile.process_names.contains(&"DingTalk".to_string()));

    let expected_units = vec![
        (
            "dingtalk-web-image",
            "media",
            "~/Library/Application Support/DingTalkMac/*/ImageFiles",
            "{target_root}/AppData/DingTalk/{match_1}/ImageFiles",
        ),
        (
            "dingtalk-web-video",
            "media",
            "~/Library/Application Support/DingTalkMac/*/VideoFiles",
            "{target_root}/AppData/DingTalk/{match_1}/VideoFiles",
        ),
        (
            "dingtalk-web-audio",
            "media",
            "~/Library/Application Support/DingTalkMac/*/AudioFiles",
            "{target_root}/AppData/DingTalk/{match_1}/AudioFiles",
        ),
        (
            "dingtalk-web-emotion",
            "media",
            "~/Library/Application Support/DingTalkMac/*/GifEmotionFiles",
            "{target_root}/AppData/DingTalk/{match_1}/GifEmotionFiles",
        ),
        (
            "dingtalk-web-eapp-download",
            "cache",
            "~/Library/Application Support/DingTalkMac/*/EAppFiles/download",
            "{target_root}/AppData/DingTalk/{match_1}/EAppFiles/download",
        ),
        (
            "dingtalk-web-eapp-unziped",
            "cache",
            "~/Library/Application Support/DingTalkMac/*/EAppFiles/unziped",
            "{target_root}/AppData/DingTalk/{match_1}/EAppFiles/unziped",
        ),
    ];

    assert_eq!(profile.relocation_units.len(), expected_units.len());

    for (unit_id, category, source_path, target_path_template) in expected_units {
        let unit = profile
            .relocation_units
            .iter()
            .find(|unit| unit.unit_id == unit_id && unit.enabled)
            .unwrap_or_else(|| panic!("dingtalk profile should contain enabled {unit_id}"));
        assert_eq!(unit.category, category);
        assert_eq!(unit.source_path, source_path);
        assert_eq!(unit.target_path_template, target_path_template);
        assert!(!unit.allow_bootstrap_if_source_missing);
    }

    assert!(!profile.precheck_rules.allow_bootstrap_if_source_missing);
}

#[test]
fn active_profiles_require_enabled_units_and_valid_paths() {
    let profiles = list_profiles().expect("load profiles");
    for profile in profiles {
        if profile.availability != "active" {
            continue;
        }
        assert!(
            profile.relocation_units.iter().any(|unit| unit.enabled),
            "active profile {} should have at least one enabled unit",
            profile.app_id
        );
        for unit in &profile.relocation_units {
            assert!(!unit.unit_id.trim().is_empty());
            assert!(!unit.source_path.trim().is_empty());
            if unit.enabled {
                assert!(!unit.target_path_template.trim().is_empty());
            }
        }
    }
}

#[test]
fn profile_by_id_returns_none_for_unknown_app() {
    let unknown = profile_by_id("not-exist-app-id").expect("load profiles");
    assert!(unknown.is_none());
}

#[test]
fn wildcard_source_requires_all_match_placeholders_in_target_template() {
    let set = raw_set(
        "demo",
        "Demo",
        vec![raw_unit(
            "demo-media",
            "~/Library/Demo/*/msg/*",
            "{target_root}/AppData/Demo/{match_1}/msg",
        )],
    );
    let err = normalize_profile_set(&set)
        .err()
        .expect("missing wildcard placeholders should be rejected");
    assert!(err.contains("target_path_template misses {match_2}"), "unexpected error: {err}");
}

#[test]
fn wildcard_source_accepts_target_template_with_all_match_placeholders() {
    let set = raw_set(
        "demo",
        "Demo",
        vec![raw_unit(
            "demo-media",
            "~/Library/Demo/*/msg/*",
            "{target_root}/AppData/Demo/{match_1}/msg/{match_2}",
        )],
    );
    let parsed = normalize_profile_set(&set).expect("all wildcard placeholders should pass validation");
    let profile = parsed
        .profiles
        .iter()
        .find(|profile| profile.app_id == "demo")
        .expect("demo profile should exist");
    assert_eq!(profile.relocation_units.len(), 1);
    assert_eq!(
        profile.relocation_units[0].target_path_template,
        "{target_root}/AppData/Demo/{match_1}/msg/{match_2}"
    );
}

#[test]
fn segment_glob_source_requires_match_placeholder_in_target_template() {
    let set = raw_set(
        "qq",
        "QQ",
        vec![raw_unit("qq-msg-all", "~/Library/QQ/nt_qq_*/msg", "{target_root}/AppData/QQ/msg")],
    );
    let err = normalize_profile_set(&set)
        .err()
        .expect("segment glob without match placeholder should be rejected");
    assert!(err.contains("target_path_template misses {match_1}"), "unexpected error: {err}");
}

#[test]
fn non_wildcard_source_rejects_match_placeholder_in_target_template() {
    let set = raw_set(
        "demo",
        "Demo",
        vec![raw_unit(
            "demo-media",
            "~/Library/Demo/msg",
            "{target_root}/AppData/Demo/{match_1}/msg",
        )],
    );
    let err = normalize_profile_set(&set)
        .err()
        .expect("non-wildcard source should reject match placeholders");
    assert!(err.contains("source_path has no wildcard segment"), "unexpected error: {err}");
    assert!(err.contains("{match_1}"), "unexpected error: {err}");
}

#[test]
fn non_wildcard_source_accepts_template_without_match_placeholder() {
    let set = raw_set(
        "demo",
        "Demo",
        vec![raw_unit("demo-media", "~/Library/Demo/msg", "{target_root}/AppData/Demo/msg")],
    );
    let parsed = normalize_profile_set(&set)
        .expect("non-wildcard source without match placeholder should pass validation");
    let profile = parsed
        .profiles
        .iter()
        .find(|profile| profile.app_id == "demo")
        .expect("demo profile should exist");
    assert_eq!(profile.relocation_units.len(), 1);
    assert_eq!(profile.relocation_units[0].target_path_template, "{target_root}/AppData/Demo/msg");
}

#[test]
fn normalized_profile_fills_unit_defaults() {
    let set = raw_set(
        "demo",
        "  Demo  ",
        vec![raw_unit("", "  ~/Library/Demo/msg  ", "{target_root}/AppData/Demo/msg")],
    );
    let parsed = normalize_profile_set(&set).expect("valid profile");
    let profile = &parsed.profiles[0];
    assert_eq!(profile.display_name, "Demo");
    assert_eq!(profile.availability, "active");
    let unit = &profile.relocation_units[0];
    assert_eq!(unit.unit_id, "unit-1");
    assert_eq!(unit.display_name, "unit-1");
    assert_eq!(unit.source_path, "~/Library/Demo/msg");
    assert_eq!(unit.risk_level, "stable");
    assert!(unit.enabled);
    assert!(!unit.requires_confirmation);
}

#[test]
fn built_in_catalog_loads_and_lookups_agree_with_the_listing() {
    assert!(initialize_profile_store().is_ok());
    assert!(initialize_profile_store().is_ok());
    let listed = list_profiles().expect("catalog lists");
    assert!(!listed.is_empty());
    for p in &listed {
        let found = profile_by_id(&p.app_id).expect("lookup").expect("listed profile is found");
        assert_eq!(found.app_id, p.app_id);
        assert_eq!(found.relocation_units.len(), p.relocation_units.len());
    }
    assert!(profile_by_id("no-such-app").expect("lookup").is_none());
    let first = &listed[0].app_id;
    assert!(profile_by_id(&format!(" {first}")).expect("lookup").is_none());
    let again = list_profiles().expect("catalog lists again");
    assert_eq!(again.len(), listed.len());
}
