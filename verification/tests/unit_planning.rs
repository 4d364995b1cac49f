use disk_relocator::paths::expand_tilde;
use disk_relocator::planning::{
    icon_mime_from_ext, icon_needs_conversion, match_profile_bundle, mount_root_from_target_root,
    pick_default_unit, pick_relocation_unit, profile_match_hints, profile_relocation_units,
    render_target_path, resolve_bundle_display_name, resolve_profile_display_name, target_path_for_unit,
    InstalledBundle, MigrationUnitPlan,
};
use disk_relocator::profiles::{AppProfile, PrecheckRules, RelocationUnit};

fn unit(unit_id: &str, display_name: &str, source_path: &str, template: &str) -> RelocationUnit {
    RelocationUnit {
        unit_id: unit_id.to_string(),
        display_name: display_name.to_string(),
        source_path: source_path.to_string(),
        target_path_template: template.to_string(),
        default_enabled: true,
        enabled: true,
        risk_level: "stable".to_string(),
        requires_confirmation: false,
        blocked_reason: None,
        allow_bootstrap_if_source_missing: false,
        category: "app-data".to_string(),
    }
}

fn profile(app_id: &str, display_name: &str, units: Vec<RelocationUnit>) -> AppProfile {
    AppProfile {
        app_id: app_id.to_string(),
        display_name: display_name.to_string(),
        description_i18n: Default::default(),
        migration_warning_i18n: Default::default(),
        migration_warning_countdown_seconds: 0,
        availability: "active".to_string(),
        blocked_reason: None,
        bundle_ids: vec![],
        process_names: vec![],
        relocation_units: units,
        precheck_rules: PrecheckRules::default(),
    }
}

fn plan(unit_id: &str, display_name: &str, source_path: &str, template: &str) -> MigrationUnitPlan {
    MigrationUnitPlan {
        unit_id: unit_id.to_string(),
        display_name: display_name.to_string(),
        source_path: source_path.to_string(),
        target_path_template: template.to_string(),
        default_enabled: true,
        enabled: true,
        risk_level: "stable".to_string(),
        requires_confirmation: false,
        blocked_reason: None,
        allow_bootstrap_if_source_missing: false,
        category: "app-data".to_string(),
    }
}

#[test]
fn profile_relocation_units_filters_empty_source_units() {
    let p = profile(
        "demo",
        "Demo",
        vec![
            unit("u_media", "Media", "~/Library/Demo/Media", "{target_root}/AppData/Demo/Media"),
            unit("u_empty", "Empty", "   ", "{target_root}/AppData/Demo/Empty"),
        ],
    );
    let units = profile_relocation_units(&p, Some("/Users/demo"));
    assert_eq!(units.len(), 1);
    assert_eq!(units[0].unit_id, "u_media");
    assert!(units[0].source_path.ends_with("/Library/Demo/Media"));
    assert_eq!(units[0].source_path, "/Users/demo/Library/Demo/Media");
}

#[test]
fn profile_relocation_units_keep_first_of_duplicate_ids() {
    let mut second = unit("dup", "Second", "/tmp/second", "");
    second.enabled = false;
    let p = profile(
        "demo",
        "Demo",
        vec![unit("dup", "First", "/tmp/first", ""), second, unit("  ", "  ", "/tmp/third", "")],
    );
    let units = profile_relocation_units(&p, None);
    assert_eq!(units.len(), 2);
    assert_eq!(units[0].display_name, "First");
    assert_eq!(units[1].unit_id, "unit-3");
    assert_eq!(units[1].display_name, "unit-3");
}

#[test]
fn pick_relocation_unit_prefers_existing_default_path() {
    let p = profile(
        "demo",
        "Demo",
        vec![
            unit("first", "First", "/tmp/demo/missing", "{target_root}/AppData/Demo/First"),
            unit("second", "Second", "/tmp/demo/existing", "{target_root}/AppData/Demo/Second"),
        ],
    );
    let selected = pick_relocation_unit(&p, None, None, &vec![false, true]).expect("select default unit");
    assert_eq!(selected.unit_id, "second");
}

#[test]
fn pick_relocation_unit_honors_explicit_unit_id() {
    let mut alpha = unit("alpha", "Alpha", "/tmp/demo-alpha", "{target_root}/AppData/Demo/Alpha");
    alpha.default_enabled = false;
    alpha.enabled = false;
    alpha.blocked_reason = Some("disabled".to_string());
    let beta = unit("beta", "Beta", "/tmp/demo-beta", "{target_root}/AppData/Demo/Beta");
    let p = profile("demo", "Demo", vec![alpha, beta]);

    let selected = pick_relocation_unit(&p, Some("alpha"), None, &vec![false, false]).expect("select alpha");
    assert_eq!(selected.unit_id, "alpha");
}

#[test]
fn pick_relocation_unit_trims_unit_id_and_reports_unknown() {
    let p = profile("demo", "Demo", vec![unit("beta", "Beta", "/tmp/b", "")]);
    assert_eq!(pick_relocation_unit(&p, Some("  beta "), None, &vec![]).unwrap().unit_id, "beta");
    assert!(pick_relocation_unit(&p, Some("gamma"), None, &vec![]).is_none());
}

#[test]
fn pick_default_unit_walks_the_preference_tiers() {
    let mut a = plan("a", "A", "/a", "");
    a.default_enabled = false;
    let b = plan("b", "B", "/b", "");
    let mut c = plan("c", "C", "/c", "");
    c.enabled = false;
    let units = vec![a, b, c];
    // enabled + default + present is preferred
    assert_eq!(pick_default_unit(&units, &vec![false, true, true]).unwrap().unit_id, "b");
    // enabled + default wins over enabled + present
    assert_eq!(pick_default_unit(&units, &vec![true, false, false]).unwrap().unit_id, "b");
    let mut only_a = plan("a", "A", "/a", "");
    only_a.default_enabled = false;
    let mut off = plan("z", "Z", "/z", "");
    off.enabled = false;
    let units2 = vec![off, only_a];
    assert_eq!(pick_default_unit(&units2, &vec![]).unwrap().unit_id, "a");
    let mut off2 = plan("y", "Y", "/y", "");
    off2.enabled = false;
    assert!(pick_default_unit(&vec![off2], &vec![true]).is_none());
}

#[test]
fn target_path_for_unit_uses_template_placeholder() {
    let u = plan("main-data", "Main Data", "~/Library/WeChat", "{target_root}/AppData/WeChat");
    let target = target_path_for_unit(&u, "/Volumes/TestSSD");
    assert_eq!(target, "/Volumes/TestSSD/AppData/WeChat");
}

#[test]
fn target_path_for_unit_falls_back_to_default_layout_when_template_empty() {
    let u = plan("custom", "Custom App", "/tmp/custom", "");
    let target = target_path_for_unit(&u, "/Volumes/External");
    assert_eq!(target, "/Volumes/External/AppData/Custom App");
}

#[test]
fn render_target_path_replaces_every_placeholder() {
    assert_eq!(render_target_path("{target_root}/a/{target_root}", "/X", "D"), "/X/a//X");
    assert_eq!(render_target_path("   ", "/X", "D"), "/X/AppData/D");
}

#[test]
fn match_profile_bundle_prefers_bundle_id_when_available() {
    let mut p = profile("wechat-non-mas", "WeChat", vec![]);
    p.bundle_ids = vec!["com.tencent.xinWeChat".to_string()];
    p.process_names = vec!["WeChat".to_string()];
    let bundles = vec![
        InstalledBundle {
            path: "/Applications/WrongWeChat.app".to_string(),
            stem_lc: "wechat".to_string(),
            bundle_id_lc: Some("com.example.wrong".to_string()),
        },
        InstalledBundle {
            path: "/Applications/WeChat.app".to_string(),
            stem_lc: "wechat".to_string(),
            bundle_id_lc: Some("com.tencent.xinwechat".to_string()),
        },
    ];
    let matched = match_profile_bundle(&p, &bundles).expect("should match by bundle id");
    assert_eq!(matched, "/Applications/WeChat.app");
}

#[test]
fn match_profile_bundle_falls_back_to_hint_matching() {
    let mut p = profile("telegram-desktop", "Telegram Desktop", vec![]);
    p.process_names = vec!["Telegram".to_string()];
    let bundles = vec![InstalledBundle {
        path: "/Applications/Telegram.app".to_string(),
        stem_lc: "telegram".to_string(),
        bundle_id_lc: None,
    }];
    let matched = match_profile_bundle(&p, &bundles).expect("should match by hint");
    assert_eq!(matched, "/Applications/Telegram.app");
}

#[test]
fn match_profile_bundle_finds_nothing_without_bundles_or_hints() {
    let p = profile("zzz", "Zzz", vec![]);
    assert!(match_profile_bundle(&p, &vec![]).is_none());
    let bundles = vec![InstalledBundle {
        path: "/Applications/Other.app".to_string(),
        stem_lc: "other".to_string(),
        bundle_id_lc: None,
    }];
    assert!(match_profile_bundle(&p, &bundles).is_none());
}

#[test]
fn profile_match_hints_include_jetbrains_specific_tokens() {
    let mut p = profile("jetbrains-caches", "JetBrains Caches", vec![]);
    p.process_names = vec!["idea".to_string()];
    let hints = profile_match_hints(&p);
    assert!(hints.contains(&"android studio".to_string()));
    assert!(hints.contains(&"pycharm".to_string()));
}

#[test]
fn profile_match_hints_include_display_name_app_id_and_bundle_id() {
    let mut p = profile("wechat-non-mas", "WeChat (Non-MAS)", vec![]);
    p.bundle_ids = vec!["com.tencent.xinWeChat".to_string()];
    p.process_names = vec!["WeChat".to_string()];
    let hints = profile_match_hints(&p);
    assert!(hints.contains(&"wechat (non-mas)".to_string()));
    assert!(hints.contains(&"wechat-non-mas".to_string()));
    assert!(hints.contains(&"com.tencent.xinwechat".to_string()));
    assert_eq!(
        hints,
        vec![
            "wechat".to_string(),
            "wechat (non-mas)".to_string(),
            "wechat-non-mas".to_string(),
            "com.tencent.xinwechat".to_string()
        ]
    );
}

#[test]
fn resolve_profile_display_name_falls_back_without_bundle() {
    let p = profile("demo-app", "Demo App", vec![]);
    let name = resolve_profile_display_name(&p, None);
    assert_eq!(name, "Demo App");
}

#[test]
fn resolve_profile_display_name_prefers_non_blank_bundle_name() {
    let p = profile("demo-app", "Demo App", vec![]);
    assert_eq!(resolve_profile_display_name(&p, Some("Demo".to_string())), "Demo");
    assert_eq!(resolve_profile_display_name(&p, Some("  ".to_string())), "Demo App");
}

#[test]
fn resolve_bundle_display_name_prefers_plist_names_then_stem() {
    assert_eq!(
        resolve_bundle_display_name(Some("Shown".to_string()), Some("Bundle".to_string()), Some("stem".to_string())),
        Some("Shown".to_string())
    );
    assert_eq!(
        resolve_bundle_display_name(Some(" ".to_string()), Some("Bundle".to_string()), Some("stem".to_string())),
        Some("Bundle".to_string())
    );
    assert_eq!(resolve_bundle_display_name(None, None, Some("stem".to_string())), Some("stem".to_string()));
    assert_eq!(resolve_bundle_display_name(None, None, None), None);
}

#[test]
fn expand_tilde_keeps_plain_path_unchanged() {
    let input = "/tmp/demo";
    assert_eq!(expand_tilde(input, Some("/Users/demo")), input);
}

#[test]
fn expand_tilde_expands_home_prefix() {
    assert_eq!(expand_tilde("~/Library/X", Some("/Users/demo")), "/Users/demo/Library/X");
    assert_eq!(expand_tilde("~/Library/X", None), "~/Library/X");
    assert_eq!(expand_tilde("~other/x", Some("/Users/demo")), "~other/x");
}

#[test]
fn mount_root_from_target_root_normalizes_volume_subpath() {
    assert_eq!(
        mount_root_from_target_root("/Volumes/M4_Ext_SSD/DataDock"),
        Some("/Volumes/M4_Ext_SSD".to_string())
    );
    assert_eq!(mount_root_from_target_root("/Volumes/M4_Ext_SSD"), Some("/Volumes/M4_Ext_SSD".to_string()));
    assert_eq!(mount_root_from_target_root("/Volumes"), None);
    assert_eq!(mount_root_from_target_root("/Volumes/"), None);
}

#[test]
fn mount_root_from_target_root_trims_and_accepts_non_volume_path() {
    assert_eq!(mount_root_from_target_root("   "), None);
    assert_eq!(
        mount_root_from_target_root("/Users/cola/ExternalTarget"),
        Some("/Users/cola/ExternalTarget".to_string())
    );
    assert_eq!(mount_root_from_target_root("/"), Some("/".to_string()));
}

#[test]
fn icon_mime_from_ext_maps_known_extensions_and_fallback() {
    assert_eq!(icon_mime_from_ext("icon.jpg"), "image/jpeg");
    assert_eq!(icon_mime_from_ext("icon.webp"), "image/webp");
    assert_eq!(icon_mime_from_ext("icon.gif"), "image/gif");
    assert_eq!(icon_mime_from_ext("icon.unknown"), "image/png");
    assert_eq!(icon_mime_from_ext("ICON.JPEG"), "image/jpeg");
    assert_eq!(icon_mime_from_ext("/tmp/noext"), "image/png");
}

#[test]
fn icon_needs_conversion_only_for_icns() {
    assert!(icon_needs_conversion("/Applications/X.app/Contents/Resources/AppIcon.ICNS"));
    assert!(!icon_needs_conversion("/tmp/icon.png"));
    assert!(!icon_needs_conversion("/tmp/icns"));
}
