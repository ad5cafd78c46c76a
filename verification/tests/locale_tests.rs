use minnow_capture::locale::{locale_for_system_tag, normalize_locale_tag, resolve_locale};

#[test]
fn normalize_locale_tag_maps_supported_aliases() {
    assert_eq!(normalize_locale_tag("zh_CN"), "zh-CN");
    assert_eq!(normalize_locale_tag("zh"), "zh-CN");
    assert_eq!(normalize_locale_tag("en-US"), "en");
    assert_eq!(normalize_locale_tag("en"), "en");
}

#[test]
fn normalize_locale_tag_replaces_underscores_for_other_locales() {
    assert_eq!(normalize_locale_tag("pt_BR"), "pt-BR");
}

#[test]
fn normalize_locale_tag_ignores_surrounding_whitespace() {
    assert_eq!(normalize_locale_tag("  zh-CN\t"), "zh-CN");
    assert_eq!(normalize_locale_tag(" de_DE "), "de-DE");
    assert_eq!(normalize_locale_tag("\u{3000}fr_CA\n"), "fr-CA");
}

#[test]
fn blank_or_system_setting_follows_the_system() {
    for setting in ["", "   ", "System", " System "] {
        let locale = resolve_locale(setting);
        assert!(locale == "zh-CN" || locale == "en", "{setting:?} gave {locale}");
    }
}

#[test]
fn resolve_locale_normalizes_explicit_settings() {
    assert_eq!(resolve_locale("en_US"), "en");
    assert_eq!(resolve_locale("zh-CN"), "zh-CN");
    assert_eq!(resolve_locale("ja_JP"), "ja-JP");
}

#[test]
fn system_tag_maps_to_a_supported_locale() {
    assert_eq!(locale_for_system_tag(Some("zh-Hans-CN".to_string())), "zh-CN");
    assert_eq!(locale_for_system_tag(Some("ZH_tw".to_string())), "zh-CN");
    assert_eq!(locale_for_system_tag(Some("en-GB".to_string())), "en");
    assert_eq!(locale_for_system_tag(Some("fr-FR".to_string())), "en");
    assert_eq!(locale_for_system_tag(Some("z".to_string())), "en");
    assert_eq!(locale_for_system_tag(None), "en");
}

#[test]
fn normalized_tags_normalize_to_themselves() {
    for setting in ["pt_BR", " de_DE ", "zh_CN", "en-US", "fr", "x_y_z"] {
        let tag = normalize_locale_tag(setting);
        assert!(!tag.is_empty() && !tag.contains('_') && tag.trim() == tag, "{setting:?} gave {tag:?}");
        assert_eq!(normalize_locale_tag(&tag), tag);
    }
}

#[test]
fn explicit_settings_resolve_as_they_normalize() {
    for setting in ["pt_BR", " de_DE ", "zh_CN", "en-US", "zh", "Systemx"] {
        assert_eq!(resolve_locale(setting), normalize_locale_tag(setting));
    }
}
