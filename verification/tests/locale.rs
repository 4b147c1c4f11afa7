use mix_mixer::i18n::Locale;

#[test]
fn parse_accepts_codes_and_names() {
    assert_eq!(Locale::parse("en"), Some(Locale::En));
    assert_eq!(Locale::parse("  English "), Some(Locale::En));
    assert_eq!(Locale::parse("FR"), Some(Locale::Fr));
    assert_eq!(Locale::parse("french"), Some(Locale::Fr));
    assert_eq!(Locale::parse("Français"), Some(Locale::Fr));
    assert_eq!(Locale::parse("francais"), Some(Locale::Fr));
    assert_eq!(Locale::parse("de"), None);
    assert_eq!(Locale::parse(""), None);
}

#[test]
fn names_parse_back() {
    for l in [Locale::En, Locale::Fr] {
        assert_eq!(Locale::parse(l.code()), Some(l));
        assert_eq!(Locale::parse(l.short_code()), Some(l));
        assert_eq!(Locale::parse(l.display_name()), Some(l));
    }
    assert_eq!(Locale::En.code(), "en");
    assert_eq!(Locale::Fr.short_code(), "FR");
    assert_eq!(Locale::Fr.display_name(), "Français");
}

#[test]
fn resolve_prefers_environment_then_config() {
    assert_eq!(Locale::resolve(Some("fr"), Some("en")), Locale::Fr);
    assert_eq!(Locale::resolve(Some("klingon"), Some("fr")), Locale::Fr);
    assert_eq!(Locale::resolve(None, Some("nope")), Locale::En);
    assert_eq!(Locale::resolve(None, None), Locale::En);
    assert_eq!(Locale::default(), Locale::En);
}

#[test]
fn system_locale_sources() {
    assert_eq!(Locale::from_system(Some("en"), Some(Locale::Fr)), Locale::En);
    assert_eq!(Locale::from_system(None, Some(Locale::Fr)), Locale::Fr);
    assert_eq!(Locale::from_system(Some("xx"), None), Locale::En);
    assert_eq!(Locale::from_posix_value("fr_FR.UTF-8"), Some(Locale::Fr));
    assert_eq!(Locale::from_posix_value("en.UTF-8"), Some(Locale::En));
    assert_eq!(Locale::from_posix_value("C"), None);
    assert_eq!(Locale::from_windows_name("fr-CA"), Some(Locale::Fr));
    assert_eq!(Locale::from_windows_name("EN-us"), Some(Locale::En));
    assert_eq!(Locale::from_windows_name("de-DE"), None);
}

#[test]
fn texts_differ_by_locale() {
    assert_eq!(Locale::En.texts().window_title, "MixMixer — Settings");
    assert_eq!(Locale::Fr.texts().window_title, "MixMixer — Réglages");
    assert_eq!(Locale::Fr.texts().tray_quit, "Quitter");
}

#[test]
fn all_locales_in_picker_order() {
    assert_eq!(Locale::ALL, [Locale::En, Locale::Fr]);
    for l in Locale::ALL {
        assert_eq!(Locale::parse(l.code()), Some(l));
    }
}
