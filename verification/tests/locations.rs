use fondant::location::{needs_home, needs_platform_dir, resolve_from};
use fondant::{resolve, ConfigLocation, ConfigPath, FondantError, Format};

fn location(directory: &str, stem: &str, format: Format) -> ConfigLocation {
    ConfigLocation {
        directory: directory.to_string(),
        filename_stem: stem.to_string(),
        format,
    }
}

#[test]
fn parse_splits_a_bare_file_name() {
    let parts = ConfigPath::parse("config.toml");
    assert_eq!(parts.parent, "");
    assert_eq!(parts.filename.as_deref(), Some("config"));
    assert_eq!(parts.extension.as_deref(), Some("toml"));
}

#[test]
fn parse_splits_a_name_in_the_home_directory() {
    let parts = ConfigPath::parse("~/.apprc.json");
    assert_eq!(parts.parent, "~");
    assert_eq!(parts.filename.as_deref(), Some(".apprc"));
    assert_eq!(parts.extension.as_deref(), Some("json"));
}

#[test]
fn parse_splits_a_nested_path() {
    let parts = ConfigPath::parse("/etc/my.app/settings.yaml");
    assert_eq!(parts.parent, "/etc/my.app");
    assert_eq!(parts.filename.as_deref(), Some("settings"));
    assert_eq!(parts.extension.as_deref(), Some("yaml"));
}

#[test]
fn parse_keeps_the_root_as_parent() {
    let parts = ConfigPath::parse("/config.toml");
    assert_eq!(parts.parent, "/");
    assert_eq!(parts.filename.as_deref(), Some("config"));
    assert_eq!(parts.extension.as_deref(), Some("toml"));
}

#[test]
fn parse_without_extension() {
    let parts = ConfigPath::parse("apprc");
    assert_eq!(parts.parent, "");
    assert_eq!(parts.filename.as_deref(), Some("apprc"));
    assert_eq!(parts.extension, None);
}

#[test]
fn parse_of_a_hidden_name_has_no_extension() {
    let parts = ConfigPath::parse(".apprc");
    assert_eq!(parts.filename.as_deref(), Some(".apprc"));
    assert_eq!(parts.extension, None);
}

#[test]
fn parse_of_nothing_declares_nothing() {
    let parts = ConfigPath::parse("");
    assert_eq!(parts.parent, "");
    assert_eq!(parts.filename, None);
    assert_eq!(parts.extension, None);
}

#[test]
fn parse_drops_separators_at_the_end() {
    let parts = ConfigPath::parse("a/b.toml/");
    assert_eq!(parts.parent, "a");
    assert_eq!(parts.filename.as_deref(), Some("b"));
    assert_eq!(parts.extension.as_deref(), Some("toml"));
    let parts = ConfigPath::parse("/etc/app/");
    assert_eq!(parts.parent, "/etc");
    assert_eq!(parts.filename.as_deref(), Some("app"));
    assert_eq!(parts.extension, None);
}

#[test]
fn parse_counts_doubled_separators_once() {
    let parts = ConfigPath::parse("/etc//app///config.json");
    assert_eq!(parts.parent, "/etc//app");
    assert_eq!(parts.filename.as_deref(), Some("config"));
    assert_eq!(parts.extension.as_deref(), Some("json"));
}

#[test]
fn parse_skips_dot_components_at_the_end() {
    let parts = ConfigPath::parse("a/./b.yaml/.");
    assert_eq!(parts.parent, "a");
    assert_eq!(parts.filename.as_deref(), Some("b"));
    assert_eq!(parts.extension.as_deref(), Some("yaml"));
}

#[test]
fn parse_finds_no_file_name_in_dot_and_dot_dot() {
    for declared in [".", "..", "/", "a/..", "./", "/."] {
        let parts = ConfigPath::parse(declared);
        assert_eq!(parts.filename, None, "{:?}", declared);
        assert_eq!(parts.extension, None, "{:?}", declared);
    }
    assert_eq!(ConfigPath::parse("a/..").parent, "a");
    assert_eq!(ConfigPath::parse("/").parent, "");
    assert_eq!(ConfigPath::parse("..").parent, "");
}

#[test]
fn parse_agrees_with_std_on_every_short_text() {
    let mut all = vec![String::new()];
    let mut last = vec![String::new()];
    for _ in 0..7 {
        let mut next = Vec::new();
        for text in &last {
            for c in ['a', '.', '/'] {
                next.push(format!("{}{}", text, c));
            }
        }
        all.extend(next.iter().cloned());
        last = next;
    }
    for declared in all {
        let path = std::path::Path::new(&declared);
        let parts = ConfigPath::parse(&declared);
        let parent = path.parent().and_then(|p| p.to_str()).unwrap_or("");
        assert_eq!(parts.parent, parent, "{:?}", declared);
        assert_eq!(
            parts.filename.as_deref(),
            path.file_stem().and_then(|s| s.to_str()),
            "{:?}",
            declared
        );
        assert_eq!(
            parts.extension.as_deref(),
            path.extension().and_then(|s| s.to_str()),
            "{:?}",
            declared
        );
    }
}

#[test]
fn parse_takes_the_last_dot() {
    let parts = ConfigPath::parse("a.b.c");
    assert_eq!(parts.filename.as_deref(), Some("a.b"));
    assert_eq!(parts.extension.as_deref(), Some("c"));
}

#[test]
fn parse_of_a_trailing_dot_has_an_empty_extension() {
    let parts = ConfigPath::parse("name.");
    assert_eq!(parts.filename.as_deref(), Some("name"));
    assert_eq!(parts.extension.as_deref(), Some(""));
    assert_eq!(parts.format(), None);
}

#[test]
fn default_config_path_declares_nothing() {
    let parts = ConfigPath::default();
    assert_eq!(parts.parent, "");
    assert_eq!(parts.filename, None);
    assert_eq!(parts.extension, None);
}

#[test]
fn undeclared_parts_fall_back_to_config_toml() {
    let parts = ConfigPath::default();
    assert_eq!(parts.file_stem(), "config");
    assert_eq!(parts.format(), Some(Format::Toml));
    assert_eq!(parts.base_dir(), None);
}

#[test]
fn declared_parts_are_used() {
    let parts = ConfigPath::parse("~/.apprc.json");
    assert_eq!(parts.file_stem(), ".apprc");
    assert_eq!(parts.format(), Some(Format::Json));
    assert_eq!(parts.base_dir(), Some("~"));
}

#[test]
fn unsupported_extension_selects_no_format() {
    assert_eq!(ConfigPath::parse("config.ini").format(), None);
    assert_eq!(ConfigPath::parse("config.yamlx").format(), None);
}

#[test]
fn a_yml_name_is_stored_as_yaml() {
    let parts = ConfigPath::parse("/etc/app/settings.yml");
    assert_eq!(parts.extension.as_deref(), Some("yml"));
    let format = parts.format().unwrap();
    assert_eq!(format, Format::Yaml);
    let place = location(&parts.parent, &parts.file_stem(), format);
    assert_eq!(place.path(), "/etc/app/settings.yaml");
}

#[test]
fn location_path_is_directory_stem_extension() {
    let place = location("/home/alice/.config/app", "config", Format::Toml);
    assert_eq!(place.file_name(), "config.toml");
    assert_eq!(place.path(), "/home/alice/.config/app/config.toml");
}

#[test]
fn location_replaces_an_extension_in_the_stem() {
    let place = location("/etc/app", "settings.json", Format::Yaml);
    assert_eq!(place.file_name(), "settings.yaml");
    assert_eq!(place.path(), "/etc/app/settings.yaml");
}

#[test]
fn location_in_the_root_has_one_separator() {
    assert_eq!(location("/", "config", Format::Json).path(), "/config.json");
}

#[test]
fn location_path_parses_back() {
    let place = location("/etc/app", ".apprc", Format::Json);
    let parts = ConfigPath::parse(&place.path());
    assert_eq!(parts.parent, "/etc/app");
    assert_eq!(parts.filename.as_deref(), Some(".apprc"));
    assert_eq!(parts.format(), Some(Format::Json));
}

#[test]
fn lookups_follow_the_override() {
    assert!(needs_platform_dir(None));
    assert!(needs_platform_dir(Some("")));
    assert!(!needs_platform_dir(Some("/etc")));
    assert!(!needs_platform_dir(Some("~")));
    assert!(needs_home(Some("~")));
    assert!(needs_home(Some("~/x")));
    assert!(!needs_home(Some("/etc")));
    assert!(!needs_home(Some("")));
    assert!(!needs_home(None));
}

#[test]
fn resolve_from_uses_the_platform_directory_without_override() {
    let place = resolve_from(
        None,
        "config",
        Format::Toml,
        Some("/home/alice".to_string()),
        Some("/home/alice/.config/app".to_string()),
    )
    .unwrap();
    assert_eq!(place.directory, "/home/alice/.config/app");
    assert_eq!(place.filename_stem, "config");
    assert_eq!(place.format, Format::Toml);
    assert_eq!(place.path(), "/home/alice/.config/app/config.toml");
}

#[test]
fn resolve_from_treats_an_empty_override_as_none() {
    let place =
        resolve_from(Some(""), "config", Format::Toml, None, Some("/cfg/app".to_string())).unwrap();
    assert_eq!(place.path(), "/cfg/app/config.toml");
}

#[test]
fn resolve_from_expands_the_home_shorthand() {
    let place = resolve_from(
        Some("~"),
        ".apprc",
        Format::Json,
        Some("/home/alice".to_string()),
        Some("/home/alice/.config/app".to_string()),
    )
    .unwrap();
    assert_eq!(place.path(), "/home/alice/.apprc.json");
    let below = resolve_from(
        Some("~/sub/dir"),
        "config",
        Format::Yaml,
        Some("/home/alice".to_string()),
        None,
    )
    .unwrap();
    assert_eq!(below.path(), "/home/alice/sub/dir/config.yaml");
}

#[test]
fn resolve_from_uses_other_overrides_verbatim() {
    let place = resolve_from(Some("/etc/app"), "config", Format::Toml, None, None).unwrap();
    assert_eq!(place.path(), "/etc/app/config.toml");
    let relative = resolve_from(Some("conf.d"), "config", Format::Toml, None, None).unwrap();
    assert_eq!(relative.path(), "conf.d/config.toml");
}

#[test]
fn resolve_from_fails_without_the_home_it_needs() {
    let failed = resolve_from(Some("~/x"), "config", Format::Toml, None, Some("/cfg".to_string()));
    assert!(matches!(failed, Err(FondantError::InvalidHomeDir)));
}

#[test]
fn resolve_from_fails_without_the_platform_directory_it_needs() {
    let failed = resolve_from(None, "config", Format::Toml, Some("/home/a".to_string()), None);
    assert!(matches!(failed, Err(FondantError::InvalidHomeDir)));
}

#[test]
fn resolve_with_a_plain_override_does_not_ask_the_system() {
    let place = resolve(Some("/etc/app"), "config", Format::Toml, "app").unwrap();
    assert_eq!(place.directory, "/etc/app");
    assert_eq!(place.path(), "/etc/app/config.toml");
}

#[test]
fn resolve_without_override_ends_in_the_file_name() {
    match resolve(None, "config", Format::Toml, "my_cool_crate") {
        Ok(place) => {
            assert_eq!(place.filename_stem, "config");
            assert_eq!(place.format, Format::Toml);
            assert!(!place.directory.is_empty());
            assert!(place.path().ends_with("config.toml"));
        }
        Err(e) => assert!(matches!(e, FondantError::InvalidHomeDir)),
    }
}

#[test]
fn resolve_with_the_home_shorthand_ends_in_what_follows_it() {
    match resolve(Some("~/.settings"), "apprc", Format::Json, "app") {
        Ok(place) => {
            assert!(place.directory.ends_with("/.settings"));
            assert!(place.path().ends_with("/.settings/apprc.json"));
        }
        Err(e) => assert!(matches!(e, FondantError::InvalidHomeDir)),
    }
}

#[test]
fn parse_agrees_with_std_on_ordinary_names() {
    for declared in [
        "config.toml",
        "apprc",
        ".apprc",
        "~/.apprc.json",
        "/etc/my.app/settings.yaml",
        "/config.toml",
        "conf.d/a.b.c",
    ] {
        let path = std::path::Path::new(declared);
        let parts = ConfigPath::parse(declared);
        assert_eq!(parts.parent, path.parent().and_then(|p| p.to_str()).unwrap_or(""));
        assert_eq!(parts.filename.as_deref(), path.file_stem().and_then(|s| s.to_str()));
        assert_eq!(parts.extension.as_deref(), path.extension().and_then(|s| s.to_str()));
    }
}
