use niri_workspaces_enhanced::{
    contains_placeholder, fill_template, find_placeholder, format_icon, get_raw_icon,
    icon_source_of, Config, IconSource, IconTable, Window, WindowIconFormats, WindowLayout,
};

fn create_test_window(app_id: Option<String>) -> Window {
    Window {
        id: 1,
        title: Some("Test".to_string()),
        app_id,
        pid: None,
        workspace_id: Some(1),
        is_focused: false,
        is_floating: false,
        is_urgent: false,
        layout: WindowLayout { pos_in_scrolling_layout: None, window_size: (0, 0) },
    }
}

fn config_with(focused: &str, urgent: &str, default: &str) -> Config {
    Config {
        window_icon_default: String::new(),
        window_icon_formats: WindowIconFormats {
            focused: focused.to_string(),
            urgent: urgent.to_string(),
            default: default.to_string(),
        },
        window_icons: IconTable::new(),
    }
}

#[test]
fn test_format_icon_default() {
    let config = Config {
        window_icon_default: String::new(),
        window_icon_formats: WindowIconFormats {
            focused: "{icon}".to_string(),
            urgent: "{icon}".to_string(),
            default: "{icon}".to_string(),
        },
        window_icons: IconTable::new(),
    };
    let result = format_icon(&config, "🔥", false, false);
    assert_eq!(result, "🔥");
}

#[test]
fn test_format_icon_focused() {
    let formats = WindowIconFormats {
        focused: "[{icon}]".to_string(),
        urgent: "{icon}".to_string(),
        default: "{icon}".to_string(),
    };
    let config = Config {
        window_icon_default: String::new(),
        window_icon_formats: formats,
        window_icons: IconTable::new(),
    };
    let result = format_icon(&config, "🔥", true, false);
    assert_eq!(result, "[🔥]");
}

#[test]
fn test_format_icon_urgent_takes_precedence() {
    let formats = WindowIconFormats {
        focused: "[{icon}]".to_string(),
        urgent: "!{icon}!".to_string(),
        default: "{icon}".to_string(),
    };
    let config = Config {
        window_icon_default: String::new(),
        window_icon_formats: formats,
        window_icons: IconTable::new(),
    };
    let result = format_icon(&config, "🔥", true, true);
    assert_eq!(result, "!🔥!");
}

#[test]
fn test_get_raw_icon_with_mapping() {
    let mut window_icons = IconTable::new();
    window_icons.insert("firefox".to_string(), "🦊".to_string());
    window_icons.insert("code".to_string(), "💻".to_string());

    let config = Config {
        window_icon_default: "❓".to_string(),
        window_icon_formats: WindowIconFormats {
            focused: "{icon}".to_string(),
            urgent: "{icon}".to_string(),
            default: "{icon}".to_string(),
        },
        window_icons,
    };

    let window = create_test_window(Some("Firefox".to_string()));
    let result = get_raw_icon(&config, &window);
    assert_eq!(result, "🦊");
}

#[test]
fn test_get_raw_icon_no_app_id() {
    let config = Config {
        window_icon_default: "❓".to_string(),
        window_icon_formats: WindowIconFormats {
            focused: "{icon}".to_string(),
            urgent: "{icon}".to_string(),
            default: "{icon}".to_string(),
        },
        window_icons: IconTable::new(),
    };

    let window = create_test_window(None);
    let result = get_raw_icon(&config, &window);
    assert_eq!(result, "❓");
}

#[test]
fn test_get_raw_icon_case_insensitive() {
    let mut window_icons = IconTable::new();
    window_icons.insert("firefox".to_string(), "🦊".to_string());

    let config = Config {
        window_icon_default: String::new(),
        window_icon_formats: WindowIconFormats {
            focused: "{icon}".to_string(),
            urgent: "{icon}".to_string(),
            default: "{icon}".to_string(),
        },
        window_icons,
    };

    let window = create_test_window(Some("FIREFOX".to_string()));
    let result = get_raw_icon(&config, &window);
    assert_eq!(result, "🦊");
}

#[test]
fn raw_icon_is_the_same_in_every_casing() {
    let mut config = config_with("{icon}", "{icon}", "{icon}");
    config.window_icon_default = "?".to_string();
    config.window_icons.insert("org.gnome.nautilus".to_string(), "N".to_string());
    for id in ["org.gnome.nautilus", "org.gnome.Nautilus", "ORG.GNOME.NAUTILUS", "Org.Gnome.nautiluS"] {
        let window = create_test_window(Some(id.to_string()));
        assert_eq!(get_raw_icon(&config, &window), "N");
    }
}

#[test]
fn raw_icon_of_unmapped_identifier_is_the_default() {
    let mut config = config_with("{icon}", "{icon}", "{icon}");
    config.window_icons.insert("firefox".to_string(), "F".to_string());
    let window = create_test_window(Some("unmapped".to_string()));
    assert_eq!(get_raw_icon(&config, &window), "");
    config.window_icon_default = "?".to_string();
    assert_eq!(get_raw_icon(&config, &window), "?");
    assert_eq!(get_raw_icon(&config, &create_test_window(Some(String::new()))), "?");
}

#[test]
fn raw_icon_without_default_is_empty() {
    let config = config_with("{icon}", "{icon}", "{icon}");
    assert_eq!(get_raw_icon(&config, &create_test_window(None)), "");
}

#[test]
fn key_that_is_not_lowercase_is_never_found() {
    let mut config = config_with("{icon}", "{icon}", "{icon}");
    config.window_icon_default = "?".to_string();
    config.window_icons.insert("Firefox".to_string(), "F".to_string());
    for id in ["Firefox", "firefox", "FIREFOX"] {
        let window = create_test_window(Some(id.to_string()));
        assert_eq!(get_raw_icon(&config, &window), "?");
    }
    assert_eq!(config.icon_for_key("Firefox"), "F");
    assert_eq!(config.icon_for_key("firefox"), "?");
}

#[test]
fn icon_for_key_looks_the_key_up_as_it_stands() {
    let mut config = config_with("{icon}", "{icon}", "{icon}");
    config.window_icon_default = "d".to_string();
    config.window_icons.insert("kitty".to_string(), "K".to_string());
    assert_eq!(config.icon_for_key("kitty"), "K");
    assert_eq!(config.icon_for_key("KITTY"), "d");
    assert_eq!(config.icon_for_key(""), "d");
}

#[test]
fn format_precedence_over_all_states() {
    let config = config_with("f({icon})", "u({icon})", "d({icon})");
    assert_eq!(format_icon(&config, "x", false, false), "d(x)");
    assert_eq!(format_icon(&config, "x", true, false), "f(x)");
    assert_eq!(format_icon(&config, "x", false, true), "u(x)");
    assert_eq!(format_icon(&config, "x", true, true), "u(x)");
}

#[test]
fn template_without_placeholder_passes_through() {
    let config = config_with("focused", "", "{icon");
    assert_eq!(format_icon(&config, "x", true, false), "focused");
    assert_eq!(format_icon(&config, "x", false, true), "");
    assert_eq!(format_icon(&config, "x", false, false), "{icon");
    assert_eq!(fill_template("icon}", "x"), "icon}");
    assert_eq!(fill_template("{ icon }", "x"), "{ icon }");
    assert_eq!(fill_template("{ICON}", "x"), "{ICON}");
}

#[test]
fn only_the_first_placeholder_is_replaced() {
    assert_eq!(fill_template("{icon}{icon}", "x"), "x{icon}");
    assert_eq!(fill_template("a{icon}b{icon}c", "xy"), "axyb{icon}c");
    assert_eq!(fill_template("{icon}", "{icon}"), "{icon}");
    assert_eq!(fill_template("<{icon}>", "{icon}{icon}"), "<{icon}{icon}>");
}

#[test]
fn placeholder_is_replaced_wherever_it_stands() {
    assert_eq!(fill_template("{icon}", ""), "");
    assert_eq!(fill_template("{icon}!", "x"), "x!");
    assert_eq!(fill_template("!{icon}", "x"), "!x");
    assert_eq!(fill_template("{{icon}}", "x"), "{x}");
    assert_eq!(fill_template("{ico{icon}n}", "x"), "{icoxn}");
    assert_eq!(fill_template("<span color='red'>{icon}</span>", "🦊"), "<span color='red'>🦊</span>");
    assert_eq!(fill_template("日本{icon}語", "é"), "日本é語");
}

#[test]
fn placeholder_is_found_by_character_index() {
    assert_eq!(find_placeholder("{icon}"), Some(0));
    assert_eq!(find_placeholder("ab{icon}"), Some(2));
    assert_eq!(find_placeholder("日本{icon}{icon}"), Some(2));
    assert_eq!(find_placeholder(""), None);
    assert_eq!(find_placeholder("{icon"), None);
    assert_eq!(find_placeholder("icon}"), None);
    assert_eq!(find_placeholder("{icon }"), None);
    assert!(contains_placeholder("x{icon}"));
    assert!(!contains_placeholder("x{icons"));
    assert!(!contains_placeholder("{Icon}"));
}

#[test]
fn icon_source_tells_where_the_glyph_comes_from() {
    let mut config = config_with("{icon}", "{icon}", "{icon}");
    config.window_icons.insert("firefox".to_string(), "F".to_string());
    assert_eq!(
        icon_source_of(&config, &create_test_window(Some("FireFox".to_string()))),
        IconSource::Table
    );
    assert_eq!(
        icon_source_of(&config, &create_test_window(Some("chromium".to_string()))),
        IconSource::Unmapped
    );
    assert_eq!(icon_source_of(&config, &create_test_window(None)), IconSource::NoAppId);
}
