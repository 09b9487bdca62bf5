use qmk_layout_helper::decimal::{parse_i32, parse_u32, parse_u64};
use qmk_layout_helper::settings::{ParseWindowPositionError, Settings, WindowPosition};
use qmk_layout_helper::settings_window::{PickedFile, SettingsApp};

#[test]
fn default_settings() {
    let s = Settings::default();
    assert_eq!(s.keyboard_config_path, "");
    assert_eq!(s.layout_name, "LAYOUT");
    assert_eq!(s.size, 60);
    assert_eq!(s.position, WindowPosition::BottomRight);
    assert_eq!(s.timeout, 2000);
    assert_eq!(s.margin, 10);
    assert!(!s.confirmed);
    assert!(!s.save_settings);
}

#[test]
fn position_names_round_trip() {
    let all = [
        WindowPosition::TopLeft,
        WindowPosition::TopRight,
        WindowPosition::BottomLeft,
        WindowPosition::BottomRight,
        WindowPosition::Bottom,
        WindowPosition::Top,
    ];
    for p in all {
        assert_eq!(WindowPosition::parse(&p.label()), Ok(p));
        assert_eq!(p.label().parse::<WindowPosition>(), Ok(p));
    }
    assert_eq!(WindowPosition::BottomRight.label(), "Bottom Right");
    assert_eq!(WindowPosition::parse("top left"), Err(ParseWindowPositionError));
}

#[test]
fn settings_from_section() {
    let s = Settings::from_section_values(
        Some("/kb/info.json"),
        Some("LAYOUT_split"),
        Some("-40"),
        Some("Top"),
        Some("abc"),
        None,
    );
    assert_eq!(s.keyboard_config_path, "/kb/info.json");
    assert_eq!(s.layout_name, "LAYOUT_split");
    assert_eq!(s.size, -40);
    assert_eq!(s.position, WindowPosition::Top);
    assert_eq!(s.timeout, 2000);
    assert_eq!(s.margin, 10);
    assert!(s.confirmed);
    let s = Settings::from_section_values(None, None, Some("x"), Some("Middle"), Some("+500"), Some("4294967296"));
    assert_eq!(s.layout_name, "LAYOUT");
    assert_eq!(s.size, 60);
    assert_eq!(s.position, WindowPosition::BottomRight);
    assert_eq!(s.timeout, 500);
    assert_eq!(s.margin, 10);
}

#[test]
fn settings_section_entries_round_trip() {
    let mut s = Settings::default();
    s.keyboard_config_path = "a.json".to_string();
    s.size = -7;
    s.position = WindowPosition::TopRight;
    s.timeout = 123456;
    s.margin = 0;
    let e = s.section_entries();
    let pairs: Vec<(&str, &str)> = e.iter().map(|(k, v)| (k.as_str(), v.as_str())).collect();
    assert_eq!(pairs, vec![
        ("keyboard_config_path", "a.json"),
        ("layout_name", "LAYOUT"),
        ("size", "-7"),
        ("position", "Top Right"),
        ("timeout", "123456"),
        ("margin", "0"),
    ]);
    let back = Settings::from_section_values(
        Some(&e[0].1), Some(&e[1].1), Some(&e[2].1), Some(&e[3].1), Some(&e[4].1), Some(&e[5].1),
    );
    assert_eq!(back.size, -7);
    assert_eq!(back.position, WindowPosition::TopRight);
    assert_eq!(back.timeout, 123456);
    assert_eq!(back.margin, 0);
}

#[test]
fn decimal_parsing_matches_std() {
    for s in ["0", "42", "-42", "+7", "", "-", "+", "2147483647", "2147483648", "-2147483648",
        "-2147483649", "4294967295", "4294967296", "18446744073709551615", "18446744073709551616",
        "1a", " 1", "-0", "007", "99999999999999999999999"] {
        assert_eq!(parse_i32(s), s.parse::<i32>().ok(), "i32 {:?}", s);
        assert_eq!(parse_u32(s), s.parse::<u32>().ok(), "u32 {:?}", s);
        assert_eq!(parse_u64(s), s.parse::<u64>().ok(), "u64 {:?}", s);
    }
}

#[test]
fn file_button_label_shows_file_name() {
    let mut s = Settings::default();
    let app = SettingsApp::new(s.copy());
    assert_eq!(app.file_button_label(), "Open file…");
    s.keyboard_config_path = "  /home/u/kb.json \n".to_string();
    assert_eq!(SettingsApp::new(s.copy()).file_button_label(), "kb.json");
    s.keyboard_config_path = "C:\\kb\\x.json".to_string();
    assert_eq!(SettingsApp::new(s.copy()).file_button_label(), "x.json");
    s.keyboard_config_path = "dir/".to_string();
    assert_eq!(SettingsApp::new(s.copy()).file_button_label(), "dir/");
    s.keyboard_config_path = "plain.json".to_string();
    assert_eq!(SettingsApp::new(s.copy()).file_button_label(), "plain.json");
    s.keyboard_config_path = "   ".to_string();
    assert_eq!(SettingsApp::new(s).file_button_label(), "Open file…");
}

#[test]
fn picked_file_outcomes() {
    let mut app = SettingsApp::new(Settings::default());
    app.handle_picked_file("a.json".to_string(), PickedFile::Unreadable("bad".to_string()));
    assert_eq!(app.current.keyboard_config_path, "a.json");
    assert_eq!(app.error.as_deref(), Some("Failed to parse keyboard info from the selected JSON: bad"));
    app.handle_picked_file("b.json".to_string(), PickedFile::NoDevice("gone".to_string()));
    assert_eq!(app.error.as_deref(), Some("Failed to initialize keyboard from the selected JSON: gone"));
    app.handle_picked_file(
        "c.json".to_string(),
        PickedFile::Layouts(vec!["LAYOUT_x".to_string(), "LAYOUT_y".to_string()]),
    );
    assert_eq!(app.error, None);
    assert_eq!(app.current.layout_name, "LAYOUT_x");
    assert_eq!(app.layout_names.len(), 2);
    app.current.layout_name = "LAYOUT_y".to_string();
    app.handle_picked_file("c.json".to_string(), PickedFile::Layouts(vec!["LAYOUT_x".to_string(), "LAYOUT_y".to_string()]));
    assert_eq!(app.current.layout_name, "LAYOUT_y");
    app.handle_picked_file("d.json".to_string(), PickedFile::Layouts(vec![]));
    assert_eq!(app.current.layout_name, "LAYOUT_y");
    assert!(app.layout_names.is_empty());
}
