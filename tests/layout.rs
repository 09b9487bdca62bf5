use qmk_layout_helper::hex::hex_to_u16;
use qmk_layout_helper::json::{JsonNumber, JsonValue};
use qmk_layout_helper::key_matrix::{keycodes_from_raw, KeyMatrix};
use qmk_layout_helper::keyboard_info::{Key, KeyboardInfo, KeyboardLayout, LayoutError};

fn num(u: u64) -> JsonValue {
    JsonValue::Number(JsonNumber { unsigned: Some(u), milli: Some((u * 1000) as i32) })
}

fn frac(milli: i32) -> JsonValue {
    JsonValue::Number(JsonNumber { unsigned: None, milli: Some(milli) })
}

fn text(s: &str) -> JsonValue {
    JsonValue::Str(s.to_string())
}

fn obj(members: Vec<(&str, JsonValue)>) -> JsonValue {
    JsonValue::Object(members.into_iter().map(|(k, v)| (k.to_string(), v)).collect())
}

fn pins(n: usize) -> JsonValue {
    JsonValue::Array((0..n).map(|i| text(&format!("P{}", i))).collect())
}

fn key(row: u64, col: u64) -> JsonValue {
    obj(vec![("matrix", JsonValue::Array(vec![num(row), num(col)]))])
}

fn description(keys: Vec<JsonValue>, split: bool) -> JsonValue {
    obj(vec![
        ("usb", obj(vec![("vid", text("0x4B42")), ("pid", text("0x0001"))])),
        ("matrix_pins", obj(vec![("rows", pins(4)), ("cols", pins(12))])),
        ("split", obj(vec![("enabled", JsonValue::Bool(split))])),
        ("layouts", obj(vec![("LAYOUT", obj(vec![("layout", JsonValue::Array(keys))]))])),
    ])
}

#[test]
fn loaded_key_keeps_matrix_position_and_keycode() {
    let info = KeyboardInfo::from_json(&description(vec![key(1, 5)], false)).unwrap();
    assert_eq!(info.rows, 4);
    assert_eq!(info.cols, 12);
    assert_eq!(info.vid, 0x4B42);
    assert_eq!(info.pid, 0x0001);
    let layout = info.get_layout("LAYOUT").unwrap();
    assert_eq!(layout.keys.len(), 1);
    assert_eq!(layout.keys[0].row, 1);
    assert_eq!(layout.keys[0].col, 5);
    let mut flat = vec![0u16; 48];
    flat[12 + 5] = 0x0004;
    let codes = keycodes_from_raw(&vec![flat], 1, info.rows, info.cols);
    let m = KeyMatrix::new(codes, info.rows, info.cols);
    let k = &layout.keys[0];
    assert_eq!(m.get_keycode(0, k.row as usize, k.col as usize), 0x0004);
}

#[test]
fn key_geometry_defaults() {
    let k = obj(vec![
        ("matrix", JsonValue::Array(vec![num(0), num(1)])),
        ("x", frac(2500)),
        ("w", frac(1750)),
    ]);
    let info = KeyboardInfo::from_json(&description(vec![k], false)).unwrap();
    let key = info.layouts[0].keys[0];
    assert_eq!(key, Key { row: 0, col: 1, x: 2500, y: 0, w: 1750, h: 1000 });
}

#[test]
fn split_keyboard_doubles_rows() {
    let info = KeyboardInfo::from_json(&description(vec![key(7, 0)], true)).unwrap();
    assert_eq!(info.rows, 8);
}

#[test]
fn dimensions_cover_all_keys() {
    let layout = KeyboardLayout {
        name: "L".to_string(),
        keys: vec![
            Key { row: 0, col: 0, x: 0, y: 0, w: 1000, h: 1000 },
            Key { row: 0, col: 1, x: 14000, y: 3000, w: 2250, h: 1000 },
            Key { row: 1, col: 0, x: 1000, y: 4000, w: 1000, h: 2000 },
        ],
    };
    assert_eq!(layout.get_dimensions(), (16250, 6000));
    let empty = KeyboardLayout { name: "E".to_string(), keys: vec![] };
    assert_eq!(empty.get_dimensions(), (0, 0));
}

#[test]
fn layout_names_and_lookup() {
    let d = obj(vec![
        ("usb", obj(vec![("vid", text("feed")), ("pid", text("0x6060"))])),
        ("matrix_pins", obj(vec![("rows", pins(2)), ("cols", pins(2))])),
        ("layouts", obj(vec![
            ("LAYOUT_a", obj(vec![("layout", JsonValue::Array(vec![key(0, 0)]))])),
            ("LAYOUT_b", obj(vec![("layout", JsonValue::Array(vec![key(1, 1), key(0, 1)]))])),
        ])),
    ]);
    let info = KeyboardInfo::from_json(&d).unwrap();
    assert_eq!(info.vid, 0xFEED);
    assert_eq!(info.get_layout_names(), vec!["LAYOUT_a".to_string(), "LAYOUT_b".to_string()]);
    assert_eq!(info.get_layout("LAYOUT_b").unwrap().keys.len(), 2);
    assert_eq!(info.get_layout("nope").err(), Some(LayoutError::LayoutNotFound));
}

#[test]
fn missing_fields_are_reported() {
    let no_pins = obj(vec![("usb", obj(vec![("vid", text("1")), ("pid", text("2"))]))]);
    assert_eq!(KeyboardInfo::from_json(&no_pins).err(), Some(LayoutError::NoMatrixPins));
    let no_rows = obj(vec![("matrix_pins", obj(vec![("cols", pins(2))]))]);
    assert_eq!(KeyboardInfo::from_json(&no_rows).err(), Some(LayoutError::NoRows));
    let no_cols = obj(vec![("matrix_pins", obj(vec![("rows", pins(2))]))]);
    assert_eq!(KeyboardInfo::from_json(&no_cols).err(), Some(LayoutError::NoCols));
    let no_usb = obj(vec![("matrix_pins", obj(vec![("rows", pins(2)), ("cols", pins(2))]))]);
    assert_eq!(KeyboardInfo::from_json(&no_usb).err(), Some(LayoutError::NoUsb));
    let bad_vid = obj(vec![
        ("matrix_pins", obj(vec![("rows", pins(2)), ("cols", pins(2))])),
        ("usb", obj(vec![("vid", text("zz")), ("pid", text("2"))])),
    ]);
    assert_eq!(KeyboardInfo::from_json(&bad_vid).err(), Some(LayoutError::BadVid));
    let bad_pid = obj(vec![
        ("matrix_pins", obj(vec![("rows", pins(2)), ("cols", pins(2))])),
        ("usb", obj(vec![("vid", text("1")), ("pid", num(2))])),
    ]);
    assert_eq!(KeyboardInfo::from_json(&bad_pid).err(), Some(LayoutError::BadPid));
    let no_layouts = obj(vec![
        ("matrix_pins", obj(vec![("rows", pins(2)), ("cols", pins(2))])),
        ("usb", obj(vec![("vid", text("1")), ("pid", text("2"))])),
    ]);
    assert_eq!(KeyboardInfo::from_json(&no_layouts).err(), Some(LayoutError::NoLayouts));
}

#[test]
fn malformed_keys_are_reported() {
    let no_array = obj(vec![
        ("usb", obj(vec![("vid", text("1")), ("pid", text("2"))])),
        ("matrix_pins", obj(vec![("rows", pins(2)), ("cols", pins(2))])),
        ("layouts", obj(vec![("L", obj(vec![]))])),
    ]);
    assert_eq!(KeyboardInfo::from_json(&no_array).err(), Some(LayoutError::NoLayoutArray));
    let short = obj(vec![("matrix", JsonValue::Array(vec![num(1)]))]);
    assert_eq!(KeyboardInfo::from_json(&description(vec![short], false)).err(), Some(LayoutError::BadMatrix));
    let not_int = obj(vec![("matrix", JsonValue::Array(vec![num(1), frac(500)]))]);
    assert_eq!(KeyboardInfo::from_json(&description(vec![not_int], false)).err(), Some(LayoutError::BadMatrix));
    let outside = key(4, 0);
    assert_eq!(
        KeyboardInfo::from_json(&description(vec![key(0, 0), outside], false)).err(),
        Some(LayoutError::KeyOutOfMatrix)
    );
    assert_eq!(KeyboardInfo::from_json(&description(vec![key(0, 12)], false)).err(), Some(LayoutError::KeyOutOfMatrix));
}

#[test]
fn error_messages_name_the_field() {
    assert_eq!(LayoutError::NoRows.message(), "Unable to find 'rows' array in 'matrix_pins'.");
    assert!(LayoutError::BadVid.message().contains("vid"));
}

#[test]
fn hex_ids() {
    assert_eq!(hex_to_u16("0x4B42"), Some(0x4B42));
    assert_eq!(hex_to_u16("feed"), Some(0xFEED));
    assert_eq!(hex_to_u16("0x0x10"), Some(0x10));
    assert_eq!(hex_to_u16("+1F"), Some(0x1F));
    assert_eq!(hex_to_u16("FFFF"), Some(0xFFFF));
    assert_eq!(hex_to_u16(""), None);
    assert_eq!(hex_to_u16("0x"), None);
    assert_eq!(hex_to_u16("+"), None);
    assert_eq!(hex_to_u16("10000"), None);
    assert_eq!(hex_to_u16("g1"), None);
    assert_eq!(hex_to_u16("1g"), None);
    assert_eq!(hex_to_u16("-1"), None);
}

#[test]
fn layout_aliases_select_their_layout() {
    let d = obj(vec![
        ("usb", obj(vec![("vid", text("1")), ("pid", text("2"))])),
        ("matrix_pins", obj(vec![("rows", pins(2)), ("cols", pins(2))])),
        ("layouts", obj(vec![
            ("LAYOUT_a", obj(vec![("layout", JsonValue::Array(vec![key(0, 0)]))])),
            ("LAYOUT_b", obj(vec![("layout", JsonValue::Array(vec![key(1, 1), key(0, 1)]))])),
        ])),
        ("layout_aliases", obj(vec![
            ("LAYOUT", text("LAYOUT_b")),
            ("LAYOUT_a", text("LAYOUT_b")),
            ("broken", num(3)),
            ("dangling", text("LAYOUT_z")),
        ])),
    ]);
    let info = KeyboardInfo::from_json(&d).unwrap();
    assert_eq!(info.aliases.len(), 3);
    assert_eq!(info.get_layout("LAYOUT").unwrap().name, "LAYOUT_b");
    // A layout's own name wins over an alias of the same name.
    assert_eq!(info.get_layout("LAYOUT_a").unwrap().keys.len(), 1);
    assert_eq!(info.get_layout("broken").err(), Some(LayoutError::LayoutNotFound));
    assert_eq!(info.get_layout("dangling").err(), Some(LayoutError::LayoutNotFound));
}
