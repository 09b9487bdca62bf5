use qmk_layout_helper::advanced::{get_advanced_keycode_label, mod_value_to_string};
use qmk_layout_helper::keycode_label::{
    get_basic_keycode_label, get_hex_keycode_label, get_keycode_label, KeycodeKind, KeycodeLabel,
};
use qmk_layout_helper::layer::get_layer_keycode_label;
use qmk_layout_helper::text::decimal_string;

fn long(code: u16) -> Option<String> {
    get_keycode_label(code).long
}

#[test]
fn noop_has_no_text() {
    let l = get_keycode_label(0x0000);
    assert_eq!(l.long, None);
    assert_eq!(l.short, None);
    assert_eq!(l.kind, KeycodeKind::Basic);
    assert_eq!(l.layer_ref, None);
}

#[test]
fn transparent_shows_glyph() {
    let l = get_keycode_label(0x0001);
    assert_eq!(l.long.as_deref(), Some("▽"));
    assert_eq!(l.kind, KeycodeKind::Basic);
}

#[test]
fn basic_letter_and_named_key() {
    assert_eq!(long(0x0004).as_deref(), Some("A"));
    assert_eq!(long(0x001D).as_deref(), Some("Z"));
    assert_eq!(long(0x0027).as_deref(), Some("0"));
    let l = get_keycode_label(0x002A);
    assert_eq!(l.long.as_deref(), Some("Backspace"));
    assert_eq!(l.short.as_deref(), Some("Bspc"));
    assert_eq!(l.kind, KeycodeKind::Special);
    assert_eq!(get_keycode_label(0x00E0).kind, KeycodeKind::Modifier);
    assert_eq!(long(0x7C00).as_deref(), Some("Bootloader"));
}

#[test]
fn momentary_layer_label() {
    let l = get_keycode_label(0x5223);
    assert_eq!(l.long.as_deref(), Some("MO(3)"));
    assert_eq!(l.layer_ref, Some(3));
    assert_eq!(l.kind, KeycodeKind::Basic);
}

#[test]
fn layer_action_labels_and_refs() {
    let cases: [(u16, &str, Option<u8>); 10] = [
        (0x5200, "TO(0)", Some(0)),
        (0x521F, "TO(31)", Some(31)),
        (0x5240, "DF(0)", None),
        (0x5242, "DF(2)", None),
        (0x5265, "TG(5)", Some(5)),
        (0x5281, "OSL(1)", Some(1)),
        (0x52C4, "TT(4)", Some(4)),
        (0x7E05, "CUSTOM(5)", None),
        (0x777F, "MACRO(127)", None),
        (0x7700, "MACRO(0)", None),
    ];
    for (code, text, layer_ref) in cases {
        let l = get_keycode_label(code);
        assert_eq!(l.long.as_deref(), Some(text), "code {:#06X}", code);
        assert_eq!(l.layer_ref, layer_ref, "code {:#06X}", code);
    }
}

#[test]
fn modifier_exact_match() {
    let l = get_keycode_label(0x0100 | 0x04);
    assert_eq!(l.long.as_deref(), Some("LCTL(A)"));
    assert_eq!(l.kind, KeycodeKind::Modifier);
    assert_eq!(long(0x0504).as_deref(), Some("LCA(A)"));
    assert_eq!(long(0x0F04).as_deref(), Some("HYPR(A)"));
    assert_eq!(long(0x1304).as_deref(), Some("RCS(A)"));
    assert_eq!(long(0x1404).as_deref(), Some("ALGR(A)"));
}

#[test]
fn modifier_nested_in_table_order() {
    // Ctrl+Shift on the left has no name of its own: every contained entry nests.
    assert_eq!(long(0x0304).as_deref(), Some("LCTL(C(LSFT(S(A))))"));
    // Ctrl+Alt on the right side.
    assert_eq!(long(0x1504).as_deref(), Some("RCTL(ALGR(RALT(A)))"));
}

#[test]
fn modifier_wrapping_unnamed_key() {
    assert_eq!(long(0x01FF).as_deref(), Some("LCTL(0xFF)"));
    assert_eq!(long(0x0100).as_deref(), Some("LCTL(0x00)"));
    assert_eq!(long(0x0101).as_deref(), Some("LCTL(▽)"));
}

#[test]
fn modifier_range_without_modifier_falls_back_to_hex() {
    assert_eq!(long(0x1004).as_deref(), Some("0x1004"));
    assert!(get_advanced_keycode_label(0x1004).is_none());
}

#[test]
fn mod_tap_labels() {
    assert_eq!(long(0x2204).as_deref(), Some("MT(MOD_LSFT,A)"));
    assert_eq!(long(0x2304).as_deref(), Some("MT(MOD_LCTL | MOD_LSFT,A)"));
    assert_eq!(long(0x2004).as_deref(), Some("MT(None,A)"));
    assert_eq!(get_keycode_label(0x2204).kind, KeycodeKind::Modifier);
}

#[test]
fn layer_mod_label() {
    let l = get_keycode_label(0x5041);
    assert_eq!(l.long.as_deref(), Some("LM(2,MOD_LCTL)"));
    assert_eq!(l.layer_ref, Some(2));
    assert_eq!(l.kind, KeycodeKind::Modifier);
}

#[test]
fn one_shot_mod_label() {
    let l = get_keycode_label(0x52A2);
    assert_eq!(l.long.as_deref(), Some("OSM(MOD_LSFT)"));
    assert_eq!(l.layer_ref, None);
    assert_eq!(long(0x52A0).as_deref(), Some("OSM(None)"));
}

#[test]
fn layer_tap_label() {
    let l = get_keycode_label(0x4104);
    assert_eq!(l.long.as_deref(), Some("LT(1,A)"));
    assert_eq!(l.layer_ref, Some(1));
    let l = get_keycode_label(0x4F28);
    assert_eq!(l.long.as_deref(), Some("LT(15,Enter)"));
    assert_eq!(l.layer_ref, Some(15));
}

#[test]
fn unmatched_codes_are_hex() {
    for code in [0x6000u16, 0x00C5, 0xFFFF, 0x7A0B, 0x52E0, 0x7780] {
        assert_eq!(long(code), Some(format!("0x{:04X}", code)));
    }
    assert_eq!(get_hex_keycode_label(0x00AB).long.as_deref(), Some("0x00AB"));
}

#[test]
fn every_code_but_noop_has_nonempty_text() {
    for code in 1..=u16::MAX {
        let l = get_keycode_label(code);
        let text = l.long.expect("label text");
        assert!(!text.is_empty(), "code {:#06X}", code);
    }
}

#[test]
fn lookup_stages_answer_for_their_own_codes() {
    assert!(get_basic_keycode_label(0x0004).is_some());
    assert!(get_basic_keycode_label(0x5223).is_none());
    assert!(get_layer_keycode_label(0x0004).is_none());
    assert!(get_layer_keycode_label(0x5223).is_some());
    assert!(get_advanced_keycode_label(0x0004).is_none());
}

#[test]
fn mod_mask_text() {
    assert_eq!(mod_value_to_string(0), "None");
    assert_eq!(mod_value_to_string(0x81), "MOD_LCTL | MOD_RGUI");
    assert_eq!(
        mod_value_to_string(0xFF),
        "MOD_LCTL | MOD_LSFT | MOD_LALT | MOD_LGUI | MOD_RCTL | MOD_RSFT | MOD_RALT | MOD_RGUI"
    );
}

#[test]
fn default_label_is_empty_basic() {
    let l = KeycodeLabel::default();
    assert_eq!(l.long, None);
    assert_eq!(l.kind, KeycodeKind::Basic);
}

#[test]
fn decimal_text() {
    assert_eq!(decimal_string(0), "0");
    assert_eq!(decimal_string(1234), "1234");
    assert_eq!(decimal_string(u64::MAX), u64::MAX.to_string());
}
