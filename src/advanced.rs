use vstd::prelude::*;

use crate::basic::{basic_entry, basic_text};
use crate::constants::{
    QK_LAYER_MOD_END, QK_LAYER_MOD_START, QK_LAYER_TAP_END, QK_LAYER_TAP_START, QK_MODS_END,
    QK_MODS_START, QK_MOD_TAP_END, QK_MOD_TAP_START, QK_ONE_SHOT_MOD_END, QK_ONE_SHOT_MOD_START,
    QK_RMODS_MIN,
};
use crate::keycode_label::{plain_label, KeycodeKind, KeycodeLabel, LabelView};
use crate::text::{dec_str, hex_str, push_decimal, push_hex};

verus! {

/// Number of named modifier combinations.
pub const MODIFIER_COUNT: usize = 32;

/// Named modifier combinations of a modifier-wrapped keycode, in the order in which they
/// are tried: single modifiers with their aliases, then combinations. Bits 8 to 11 are
/// Ctrl, Shift, Alt and GUI; bit 12 marks the right side.
pub open spec fn modifier_table() -> Seq<(Seq<char>, u16)> {
    seq![
        ("LCTL"@, 0x0100),
        ("C"@, 0x0100),
        ("LSFT"@, 0x0200),
        ("S"@, 0x0200),
        ("LALT"@, 0x0400),
        ("A"@, 0x0400),
        ("LGUI"@, 0x0800),
        ("LCMD"@, 0x0800),
        ("LWIN"@, 0x0800),
        ("G"@, 0x0800),
        ("RCTL"@, 0x1100),
        ("RSFT"@, 0x1200),
        ("ALGR"@, 0x1400),
        ("RALT"@, 0x1400),
        ("RCMD"@, 0x1800),
        ("RWIN"@, 0x1800),
        ("RGUI"@, 0x1800),
        ("SCMD"@, 0x0A00),
        ("SWIN"@, 0x0A00),
        ("SGUI"@, 0x0A00),
        ("LSG"@, 0x0A00),
        ("LAG"@, 0x0C00),
        ("RSG"@, 0x1A00),
        ("RAG"@, 0x1C00),
        ("LCA"@, 0x0500),
        ("LSA"@, 0x0600),
        ("SAGR"@, 0x1600),
        ("RSA"@, 0x1600),
        ("RCS"@, 0x1300),
        ("LCAG"@, 0x0D00),
        ("MEH"@, 0x0700),
        ("HYPR"@, 0x0F00),
    ]
}

/// One row of the table of named modifier combinations.
fn modifier_entry(i: usize) -> (r: (&'static str, u16))
    requires
        i < MODIFIER_COUNT,
    ensures
        r.0@ == modifier_table()[i as int].0,
        r.1 == modifier_table()[i as int].1,
{
    match i {
        0 => ("LCTL", 0x0100),
        1 => ("C", 0x0100),
        2 => ("LSFT", 0x0200),
        3 => ("S", 0x0200),
        4 => ("LALT", 0x0400),
        5 => ("A", 0x0400),
        6 => ("LGUI", 0x0800),
        7 => ("LCMD", 0x0800),
        8 => ("LWIN", 0x0800),
        9 => ("G", 0x0800),
        10 => ("RCTL", 0x1100),
        11 => ("RSFT", 0x1200),
        12 => ("ALGR", 0x1400),
        13 => ("RALT", 0x1400),
        14 => ("RCMD", 0x1800),
        15 => ("RWIN", 0x1800),
        16 => ("RGUI", 0x1800),
        17 => ("SCMD", 0x0A00),
        18 => ("SWIN", 0x0A00),
        19 => ("SGUI", 0x0A00),
        20 => ("LSG", 0x0A00),
        21 => ("LAG", 0x0C00),
        22 => ("RSG", 0x1A00),
        23 => ("RAG", 0x1C00),
        24 => ("LCA", 0x0500),
        25 => ("LSA", 0x0600),
        26 => ("SAGR", 0x1600),
        27 => ("RSA", 0x1600),
        28 => ("RCS", 0x1300),
        29 => ("LCAG", 0x0D00),
        30 => ("MEH", 0x0700),
        _ => ("HYPR", 0x0F00),
    }
}

/// Name of bit `i` of a one-byte modifier mask.
pub open spec fn mod_flag_name(i: int) -> Seq<char> {
    seq!["MOD_LCTL"@, "MOD_LSFT"@, "MOD_LALT"@, "MOD_LGUI"@, "MOD_RCTL"@, "MOD_RSFT"@, "MOD_RALT"@, "MOD_RGUI"@][i]
}

/// Bit `i` of a one-byte modifier mask.
pub open spec fn mod_flag_bit(i: int) -> u16 {
    seq![0x01u16, 0x02, 0x04, 0x08, 0x10, 0x20, 0x40, 0x80][i]
}

/// Name and bit of flag `i` of a one-byte modifier mask.
fn mod_flag(i: usize) -> (r: (&'static str, u16))
    requires
        i < 8,
    ensures
        r.0@ == mod_flag_name(i as int),
        r.1 == mod_flag_bit(i as int),
{
    match i {
        0 => ("MOD_LCTL", 0x01),
        1 => ("MOD_LSFT", 0x02),
        2 => ("MOD_LALT", 0x04),
        3 => ("MOD_LGUI", 0x08),
        4 => ("MOD_RCTL", 0x10),
        5 => ("MOD_RSFT", 0x20),
        6 => ("MOD_RALT", 0x40),
        _ => ("MOD_RGUI", 0x80),
    }
}

/// How many of the first `n` flags are set in `mask`.
pub open spec fn mod_flag_count(mask: u16, n: nat) -> nat
    decreases n,
{
    if n == 0 {
        0
    } else if mask & mod_flag_bit(n - 1) != 0 {
        mod_flag_count(mask, (n - 1) as nat) + 1
    } else {
        mod_flag_count(mask, (n - 1) as nat)
    }
}

/// Names of the set flags among the first `n`, joined with ` | `.
pub open spec fn mod_flag_text(mask: u16, n: nat) -> Seq<char>
    decreases n,
{
    if n == 0 {
        Seq::empty()
    } else {
        let prev = mod_flag_text(mask, (n - 1) as nat);
        if mask & mod_flag_bit(n - 1) == 0 {
            prev
        } else if mod_flag_count(mask, (n - 1) as nat) == 0 {
            mod_flag_name(n - 1)
        } else {
            prev + " | "@ + mod_flag_name(n - 1)
        }
    }
}

/// A one-byte modifier mask as text: the names of its set flags joined with ` | `,
/// or `None` when no flag is set.
pub open spec fn mod_mask_text(mask: u16) -> Seq<char> {
    if mod_flag_count(mask, 8) == 0 {
        "None"@
    } else {
        mod_flag_text(mask, 8)
    }
}

/// Writes a one-byte modifier mask as text.
pub fn mod_value_to_string(mod_mask: u16) -> (r: String)
    ensures
        r@ == mod_mask_text(mod_mask),
{
    let mut s = String::new();
    let mut count: usize = 0;
    let mut i: usize = 0;
    while i < 8
        invariant
            i <= 8,
            s@ == mod_flag_text(mod_mask, i as nat),
            count == mod_flag_count(mod_mask, i as nat),
            count <= i,
            count == 0 ==> s@.len() == 0,
        decreases 8 - i,
    {
        let (name, bit) = mod_flag(i);
        if mod_mask & bit != 0 {
            if count > 0 {
                s.append(" | ");
            }
            s.append(name);
            count = count + 1;
        }
        assert(s@ =~= mod_flag_text(mod_mask, (i + 1) as nat));
        i += 1;
    }
    if count == 0 {
        String::from_str("None")
    } else {
        s
    }
}

/// The text of a basic keycode inside a composite label: its long name, or `0x` and two
/// hexadecimal digits where it has none.
pub open spec fn key_text(k: u16) -> Seq<char> {
    match basic_entry(k) {
        Some(e) => match e.long {
            Some(l) => l,
            None => "0x"@ + hex_str(k as nat, 2),
        },
        None => "0x"@ + hex_str(k as nat, 2),
    }
}

fn key_string(k: u16) -> (r: String)
    ensures
        r@ == key_text(k),
{
    match basic_text(k) {
        Some((Some(l), _, _)) => String::from_str(l),
        _ => {
            let mut s = String::from_str("0x");
            push_hex(&mut s, k as u64, 2);
            s
        },
    }
}

/// Index of the first table row whose value is exactly `mods`, searching from `i`.
pub open spec fn find_exact(mods: u16, i: nat) -> Option<nat>
    decreases MODIFIER_COUNT - i,
{
    if i >= MODIFIER_COUNT {
        None
    } else if modifier_table()[i as int].1 == mods {
        Some(i)
    } else {
        find_exact(mods, i + 1)
    }
}

/// Whether a table value is on the given side and wholly contained in `mods`.
pub open spec fn selected(mods: u16, right: bool, v: u16) -> bool {
    (if right { v >= QK_RMODS_MIN } else { v < QK_RMODS_MIN }) && mods & v == v
}

/// Each selected name among the first `n` rows, followed by an opening parenthesis.
pub open spec fn nested_prefix(mods: u16, right: bool, n: nat) -> Seq<char>
    decreases n,
{
    if n == 0 {
        Seq::empty()
    } else {
        let prev = nested_prefix(mods, right, (n - 1) as nat);
        let e = modifier_table()[n - 1];
        if selected(mods, right, e.1) {
            prev + e.0 + "("@
        } else {
            prev
        }
    }
}

/// How many of the first `n` rows are selected.
pub open spec fn nested_count(mods: u16, right: bool, n: nat) -> nat
    decreases n,
{
    if n == 0 {
        0
    } else {
        let prev = nested_count(mods, right, (n - 1) as nat);
        if selected(mods, right, modifier_table()[n - 1].1) {
            prev + 1
        } else {
            prev
        }
    }
}

/// `n` closing parentheses.
pub open spec fn closing(n: nat) -> Seq<char> {
    Seq::new(n, |i: int| ')')
}

/// The label of a modifier-wrapped basic keycode: an exact named combination if there is
/// one, else every contained modifier of the code's side, nested in table order.
pub open spec fn mods_label(code: u16) -> Option<LabelView> {
    let key = key_text(code & 0xff);
    let mods = code & 0x1f00;
    match find_exact(mods, 0) {
        Some(i) => Some(
            plain_label(modifier_table()[i as int].0 + "("@ + key + ")"@, KeycodeKind::Modifier, None),
        ),
        None => {
            let right = mods & QK_RMODS_MIN != 0;
            let n = nested_count(mods, right, MODIFIER_COUNT as nat);
            if n > 0 {
                Some(
                    plain_label(
                        nested_prefix(mods, right, MODIFIER_COUNT as nat) + key + closing(n),
                        KeycodeKind::Modifier,
                        None,
                    ),
                )
            } else {
                None
            }
        },
    }
}

/// The label of a code in one of the composite ranges, checked in this order.
pub open spec fn advanced_label(code: u16) -> Option<LabelView> {
    if QK_MODS_START <= code < QK_MODS_END {
        mods_label(code)
    } else if QK_MOD_TAP_START <= code < QK_MOD_TAP_END {
        let rem = code & !QK_MOD_TAP_START;
        Some(
            plain_label(
                "MT("@ + mod_mask_text((rem >> 8u16) & 0x1f) + ","@ + key_text(rem & 0xff) + ")"@,
                KeycodeKind::Modifier,
                None,
            ),
        )
    } else if QK_LAYER_MOD_START <= code < QK_LAYER_MOD_END {
        let rem = code & !QK_LAYER_MOD_START;
        let layer = rem >> 5u16;
        Some(
            plain_label(
                "LM("@ + dec_str(layer as nat) + ","@ + mod_mask_text(rem & 0x1f) + ")"@,
                KeycodeKind::Modifier,
                Some(layer as u8),
            ),
        )
    } else if QK_ONE_SHOT_MOD_START <= code < QK_ONE_SHOT_MOD_END {
        let rem = code & !QK_ONE_SHOT_MOD_START;
        Some(plain_label("OSM("@ + mod_mask_text(rem) + ")"@, KeycodeKind::Modifier, None))
    } else if QK_LAYER_TAP_START <= code < QK_LAYER_TAP_END {
        let rem = code & !QK_LAYER_TAP_START;
        let layer = rem >> 8u16;
        Some(
            plain_label(
                "LT("@ + dec_str(layer as nat) + ","@ + key_text(rem & 0xff) + ")"@,
                KeycodeKind::Modifier,
                Some(layer as u8),
            ),
        )
    } else {
        None
    }
}

fn modifier_label(long: String) -> (r: KeycodeLabel)
    ensures
        r@ == plain_label(long@, KeycodeKind::Modifier, None),
{
    KeycodeLabel { long: Some(long), short: None, kind: KeycodeKind::Modifier, layer_ref: None }
}

fn mods_keycode_label(input_bytes: u16) -> (r: Option<KeycodeLabel>)
    ensures
        r is None <==> mods_label(input_bytes) is None,
        r matches Some(l) ==> mods_label(input_bytes) == Some(l@),
{
    let keycode_str = key_string(input_bytes & 0xff);
    let input_modifiers = input_bytes & 0x1f00;

    // Exact matches first.
    let mut i: usize = 0;
    while i < MODIFIER_COUNT
        invariant
            i <= MODIFIER_COUNT,
            find_exact(input_modifiers, 0) == find_exact(input_modifiers, i as nat),
            keycode_str@ == key_text(input_bytes & 0xff),
            input_modifiers == input_bytes & 0x1f00,
        decreases MODIFIER_COUNT - i,
    {
        let (name, value) = modifier_entry(i);
        if value == input_modifiers {
            assert(find_exact(input_modifiers, i as nat) == Some(i as nat));
            let mut s = String::from_str(name);
            s.append("(");
            s.append(keycode_str.as_str());
            s.append(")");
            let r = modifier_label(s);
            return Some(r);
        }
        i += 1;
    }

    // Left and right side modifiers are mutually exclusive: one flag says which side.
    let is_right_side_mods = (input_modifiers & QK_RMODS_MIN) != 0;
    let mut s = String::new();
    let mut count: usize = 0;
    let mut i: usize = 0;
    while i < MODIFIER_COUNT
        invariant
            i <= MODIFIER_COUNT,
            s@ == nested_prefix(input_modifiers, is_right_side_mods, i as nat),
            count == nested_count(input_modifiers, is_right_side_mods, i as nat),
            count <= i,
            keycode_str@ == key_text(input_bytes & 0xff),
            input_modifiers == input_bytes & 0x1f00,
            is_right_side_mods == (input_modifiers & QK_RMODS_MIN != 0),
            find_exact(input_modifiers, 0) is None,
        decreases MODIFIER_COUNT - i,
    {
        let (name, value) = modifier_entry(i);
        let on_side = if is_right_side_mods { value >= QK_RMODS_MIN } else { value < QK_RMODS_MIN };
        if on_side && input_modifiers & value == value {
            s.append(name);
            s.append("(");
            count += 1;
        }
        i += 1;
    }
    if count == 0 {
        return None;
    }
    s.append(keycode_str.as_str());
    let ghost head = s@;
    let mut j: usize = 0;
    while j < count
        invariant
            j <= count,
            s@ == head + closing(j as nat),
        decreases count - j,
    {
        s.append(")");
        proof {
            reveal_strlit(")");
        }
        assert(head + closing((j + 1) as nat) =~= head + closing(j as nat) + ")"@);
        j += 1;
    }
    Some(modifier_label(s))
}

/// The label of a composite keycode: modifier-wrapped key, mod-tap, layer-mod,
/// one-shot-mod or layer-tap.
pub fn get_advanced_keycode_label(keycode_bytes: u16) -> (r: Option<KeycodeLabel>)
    ensures
        r is None <==> advanced_label(keycode_bytes) is None,
        r matches Some(l) ==> advanced_label(keycode_bytes) == Some(l@),
{
    let input_bytes = keycode_bytes;
    if QK_MODS_START <= input_bytes && input_bytes < QK_MODS_END {
        mods_keycode_label(input_bytes)
    } else if QK_MOD_TAP_START <= input_bytes && input_bytes < QK_MOD_TAP_END {
        let remainder = input_bytes & !QK_MOD_TAP_START;
        let mut s = String::from_str("MT(");
        s.append(mod_value_to_string((remainder >> 8u16) & 0x1f).as_str());
        s.append(",");
        s.append(key_string(remainder & 0xff).as_str());
        s.append(")");
        Some(modifier_label(s))
    } else if QK_LAYER_MOD_START <= input_bytes && input_bytes < QK_LAYER_MOD_END {
        let remainder = input_bytes & !QK_LAYER_MOD_START;
        let layer = remainder >> 5u16;
        let mut s = String::from_str("LM(");
        push_decimal(&mut s, layer as u64);
        s.append(",");
        s.append(mod_value_to_string(remainder & 0x1f).as_str());
        s.append(")");
        Some(
            KeycodeLabel {
                long: Some(s),
                short: None,
                kind: KeycodeKind::Modifier,
                layer_ref: Some(layer as u8),
            },
        )
    } else if QK_ONE_SHOT_MOD_START <= input_bytes && input_bytes < QK_ONE_SHOT_MOD_END {
        let remainder = input_bytes & !QK_ONE_SHOT_MOD_START;
        let mut s = String::from_str("OSM(");
        s.append(mod_value_to_string(remainder).as_str());
        s.append(")");
        Some(modifier_label(s))
    } else if QK_LAYER_TAP_START <= input_bytes && input_bytes < QK_LAYER_TAP_END {
        let remainder = input_bytes & !QK_LAYER_TAP_START;
        let layer = remainder >> 8u16;
        let mut s = String::from_str("LT(");
        push_decimal(&mut s, layer as u64);
        s.append(",");
        s.append(key_string(remainder & 0xff).as_str());
        s.append(")");
        Some(
            KeycodeLabel {
                long: Some(s),
                short: None,
                kind: KeycodeKind::Modifier,
                layer_ref: Some(layer as u8),
            },
        )
    } else {
        None
    }
}

} // verus!
