use vstd::prelude::*;

use crate::advanced::{advanced_label, get_advanced_keycode_label};
use crate::basic::{basic_entry, basic_text, BasicName};
use crate::basic::lemma_basic_names_nonempty;
use crate::constants::{
    KC_TRANSPARENT, QK_DEF_LAYER_END, QK_DEF_LAYER_START, QK_KB_END, QK_KB_START,
    QK_LAYER_TAP_TOGGLE_END, QK_LAYER_TAP_TOGGLE_START, QK_MACRO_END, QK_MACRO_START,
    QK_MODS_START, QK_MOMENTARY_END, QK_MOMENTARY_START, QK_ONE_SHOT_LAYER_END,
    QK_ONE_SHOT_LAYER_START, QK_TOGGLE_LAYER_END, QK_TOGGLE_LAYER_START, QK_TO_END, QK_TO_START,
};
use crate::layer::{action_label, get_layer_keycode_label, layer_label};
use crate::text::{hex_str, push_hex};

verus! {

/// How a keycode is classed for display.
#[derive(PartialEq, Eq, Structural, Clone, Copy, Debug)]
pub enum KeycodeKind {
    Basic,
    Modifier,
    Special,
}

/// The decoded, displayable form of a keycode.
pub struct KeycodeLabel {
    /// Full text; `None` for the no-op code.
    pub long: Option<String>,
    /// Abbreviated text for narrow keys.
    pub short: Option<String>,
    pub kind: KeycodeKind,
    /// The layer that a layer action targets.
    pub layer_ref: Option<u8>,
}

/// A label as mathematical values.
pub struct LabelView {
    pub long: Option<Seq<char>>,
    pub short: Option<Seq<char>>,
    pub kind: KeycodeKind,
    pub layer_ref: Option<u8>,
}

pub open spec fn opt_text(o: Option<String>) -> Option<Seq<char>> {
    match o {
        Some(s) => Some(s@),
        None => None,
    }
}

impl View for KeycodeLabel {
    type V = LabelView;

    open spec fn view(&self) -> LabelView {
        LabelView {
            long: opt_text(self.long),
            short: opt_text(self.short),
            kind: self.kind,
            layer_ref: self.layer_ref,
        }
    }
}

/// A label with the given long text, class and layer reference, and no short text.
pub open spec fn plain_label(long: Seq<char>, kind: KeycodeKind, layer_ref: Option<u8>) -> LabelView {
    LabelView { long: Some(long), short: None, kind, layer_ref }
}

/// The label that a basic table entry gives.
pub open spec fn basic_label(e: BasicName) -> LabelView {
    LabelView { long: e.long, short: e.short, kind: e.kind, layer_ref: None }
}

/// The fallback label: `0x` and four upper-case hexadecimal digits.
pub open spec fn hex_label(code: u16) -> LabelView {
    plain_label("0x"@ + hex_str(code as nat, 4), KeycodeKind::Basic, None)
}

/// The label of a keycode: the basic table first, then the layer actions, then the
/// composite ranges, and the hexadecimal form for anything else.
pub open spec fn decode(code: u16) -> LabelView {
    match basic_entry(code) {
        Some(e) => basic_label(e),
        None => match layer_label(code) {
            Some(l) => l,
            None => match advanced_label(code) {
                Some(l) => l,
                None => hex_label(code),
            },
        },
    }
}

impl Default for KeycodeLabel {
    fn default() -> (r: Self)
        ensures
            r.long is None,
            r.short is None,
            r.kind == KeycodeKind::Basic,
            r.layer_ref is None,
    {
        KeycodeLabel { long: None, short: None, kind: KeycodeKind::Basic, layer_ref: None }
    }
}

/// Turns an optional literal into an optional owned string.
fn owned_text(t: Option<&'static str>) -> (r: Option<String>)
    ensures
        opt_text(r) == match t {
            Some(s) => Some(s@),
            None => None::<Seq<char>>,
        },
{
    match t {
        Some(s) => Some(String::from_str(s)),
        None => None,
    }
}

/// The label of a code in the table of basic keycodes, if it has an entry.
pub fn get_basic_keycode_label(code: u16) -> (r: Option<KeycodeLabel>)
    ensures
        r is None <==> basic_entry(code) is None,
        r matches Some(l) ==> l@ == basic_label(basic_entry(code).unwrap()),
{
    match basic_text(code) {
        Some(t) => {
            let l = KeycodeLabel {
                long: owned_text(t.0),
                short: owned_text(t.1),
                kind: t.2,
                layer_ref: None,
            };
            Some(l)
        },
        None => None,
    }
}

/// Decodes a 16-bit keycode into its label. Never fails.
pub fn get_keycode_label(bytes: u16) -> (r: KeycodeLabel)
    ensures
        r@ == decode(bytes),
{
    if let Some(l) = get_basic_keycode_label(bytes) {
        return l;
    }
    if let Some(l) = get_layer_keycode_label(bytes) {
        return l;
    }
    if let Some(l) = get_advanced_keycode_label(bytes) {
        return l;
    }
    get_hex_keycode_label(bytes)
}

/// The fallback label `0xHHHH`.
pub fn get_hex_keycode_label(keycode_bytes: u16) -> (r: KeycodeLabel)
    ensures
        r@ == hex_label(keycode_bytes),
{
    let mut s = String::from_str("0x");
    push_hex(&mut s, keycode_bytes as u64, 4);
    KeycodeLabel { long: Some(s), short: None, kind: KeycodeKind::Basic, layer_ref: None }
}

/// The no-op code has no text; the transparent code shows a downward triangle. Both are
/// basic keys.
pub proof fn lemma_noop_and_transparent()
    ensures
        decode(0).long is None,
        decode(0).short is None,
        decode(0).kind == KeycodeKind::Basic,
        decode(KC_TRANSPARENT).long == Some("▽"@),
        decode(KC_TRANSPARENT).kind == KeycodeKind::Basic,
{
}

/// A code in a range of layer actions is labelled `ACTION(index)`, where the index is the
/// code's offset in its range; the five actions that target a layer also carry that index
/// as their layer reference.
pub proof fn lemma_layer_action_label(code: u16)
    ensures
        QK_TO_START <= code < QK_TO_END ==> decode(code) == action_label(
            "TO"@,
            code,
            QK_TO_START,
            true,
        ),
        QK_MOMENTARY_START <= code < QK_MOMENTARY_END ==> decode(code) == action_label(
            "MO"@,
            code,
            QK_MOMENTARY_START,
            true,
        ),
        QK_TOGGLE_LAYER_START <= code < QK_TOGGLE_LAYER_END ==> decode(code) == action_label(
            "TG"@,
            code,
            QK_TOGGLE_LAYER_START,
            true,
        ),
        QK_ONE_SHOT_LAYER_START <= code < QK_ONE_SHOT_LAYER_END ==> decode(code) == action_label(
            "OSL"@,
            code,
            QK_ONE_SHOT_LAYER_START,
            true,
        ),
        QK_LAYER_TAP_TOGGLE_START <= code < QK_LAYER_TAP_TOGGLE_END ==> decode(code)
            == action_label("TT"@, code, QK_LAYER_TAP_TOGGLE_START, true),
        QK_DEF_LAYER_START <= code < QK_DEF_LAYER_END ==> decode(code) == action_label(
            "DF"@,
            code,
            QK_DEF_LAYER_START,
            false,
        ),
        QK_KB_START <= code < QK_KB_END ==> decode(code) == action_label(
            "CUSTOM"@,
            code,
            QK_KB_START,
            false,
        ),
        QK_MACRO_START <= code < QK_MACRO_END ==> decode(code) == action_label(
            "MACRO"@,
            code,
            QK_MACRO_START,
            false,
        ),
{
}

/// A code outside the basic table and outside every range of layer actions and composite
/// actions is labelled `0x` with its four upper-case hexadecimal digits.
pub proof fn lemma_unmatched_is_hex(code: u16)
    requires
        basic_entry(code) is None,
        !(QK_MODS_START <= code < QK_LAYER_TAP_TOGGLE_END),
        !(QK_MACRO_START <= code < QK_MACRO_END),
        !(QK_KB_START <= code < QK_KB_END),
    ensures
        decode(code) == hex_label(code),
{
}

/// Every code but the no-op has a long text, and no long text is empty.
pub proof fn lemma_label_nonempty(code: u16)
    ensures
        decode(code).long is Some <==> code != 0,
        decode(code).long matches Some(l) ==> l.len() > 0,
{
    lemma_basic_names_nonempty(code);
    reveal_strlit("(");
    reveal_strlit("0x");
    reveal_strlit("MT(");
    reveal_strlit("LM(");
    reveal_strlit("LT(");
    reveal_strlit("OSM(");
}

} // verus!
