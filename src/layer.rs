use vstd::prelude::*;

use crate::constants::{
    QK_DEF_LAYER_END, QK_DEF_LAYER_START, QK_KB_END, QK_KB_START, QK_LAYER_TAP_TOGGLE_END,
    QK_LAYER_TAP_TOGGLE_START, QK_MACRO_END, QK_MACRO_START, QK_MOMENTARY_END, QK_MOMENTARY_START,
    QK_ONE_SHOT_LAYER_END, QK_ONE_SHOT_LAYER_START, QK_TOGGLE_LAYER_END, QK_TOGGLE_LAYER_START,
    QK_TO_END, QK_TO_START,
};
use crate::keycode_label::{plain_label, KeycodeKind, KeycodeLabel, LabelView};
use crate::text::{dec_str, push_decimal};

verus! {

/// `NAME(n)`.
pub open spec fn call_text(name: Seq<char>, n: nat) -> Seq<char> {
    name + "("@ + dec_str(n) + ")"@
}

/// The label of a layer action: the action's name applied to `code - start`, with that
/// index as the layer reference where the action targets a layer.
pub open spec fn action_label(name: Seq<char>, code: u16, start: u16, targets_layer: bool) -> LabelView {
    let n = (code - start) as nat;
    plain_label(
        call_text(name, n),
        KeycodeKind::Basic,
        if targets_layer { Some(n as u8) } else { None },
    )
}

/// The label of a code in one of the ranges of layer actions, checked in this order.
pub open spec fn layer_label(code: u16) -> Option<LabelView> {
    if QK_TO_START <= code < QK_TO_END {
        Some(action_label("TO"@, code, QK_TO_START, true))
    } else if QK_MOMENTARY_START <= code < QK_MOMENTARY_END {
        Some(action_label("MO"@, code, QK_MOMENTARY_START, true))
    } else if QK_TOGGLE_LAYER_START <= code < QK_TOGGLE_LAYER_END {
        Some(action_label("TG"@, code, QK_TOGGLE_LAYER_START, true))
    } else if QK_ONE_SHOT_LAYER_START <= code < QK_ONE_SHOT_LAYER_END {
        Some(action_label("OSL"@, code, QK_ONE_SHOT_LAYER_START, true))
    } else if QK_LAYER_TAP_TOGGLE_START <= code < QK_LAYER_TAP_TOGGLE_END {
        Some(action_label("TT"@, code, QK_LAYER_TAP_TOGGLE_START, true))
    } else if QK_DEF_LAYER_START <= code < QK_DEF_LAYER_END {
        Some(action_label("DF"@, code, QK_DEF_LAYER_START, false))
    } else if QK_KB_START <= code < QK_KB_END {
        Some(action_label("CUSTOM"@, code, QK_KB_START, false))
    } else if QK_MACRO_START <= code < QK_MACRO_END {
        Some(action_label("MACRO"@, code, QK_MACRO_START, false))
    } else {
        None
    }
}

/// Builds `NAME(code - start)` with its layer reference.
fn action(name: &str, code: u16, start: u16, targets_layer: bool) -> (r: KeycodeLabel)
    requires
        start <= code,
        code - start < 256,
    ensures
        r@ == action_label(name@, code, start, targets_layer),
{
    let n = code - start;
    let mut s = String::from_str(name);
    s.append("(");
    push_decimal(&mut s, n as u64);
    s.append(")");
    KeycodeLabel {
        long: Some(s),
        short: None,
        kind: KeycodeKind::Basic,
        layer_ref: if targets_layer { Some(n as u8) } else { None },
    }
}

/// The label of a layer action (`TO`, `MO`, `TG`, `OSL`, `TT`, `DF`, `CUSTOM`, `MACRO`).
pub fn get_layer_keycode_label(keycode_bytes: u16) -> (r: Option<KeycodeLabel>)
    ensures
        r is None <==> layer_label(keycode_bytes) is None,
        r matches Some(l) ==> layer_label(keycode_bytes) == Some(l@),
{
    let b = keycode_bytes;
    if QK_TO_START <= b && b < QK_TO_END {
        Some(action("TO", b, QK_TO_START, true))
    } else if QK_MOMENTARY_START <= b && b < QK_MOMENTARY_END {
        Some(action("MO", b, QK_MOMENTARY_START, true))
    } else if QK_TOGGLE_LAYER_START <= b && b < QK_TOGGLE_LAYER_END {
        Some(action("TG", b, QK_TOGGLE_LAYER_START, true))
    } else if QK_ONE_SHOT_LAYER_START <= b && b < QK_ONE_SHOT_LAYER_END {
        Some(action("OSL", b, QK_ONE_SHOT_LAYER_START, true))
    } else if QK_LAYER_TAP_TOGGLE_START <= b && b < QK_LAYER_TAP_TOGGLE_END {
        Some(action("TT", b, QK_LAYER_TAP_TOGGLE_START, true))
    } else if QK_DEF_LAYER_START <= b && b < QK_DEF_LAYER_END {
        Some(action("DF", b, QK_DEF_LAYER_START, false))
    } else if QK_KB_START <= b && b < QK_KB_END {
        Some(action("CUSTOM", b, QK_KB_START, false))
    } else if QK_MACRO_START <= b && b < QK_MACRO_END {
        Some(action("MACRO", b, QK_MACRO_START, false))
    } else {
        None
    }
}

} // verus!
