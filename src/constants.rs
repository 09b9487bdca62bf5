use vstd::prelude::*;

verus! {

// Ranges of the keycode space, each `[start, end)`, as the firmware's protocol version 12
// lays them out.
pub const QK_MODS_START: u16 = 0x0100;
pub const QK_MODS_END: u16 = 0x2000;
pub const QK_MOD_TAP_START: u16 = 0x2000;
pub const QK_MOD_TAP_END: u16 = 0x4000;
pub const QK_LAYER_TAP_START: u16 = 0x4000;
pub const QK_LAYER_TAP_END: u16 = 0x5000;
pub const QK_LAYER_MOD_START: u16 = 0x5000;
pub const QK_LAYER_MOD_END: u16 = 0x5200;
pub const QK_TO_START: u16 = 0x5200;
pub const QK_TO_END: u16 = 0x5220;
pub const QK_MOMENTARY_START: u16 = 0x5220;
pub const QK_MOMENTARY_END: u16 = 0x5240;
pub const QK_DEF_LAYER_START: u16 = 0x5240;
pub const QK_DEF_LAYER_END: u16 = 0x5260;
pub const QK_TOGGLE_LAYER_START: u16 = 0x5260;
pub const QK_TOGGLE_LAYER_END: u16 = 0x5280;
pub const QK_ONE_SHOT_LAYER_START: u16 = 0x5280;
pub const QK_ONE_SHOT_LAYER_END: u16 = 0x52A0;
pub const QK_ONE_SHOT_MOD_START: u16 = 0x52A0;
pub const QK_ONE_SHOT_MOD_END: u16 = 0x52C0;
pub const QK_LAYER_TAP_TOGGLE_START: u16 = 0x52C0;
pub const QK_LAYER_TAP_TOGGLE_END: u16 = 0x52E0;
pub const QK_MACRO_START: u16 = 0x7700;
pub const QK_MACRO_END: u16 = 0x7780;
pub const QK_KB_START: u16 = 0x7E00;
pub const QK_KB_END: u16 = 0x7F00;

/// The "transparent" keycode: look at the next lower layer.
pub const KC_TRANSPARENT: u16 = 0x0001;

/// Lowest modifier bits of a modifier-wrapped keycode that belong to the right side.
pub const QK_RMODS_MIN: u16 = 0x1000;

} // verus!
