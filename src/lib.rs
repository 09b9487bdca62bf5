//! Keycode labels, layer resolution and layout model of a keyboard-layout overlay for
//! QMK/VIA keyboards.
use vstd::prelude::*;

pub mod advanced;
pub mod basic;
pub mod cli;
pub mod constants;
pub mod decimal;
pub mod device_feed;
pub mod hex;
pub mod json;
pub mod key_matrix;
pub mod keyboard_info;
pub mod keycode_label;
pub mod layer;
pub mod layer_state;
pub mod settings;
pub mod settings_window;
pub mod text;

verus! {

} // verus!
