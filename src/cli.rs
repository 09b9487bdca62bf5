use vstd::prelude::*;

use crate::settings::WindowPosition;

verus! {

/// Command-line options of the overlay.
pub struct Cli {
    /// Path to the keyboard information JSON file.
    pub keyboard_config: String,
    /// Name of the keyboard layout to display.
    pub layout_name: String,
    /// Size of a single key unit in pixels; at least 5.
    pub size: i32,
    /// Position of the overlay window.
    pub position: WindowPosition,
    /// Timeout for the overlay in milliseconds.
    pub timeout: u64,
    /// Margin around the overlay window.
    pub margin: u32,
}

} // verus!
