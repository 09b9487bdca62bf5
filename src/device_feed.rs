use vstd::prelude::*;

use crate::key_matrix::KeyMatrix;
use crate::layer_state::LayerState;
use crate::text::{dec_str, push_decimal};

verus! {

/// Report tag of a layer-state report: a size byte, then the default-layer mask and the
/// momentary-layer mask, each of that many little-endian bytes.
pub const REPORT_LAYER_STATE: u8 = 0xFF;
/// Report tag of a key event: row byte, column byte, pressed byte.
pub const REPORT_KEY_EVENT: u8 = 0xF1;

/// Oldest VIA protocol version whose keycode layout this library decodes.
pub const MIN_PROTOCOL_VERSION: u16 = 12;

/// Accepts a keyboard that speaks protocol `version`, or says why not.
pub fn check_protocol_version(version: u16) -> (r: Result<(), String>)
    ensures
        r is Ok <==> version >= MIN_PROTOCOL_VERSION,
        r matches Err(m) ==> m@ == "Unsupported protocol version: "@ + dec_str(version as nat)
            + ". Minimum required version is 12."@,
{
    if version < MIN_PROTOCOL_VERSION {
        let mut m = String::from_str("Unsupported protocol version: ");
        push_decimal(&mut m, version as u64);
        m.append(". Minimum required version is 12.");
        Err(m)
    } else {
        Ok(())
    }
}

/// What a raw report from the keyboard says.
#[derive(PartialEq, Eq, Structural, Clone, Copy, Debug)]
pub enum DeviceReport {
    LayerChange { default_layers: u32, momentary: u32 },
    KeyEvent { row: u8, col: u8, pressed: bool },
    /// A report of another kind, or one too short for its kind.
    Ignored,
}

/// What the overlay's hide timer should do after a report.
#[derive(PartialEq, Eq, Structural, Clone, Copy, Debug)]
pub enum TimerAction {
    /// A layer above the base is held: stay shown, with no hide deadline.
    StayShown,
    /// Back on the base layer: hide once the configured timeout has passed.
    HideAfterTimeout,
    /// The report does not touch the timer.
    Unchanged,
}

/// The little-endian value of a byte sequence.
pub open spec fn le_value(b: Seq<u8>) -> nat
    decreases b.len(),
{
    if b.len() == 0 {
        0
    } else {
        le_value(b.drop_first()) * 256 + b[0] as nat
    }
}

/// `256` to the power `n`, for `n <= 4`.
pub open spec fn byte_cap(n: int) -> nat {
    if n <= 0 {
        1
    } else if n == 1 {
        256
    } else if n == 2 {
        65536
    } else if n == 3 {
        16777216
    } else {
        4294967296
    }
}

/// What a raw report means.
pub open spec fn report_meaning(r: Seq<u8>) -> DeviceReport {
    if r.len() >= 2 && r[0] == REPORT_LAYER_STATE && r[1] <= 4 && 2 + 2 * r[1] <= r.len() {
        let size = r[1] as int;
        DeviceReport::LayerChange {
            default_layers: le_value(r.subrange(2, 2 + size)) as u32,
            momentary: le_value(r.subrange(2 + size, 2 + 2 * size)) as u32,
        }
    } else if r.len() >= 4 && r[0] == REPORT_KEY_EVENT {
        DeviceReport::KeyEvent { row: r[1], col: r[2], pressed: r[3] != 0 }
    } else {
        DeviceReport::Ignored
    }
}

/// Reads `len` little-endian bytes starting at `start`.
fn read_le(b: &Vec<u8>, start: usize, len: usize) -> (r: u32)
    requires
        len <= 4,
        start + len <= b@.len(),
    ensures
        r as nat == le_value(b@.subrange(start as int, start + len)),
{
    let blen = b.len();
    let mut v: u64 = 0;
    let mut k: usize = len;
    while k > 0
        invariant
            k <= len <= 4,
            start + len <= b@.len(),
            blen == b@.len(),
            v as nat == le_value(b@.subrange(start + k, start + len)),
            v < byte_cap(len - k),
        decreases k,
    {
        k -= 1;
        assert(b@.subrange(start + k, start + len).drop_first() =~= b@.subrange(
            start + k + 1,
            start + len,
        ));
        v = v * 256 + b[start + k] as u64;
    }
    assert(b@.subrange(start + k, start + len) =~= b@.subrange(start as int, start + len));
    v as u32
}

/// Decodes a raw report from the keyboard.
pub fn parse_report(response: &Vec<u8>) -> (r: DeviceReport)
    ensures
        r == report_meaning(response@),
{
    let n = response.len();
    if n >= 2 && response[0] == REPORT_LAYER_STATE && response[1] <= 4 && 2 + 2 * (
    response[1] as usize) <= n {
        let size = response[1] as usize;
        let default_layers = read_le(response, 2, size);
        let momentary = read_le(response, 2 + size, size);
        DeviceReport::LayerChange { default_layers, momentary }
    } else if n >= 4 && response[0] == REPORT_KEY_EVENT {
        DeviceReport::KeyEvent { row: response[1], col: response[2], pressed: response[3] != 0 }
    } else {
        DeviceReport::Ignored
    }
}

/// The hide-timer action that a report calls for.
pub open spec fn timer_action(report: DeviceReport) -> TimerAction {
    match report {
        DeviceReport::LayerChange { momentary, .. } => if momentary > 1 {
            TimerAction::StayShown
        } else {
            TimerAction::HideAfterTimeout
        },
        _ => TimerAction::Unchanged,
    }
}

/// Applies a decoded report: a layer report replaces both masks, a key event records the
/// key's state in the matrix. Returns what the hide timer should do.
pub fn apply_report(state: &mut LayerState, matrix: &mut KeyMatrix, report: DeviceReport) -> (r:
    TimerAction)
    ensures
        r == timer_action(report),
        final(matrix).codes() == old(matrix).codes(),
        match report {
            DeviceReport::LayerChange { default_layers, momentary } => *final(state) == (LayerState {
                momentary,
                default_layers,
            }) && final(matrix).pressed_grid() == old(matrix).pressed_grid(),
            DeviceReport::KeyEvent { row, col, pressed } => *final(state) == *old(state)
                && final(matrix).pressed_grid() == old(matrix).set_pressed_spec(
                row as int,
                col as int,
                pressed,
            ),
            DeviceReport::Ignored => *final(state) == *old(state) && final(matrix).pressed_grid()
                == old(matrix).pressed_grid(),
        },
{
    match report {
        DeviceReport::LayerChange { default_layers, momentary } => {
            state.momentary = momentary;
            state.default_layers = default_layers;
            if momentary > 1 {
                TimerAction::StayShown
            } else {
                TimerAction::HideAfterTimeout
            }
        },
        DeviceReport::KeyEvent { row, col, pressed } => {
            matrix.set_pressed(row as usize, col as usize, pressed);
            TimerAction::Unchanged
        },
        DeviceReport::Ignored => TimerAction::Unchanged,
    }
}

} // verus!
