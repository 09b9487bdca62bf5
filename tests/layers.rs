use qmk_layout_helper::device_feed::{
    apply_report, check_protocol_version, parse_report, DeviceReport, TimerAction,
};
use qmk_layout_helper::key_matrix::{keycodes_from_raw, KeyMatrix};
use qmk_layout_helper::layer_state::LayerState;

const TRNS: u16 = 0x0001;

fn matrix(cells: &[u16]) -> KeyMatrix {
    let keycodes: Vec<Vec<Vec<u16>>> = cells.iter().map(|c| vec![vec![*c, 0x0005]]).collect();
    KeyMatrix::new(keycodes, 1, 2)
}

fn state(momentary: u32, default_layers: u32) -> LayerState {
    LayerState { momentary, default_layers }
}

#[test]
fn momentary_layer_with_key_wins() {
    let m = matrix(&[0x0004, 0x0006, 0x0007]);
    assert_eq!(state(1 << 2, 1).get_effective_key_layer(&m, 0, 0), (2, false));
}

#[test]
fn transparent_momentary_falls_to_default_layer() {
    let m = matrix(&[0x0004, 0x0006, TRNS]);
    assert_eq!(state(0, 1 << 1).get_effective_key_layer(&m, 0, 0), (1, false));
}

#[test]
fn default_layer_under_engaged_momentary_is_background() {
    let m = matrix(&[0x0004, 0x0006, 0x0007, TRNS]);
    assert_eq!(state(1 << 3, 1 << 1).get_effective_key_layer(&m, 0, 0), (1, true));
}

#[test]
fn fallback_to_layer_zero() {
    let m = matrix(&[0x0004, 0x0006, TRNS]);
    assert_eq!(state(0, 0).get_effective_key_layer(&m, 0, 0), (0, false));
    assert_eq!(state(1 << 2, 0).get_effective_key_layer(&m, 0, 0), (0, true));
    let empty = KeyMatrix::new(Vec::new(), 0, 0);
    assert_eq!(state(u32::MAX, u32::MAX).get_effective_key_layer(&empty, 0, 0), (0, false));
}

#[test]
fn momentary_layer_found_is_not_background() {
    let m = matrix(&[0x0004, 0x0006, 0x0007, 0x0008]);
    // Layer 2 is both default and momentary, with momentary layer 3 transparent... here 3 has a key.
    assert_eq!(state(1 << 3, 1 << 2).get_effective_key_layer(&m, 0, 0), (3, false));
    let m = matrix(&[0x0004, 0x0006, 0x0007, TRNS]);
    assert_eq!(state((1 << 3) | (1 << 2), 1 << 2).get_effective_key_layer(&m, 0, 0), (2, true));
}

#[test]
fn layers_beyond_mask_width_are_ignored() {
    let mut cells = vec![0x0004u16; 40];
    cells[35] = 0x0009;
    let m = matrix(&cells);
    assert_eq!(state(u32::MAX, 0).get_effective_key_layer(&m, 0, 0), (31, false));
}

#[test]
fn out_of_bounds_keycode_is_zero() {
    let m = matrix(&[0x0004, 0x0006, 0x0007]);
    assert_eq!(m.get_num_layers(), 3);
    assert_eq!(m.get_keycode(99, 0, 0), 0);
    assert_eq!(m.get_keycode(0, 9, 0), 0);
    assert_eq!(m.get_keycode(0, 0, 9), 0);
    assert_eq!(m.get_keycode(1, 0, 0), 0x0006);
    assert_eq!(m.get_keycode(2, 0, 1), 0x0005);
}

#[test]
fn pressed_grid_tracks_events() {
    let mut m = KeyMatrix::new(vec![vec![vec![0; 3]; 2]], 2, 3);
    assert!(!m.is_pressed(1, 2));
    m.set_pressed(1, 2, true);
    assert!(m.is_pressed(1, 2));
    m.set_pressed(5, 5, true);
    assert!(!m.is_pressed(5, 5));
    m.set_pressed(1, 2, false);
    assert!(!m.is_pressed(1, 2));
}

#[test]
fn raw_lists_spread_row_by_row() {
    let raw = vec![vec![1u16, 2, 3, 4, 5, 6], vec![7u16, 8]];
    let k = keycodes_from_raw(&raw, 3, 2, 3);
    assert_eq!(k, vec![
        vec![vec![1, 2, 3], vec![4, 5, 6]],
        vec![vec![7, 8, 0], vec![0, 0, 0]],
        vec![vec![0, 0, 0], vec![0, 0, 0]],
    ]);
}

#[test]
fn layer_state_report() {
    let r = parse_report(&vec![0xFF, 4, 1, 0, 0, 0, 4, 0, 0, 0]);
    assert_eq!(r, DeviceReport::LayerChange { default_layers: 1, momentary: 4 });
    let r = parse_report(&vec![0xFF, 1, 0x02, 0x05, 0, 0]);
    assert_eq!(r, DeviceReport::LayerChange { default_layers: 2, momentary: 5 });
    let r = parse_report(&vec![0xFF, 2, 0x01, 0x02, 0x03, 0x04]);
    assert_eq!(r, DeviceReport::LayerChange { default_layers: 0x0201, momentary: 0x0403 });
}

#[test]
fn malformed_reports_are_ignored() {
    assert_eq!(parse_report(&vec![]), DeviceReport::Ignored);
    assert_eq!(parse_report(&vec![0xFF, 5, 0, 0, 0, 0, 0, 0, 0, 0, 0, 0]), DeviceReport::Ignored);
    assert_eq!(parse_report(&vec![0xFF, 4, 0, 0]), DeviceReport::Ignored);
    assert_eq!(parse_report(&vec![0xF1, 1]), DeviceReport::Ignored);
    assert_eq!(parse_report(&vec![0x01, 1, 0, 0, 0]), DeviceReport::Ignored);
}

#[test]
fn key_event_report() {
    let r = parse_report(&vec![0xF1, 2, 3, 1]);
    assert_eq!(r, DeviceReport::KeyEvent { row: 2, col: 3, pressed: true });
    let r = parse_report(&vec![0xF1, 2, 3, 0, 9]);
    assert_eq!(r, DeviceReport::KeyEvent { row: 2, col: 3, pressed: false });
}

#[test]
fn reports_update_state() {
    let mut s = LayerState::new();
    let mut m = KeyMatrix::new(vec![vec![vec![0; 4]; 4]], 4, 4);
    let a = apply_report(&mut s, &mut m, DeviceReport::LayerChange { default_layers: 1, momentary: 4 });
    assert_eq!(a, TimerAction::StayShown);
    assert_eq!(s, LayerState { momentary: 4, default_layers: 1 });
    let a = apply_report(&mut s, &mut m, DeviceReport::LayerChange { default_layers: 1, momentary: 1 });
    assert_eq!(a, TimerAction::HideAfterTimeout);
    let a = apply_report(&mut s, &mut m, DeviceReport::KeyEvent { row: 2, col: 3, pressed: true });
    assert_eq!(a, TimerAction::Unchanged);
    assert!(m.is_pressed(2, 3));
    assert_eq!(s, LayerState { momentary: 1, default_layers: 1 });
    assert_eq!(apply_report(&mut s, &mut m, DeviceReport::Ignored), TimerAction::Unchanged);
}

#[test]
fn protocol_version_gate() {
    assert_eq!(check_protocol_version(12), Ok(()));
    assert_eq!(check_protocol_version(65535), Ok(()));
    assert_eq!(
        check_protocol_version(11),
        Err("Unsupported protocol version: 11. Minimum required version is 12.".to_string())
    );
    assert!(check_protocol_version(0).is_err());
}
