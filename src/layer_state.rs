use vstd::prelude::*;

use crate::constants::KC_TRANSPARENT;
use crate::key_matrix::{keycode_at, KeyMatrix};

verus! {

/// Which layers the keyboard reports active: bit `i` of `momentary` is set while layer `i`
/// is held, bit `i` of `default_layers` while it is the persistent base.
#[derive(PartialEq, Eq, Structural, Clone, Copy, Debug)]
pub struct LayerState {
    pub momentary: u32,
    pub default_layers: u32,
}

/// Whether bit `i` of `mask` is set.
pub open spec fn bit_set(mask: u32, i: int) -> bool {
    mask & (1u32 << (i as u32)) != 0
}

/// Layer resolution from layer `i` down to layer 1; `above` says whether a momentary layer
/// above `i` is engaged. The first layer that is active (either way) and not transparent at
/// the cell wins, marked as background when it is a default layer with an engaged momentary
/// layer above it. Layer 0 is the fallback.
pub open spec fn resolve(
    codes: Seq<Seq<Seq<u16>>>,
    s: LayerState,
    row: int,
    col: int,
    i: int,
    above: bool,
) -> (u8, bool)
    decreases i,
{
    if i < 1 {
        (0, above)
    } else {
        let is_default = bit_set(s.default_layers, i);
        let is_momentary = bit_set(s.momentary, i);
        if (is_momentary || is_default) && keycode_at(codes, i, row, col) != KC_TRANSPARENT {
            (i as u8, is_default && above)
        } else {
            resolve(codes, s, row, col, i - 1, above || is_momentary)
        }
    }
}

/// Number of layers that take part in resolution: at most the width of the bitmasks.
pub open spec fn resolved_layers(codes: Seq<Seq<Seq<u16>>>) -> int {
    if codes.len() < 32 {
        codes.len() as int
    } else {
        32
    }
}

/// The effective layer of a cell and whether it is shown as a background key.
pub open spec fn effective_layer(codes: Seq<Seq<Seq<u16>>>, s: LayerState, row: int, col: int) -> (
    u8,
    bool,
) {
    resolve(codes, s, row, col, resolved_layers(codes) - 1, false)
}

impl LayerState {
    /// No layer active.
    pub fn new() -> (r: Self)
        ensures
            r.momentary == 0,
            r.default_layers == 0,
    {
        LayerState { momentary: 0, default_layers: 0 }
    }

    /// The layer that supplies the key at `(row, col)`, and whether that key is shown as a
    /// background key.
    pub fn get_effective_key_layer(&self, matrix: &KeyMatrix, row: usize, col: usize) -> (r: (
        u8,
        bool,
    ))
        ensures
            r == effective_layer(matrix.codes(), *self, row as int, col as int),
    {
        let n = matrix.get_num_layers();
        let num_layers: usize = if n < 32 { n } else { 32 };
        // Whether a momentary layer above the one looked at is engaged.
        let mut active_layer_above = false;
        let mut i: usize = num_layers;
        while i > 1
            invariant
                i <= num_layers,
                num_layers <= 32,
                num_layers as int == resolved_layers(matrix.codes()),
                effective_layer(matrix.codes(), *self, row as int, col as int) == resolve(
                    matrix.codes(),
                    *self,
                    row as int,
                    col as int,
                    i - 1,
                    active_layer_above,
                ),
            decreases i,
        {
            let layer = i - 1;
            let layer_mask = 1u32 << (layer as u32);
            let is_active_default_layer = (self.default_layers & layer_mask) != 0;
            let is_active_momentary_layer = (self.momentary & layer_mask) != 0;
            if is_active_momentary_layer || is_active_default_layer {
                if matrix.get_keycode(layer, row, col) != KC_TRANSPARENT {
                    return (layer as u8, is_active_default_layer && active_layer_above);
                }
            }
            active_layer_above = active_layer_above || is_active_momentary_layer;
            i -= 1;
        }
        (0, active_layer_above)
    }
}

/// What layer resolution from layer `i` down gives, stated without the descent.
proof fn lemma_resolve_sound(
    codes: Seq<Seq<Seq<u16>>>,
    s: LayerState,
    row: int,
    col: int,
    i: int,
    above: bool,
)
    requires
        i < 32,
    ensures
        ({
            let (l, bg) = resolve(codes, s, row, col, i, above);
            &&& l == 0 || (1 <= l <= i && (bit_set(s.momentary, l as int) || bit_set(
                s.default_layers,
                l as int,
            )) && keycode_at(codes, l as int, row, col) != KC_TRANSPARENT)
            &&& bg && l > 0 ==> bit_set(s.default_layers, l as int)
            &&& bg ==> above || exists|j: int| l < j <= i && #[trigger] bit_set(s.momentary, j)
        }),
    decreases i,
{
    if i >= 1 {
        let is_momentary = bit_set(s.momentary, i);
        lemma_resolve_sound(codes, s, row, col, i - 1, above || is_momentary);
        let (l, bg) = resolve(codes, s, row, col, i - 1, above || is_momentary);
        if bg && !above {
            if is_momentary {
                assert(l < i && bit_set(s.momentary, i));
            } else {
                let j = choose|j: int| l < j <= i - 1 && #[trigger] bit_set(s.momentary, j);
                assert(l < j <= i && bit_set(s.momentary, j));
            }
        }
    }
}

/// The effective layer of a cell is layer 0 or a layer that is active (held or default)
/// and not transparent at that cell. A key is shown as background only when it comes from a
/// default layer (or the layer-0 fallback) and some layer above it is held.
pub proof fn lemma_effective_layer_sound(codes: Seq<Seq<Seq<u16>>>, s: LayerState, row: int, col: int)
    ensures
        ({
            let (l, bg) = effective_layer(codes, s, row, col);
            &&& l == 0 || (l < resolved_layers(codes) && (bit_set(s.momentary, l as int) || bit_set(
                s.default_layers,
                l as int,
            )) && keycode_at(codes, l as int, row, col) != KC_TRANSPARENT)
            &&& bg && l > 0 ==> bit_set(s.default_layers, l as int)
            &&& bg ==> exists|j: int| l < j < resolved_layers(codes) && #[trigger] bit_set(s.momentary, j)
        }),
{
    lemma_resolve_sound(codes, s, row, col, resolved_layers(codes) - 1, false);
}

} // verus!
