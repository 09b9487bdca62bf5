use vstd::prelude::*;

verus! {

/// Keycodes of every layer, `[layer][row][col]`, with a grid of keys that are held down.
pub struct KeyMatrix {
    pub keycodes: Vec<Vec<Vec<u16>>>,
    pub pressed: Vec<Vec<bool>>,
}

/// The keycode at a cell of a nested keycode table, or 0 where any index is out of range.
pub open spec fn keycode_at(keycodes: Seq<Seq<Seq<u16>>>, layer: int, row: int, col: int) -> u16 {
    if 0 <= layer < keycodes.len() && 0 <= row < keycodes[layer].len() && 0 <= col
        < keycodes[layer][row].len() {
        keycodes[layer][row][col]
    } else {
        0
    }
}

/// The keycode at `(row, col)` of a layer that the device sent as one flat list, row after
/// row; 0 where the list (or the layer) is missing or too short.
pub open spec fn raw_cell(raw: Seq<Seq<u16>>, cols: int, layer: int, row: int, col: int) -> u16 {
    let i = row * cols + col;
    if 0 <= layer < raw.len() && 0 <= i < raw[layer].len() {
        raw[layer][i]
    } else {
        0
    }
}

/// One row of a flat list: `cols` entries from `start`, 0 past its end.
fn row_from_raw(flat: &Vec<u16>, start: usize, cols: usize) -> (r: Vec<u16>)
    requires
        start + cols <= usize::MAX,
    ensures
        r@.len() == cols,
        forall|c: int|
            0 <= c < cols ==> #[trigger] r@[c] == if start + c < flat@.len() {
                flat@[start + c]
            } else {
                0
            },
{
    let mut r: Vec<u16> = Vec::new();
    let mut c: usize = 0;
    while c < cols
        invariant
            c <= cols,
            start + cols <= usize::MAX,
            r@.len() == c,
            forall|k: int|
                0 <= k < c ==> #[trigger] r@[k] == if start + k < flat@.len() {
                    flat@[start + k]
                } else {
                    0
                },
        decreases cols - c,
    {
        let i = start + c;
        if i < flat.len() {
            r.push(flat[i]);
        } else {
            r.push(0);
        }
        c += 1;
    }
    r
}

/// Spreads the flat per-layer keycode lists that the device sends into a
/// `[layer][row][col]` table of `layers` x `rows` x `cols`.
pub fn keycodes_from_raw(raw: &Vec<Vec<u16>>, layers: usize, rows: usize, cols: usize) -> (r: Vec<
    Vec<Vec<u16>>,
>)
    requires
        rows * cols <= usize::MAX,
    ensures
        r@.len() == layers,
        forall|l: int| 0 <= l < layers ==> #[trigger] r@[l]@.len() == rows,
        forall|l: int, i: int| 0 <= l < layers && 0 <= i < rows ==> #[trigger] r@[l]@[i]@.len() == cols,
        forall|l: int, i: int, c: int|
            0 <= l < layers && 0 <= i < rows && 0 <= c < cols ==> #[trigger] r@[l]@[i]@[c]
                == raw_cell(raw@.map_values(|v: Vec<u16>| v@), cols as int, l, i, c),
{
    let ghost flat = raw@.map_values(|v: Vec<u16>| v@);
    let empty: Vec<u16> = Vec::new();
    let mut out: Vec<Vec<Vec<u16>>> = Vec::new();
    let mut l: usize = 0;
    while l < layers
        invariant
            l <= layers,
            rows * cols <= usize::MAX,
            empty@.len() == 0,
            flat == raw@.map_values(|v: Vec<u16>| v@),
            out@.len() == l,
            forall|a: int| 0 <= a < l ==> #[trigger] out@[a]@.len() == rows,
            forall|a: int, i: int| 0 <= a < l && 0 <= i < rows ==> #[trigger] out@[a]@[i]@.len() == cols,
            forall|a: int, i: int, c: int|
                0 <= a < l && 0 <= i < rows && 0 <= c < cols ==> #[trigger] out@[a]@[i]@[c]
                    == raw_cell(flat, cols as int, a, i, c),
        decreases layers - l,
    {
        let source: &Vec<u16> = if l < raw.len() { &raw[l] } else { &empty };
        assert(forall|k: int| 0 <= k < source@.len() ==> (l < raw@.len() && k < flat[l as int].len()
            && #[trigger] source@[k] == flat[l as int][k]));
        let mut grid: Vec<Vec<u16>> = Vec::new();
        let mut i: usize = 0;
        let mut start: usize = 0;
        while i < rows
            invariant
                i <= rows,
                rows * cols <= usize::MAX,
                start == i * cols,
                l < layers,
                flat == raw@.map_values(|v: Vec<u16>| v@),
                source@.len() > 0 ==> l < raw@.len() && source@ == flat[l as int],
                source@.len() == 0 ==> !(l < raw@.len()) || flat[l as int].len() == 0,
                grid@.len() == i,
                forall|a: int| 0 <= a < i ==> #[trigger] grid@[a]@.len() == cols,
                forall|a: int, c: int|
                    0 <= a < i && 0 <= c < cols ==> #[trigger] grid@[a]@[c] == raw_cell(
                        flat,
                        cols as int,
                        l as int,
                        a,
                        c,
                    ),
            decreases rows - i,
        {
            assert(start + cols <= rows * cols) by (nonlinear_arith)
                requires
                    start == i * cols,
                    i < rows,
            ;
            let line = row_from_raw(source, start, cols);
            grid.push(line);
            i += 1;
            start = start + cols;
            assert(start == i * cols) by (nonlinear_arith)
                requires
                    start == (i - 1) * cols + cols,
            ;
        }
        out.push(grid);
        l += 1;
    }
    out
}

impl KeyMatrix {
    /// The keycodes as nested sequences.
    pub open spec fn codes(&self) -> Seq<Seq<Seq<u16>>> {
        self.keycodes@.map_values(|l: Vec<Vec<u16>>| l@.map_values(|r: Vec<u16>| r@))
    }

    /// The pressed grid as nested sequences.
    pub open spec fn pressed_grid(&self) -> Seq<Seq<bool>> {
        self.pressed@.map_values(|r: Vec<bool>| r@)
    }

    pub open spec fn spec_keycode(&self, layer: int, row: int, col: int) -> u16 {
        keycode_at(self.codes(), layer, row, col)
    }

    pub open spec fn spec_pressed(&self, row: int, col: int) -> bool {
        let g = self.pressed_grid();
        if 0 <= row < g.len() && 0 <= col < g[row].len() {
            g[row][col]
        } else {
            false
        }
    }

    /// The pressed grid after recording `value` at `(row, col)`; unchanged out of range.
    pub open spec fn set_pressed_spec(&self, row: int, col: int, value: bool) -> Seq<Seq<bool>> {
        let g = self.pressed_grid();
        if 0 <= row < g.len() && 0 <= col < g[row].len() {
            g.update(row, g[row].update(col, value))
        } else {
            g
        }
    }

    /// A matrix over `keycodes` with a `rows` x `cols` grid of keys, none of them pressed.
    pub fn new(keycodes: Vec<Vec<Vec<u16>>>, rows: usize, cols: usize) -> (r: Self)
        ensures
            r.codes() == keycodes@.map_values(|l: Vec<Vec<u16>>| l@.map_values(|x: Vec<u16>| x@)),
            r.pressed_grid().len() == rows,
            forall|i: int| 0 <= i < rows ==> #[trigger] r.pressed_grid()[i] == Seq::new(cols as nat, |j: int| false),
    {
        let mut pressed: Vec<Vec<bool>> = Vec::new();
        let mut i: usize = 0;
        while i < rows
            invariant
                i <= rows,
                pressed@.len() == i,
                forall|k: int| 0 <= k < i ==> #[trigger] pressed@[k]@ == Seq::new(cols as nat, |j: int| false),
            decreases rows - i,
        {
            let mut row: Vec<bool> = Vec::new();
            let mut j: usize = 0;
            while j < cols
                invariant
                    j <= cols,
                    row@ == Seq::new(j as nat, |x: int| false),
                decreases cols - j,
            {
                row.push(false);
                j += 1;
                assert(row@ =~= Seq::new(j as nat, |x: int| false));
            }
            pressed.push(row);
            i += 1;
        }
        KeyMatrix { keycodes, pressed }
    }

    /// Number of layers.
    pub fn get_num_layers(&self) -> (r: usize)
        ensures
            r == self.codes().len(),
    {
        self.keycodes.len()
    }

    /// The keycode at `[layer][row][col]`, or 0 where any index is out of range.
    pub fn get_keycode(&self, layer: usize, row: usize, col: usize) -> (r: u16)
        ensures
            r == self.spec_keycode(layer as int, row as int, col as int),
    {
        if layer < self.keycodes.len() && row < self.keycodes[layer].len() && col
            < self.keycodes[layer][row].len() {
            self.keycodes[layer][row][col]
        } else {
            0
        }
    }

    /// Whether the key at `(row, col)` is held; `false` out of range.
    pub fn is_pressed(&self, row: usize, col: usize) -> (r: bool)
        ensures
            r == self.spec_pressed(row as int, col as int),
    {
        if row < self.pressed.len() && col < self.pressed[row].len() {
            self.pressed[row][col]
        } else {
            false
        }
    }

    /// Records whether the key at `(row, col)` is held; out of range nothing changes.
    pub fn set_pressed(&mut self, row: usize, col: usize, value: bool)
        ensures
            final(self).codes() == old(self).codes(),
            final(self).pressed_grid() == old(self).set_pressed_spec(row as int, col as int, value),
    {
        if row < self.pressed.len() && col < self.pressed[row].len() {
            self.pressed[row][col] = value;
        }
    }
}

} // verus!
