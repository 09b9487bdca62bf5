use vstd::prelude::*;

use crate::hex::{hex_to_u16, hex_u16_value};
use crate::json::{member, JsonValue};

verus! {

/// One key of a layout: its matrix position, and its box in thousandths of a key unit.
#[derive(PartialEq, Eq, Structural, Clone, Copy, Debug)]
pub struct Key {
    pub row: u8,
    pub col: u8,
    pub x: i32,
    pub y: i32,
    pub w: i32,
    pub h: i32,
}

/// A named arrangement of keys.
pub struct KeyboardLayout {
    pub name: String,
    pub keys: Vec<Key>,
}

/// What a layout description gives: device identity, matrix size and layouts.
pub struct KeyboardInfo {
    pub vid: u16,
    pub pid: u16,
    pub rows: usize,
    pub cols: usize,
    pub layouts: Vec<KeyboardLayout>,
    /// Other names of layouts, `(alias, layout name)`, from `layout_aliases`.
    pub aliases: Vec<(String, String)>,
}

/// Why a layout description was refused.
#[derive(PartialEq, Eq, Structural, Clone, Copy, Debug)]
pub enum LayoutError {
    /// `layouts` is missing or no object.
    NoLayouts,
    /// A layout has no `layout` array.
    NoLayoutArray,
    /// A key's `matrix` is missing, has fewer than two entries, or holds something that is
    /// no non-negative integer.
    BadMatrix,
    /// A key's matrix position lies outside the matrix.
    KeyOutOfMatrix,
    /// `matrix_pins` is missing.
    NoMatrixPins,
    /// `matrix_pins.rows` is missing or no array.
    NoRows,
    /// `matrix_pins.cols` is missing or no array.
    NoCols,
    /// The doubled row count of a split keyboard does not fit a `usize`.
    MatrixTooLarge,
    /// `usb` is missing.
    NoUsb,
    /// `usb.vid` is missing, no string, or no hexadecimal number.
    BadVid,
    /// `usb.pid` is missing, no string, or no hexadecimal number.
    BadPid,
    /// No layout has the name asked for.
    LayoutNotFound,
}

/// The text that describes an error to the user.
pub open spec fn error_text(e: LayoutError) -> Seq<char> {
    match e {
        LayoutError::NoLayouts => "No layouts found in keyboard info JSON."@,
        LayoutError::NoLayoutArray => "No layout array found."@,
        LayoutError::BadMatrix => "Unable to parse 'matrix' array in key definition."@,
        LayoutError::KeyOutOfMatrix => "Key 'matrix' position lies outside the matrix."@,
        LayoutError::NoMatrixPins => "Unable to find 'matrix_pins' in keyboard info JSON."@,
        LayoutError::NoRows => "Unable to find 'rows' array in 'matrix_pins'."@,
        LayoutError::NoCols => "Unable to find 'cols' array in 'matrix_pins'."@,
        LayoutError::MatrixTooLarge => "Matrix in keyboard info JSON is too large."@,
        LayoutError::NoUsb => "Unable to find 'usb' in keyboard info JSON."@,
        LayoutError::BadVid => "Invalid value for 'vid' in 'usb'."@,
        LayoutError::BadPid => "Invalid value for 'pid' in 'usb'."@,
        LayoutError::LayoutNotFound => "Layout not found."@,
    }
}

impl LayoutError {
    /// Describes the error, naming what is missing or malformed.
    pub fn message(&self) -> (r: String)
        ensures
            r@ == error_text(*self),
    {
        match self {
            LayoutError::NoLayouts => String::from_str("No layouts found in keyboard info JSON."),
            LayoutError::NoLayoutArray => String::from_str("No layout array found."),
            LayoutError::BadMatrix => String::from_str("Unable to parse 'matrix' array in key definition."),
            LayoutError::KeyOutOfMatrix => String::from_str("Key 'matrix' position lies outside the matrix."),
            LayoutError::NoMatrixPins => String::from_str("Unable to find 'matrix_pins' in keyboard info JSON."),
            LayoutError::NoRows => String::from_str("Unable to find 'rows' array in 'matrix_pins'."),
            LayoutError::NoCols => String::from_str("Unable to find 'cols' array in 'matrix_pins'."),
            LayoutError::MatrixTooLarge => String::from_str("Matrix in keyboard info JSON is too large."),
            LayoutError::NoUsb => String::from_str("Unable to find 'usb' in keyboard info JSON."),
            LayoutError::BadVid => String::from_str("Invalid value for 'vid' in 'usb'."),
            LayoutError::BadPid => String::from_str("Invalid value for 'pid' in 'usb'."),
            LayoutError::LayoutNotFound => String::from_str("Layout not found."),
        }
    }
}

/// A layout as mathematical values: its name and its keys.
pub type LayoutView = (Seq<char>, Seq<Key>);

impl KeyboardLayout {
    pub open spec fn view_of(&self) -> LayoutView {
        (self.name@, self.keys@)
    }
}

/// The layouts of a description as mathematical values.
pub open spec fn layouts_view(layouts: Seq<KeyboardLayout>) -> Seq<LayoutView> {
    layouts.map_values(|l: KeyboardLayout| l.view_of())
}

/// A number member in thousandths, or `default` when it is missing or no such number.
pub open spec fn milli_or(v: Option<JsonValue>, default: i32) -> i32 {
    match v {
        Some(JsonValue::Number(n)) => match n.milli {
            Some(m) => m,
            None => default,
        },
        _ => default,
    }
}

/// Whether every entry of a `matrix` array is a non-negative integer.
pub open spec fn all_unsigned(m: Seq<JsonValue>) -> bool {
    forall|i: int| 0 <= i < m.len() ==> (#[trigger] m[i] matches JsonValue::Number(n) && n.unsigned is Some)
}

/// The unsigned value of a number known to have one.
pub open spec fn unsigned_of(v: JsonValue) -> nat {
    match v {
        JsonValue::Number(n) => match n.unsigned {
            Some(u) => u as nat,
            None => 0,
        },
        _ => 0,
    }
}

/// One key descriptor: `matrix: [row, col]` inside a `rows` x `cols` matrix, and optional
/// `x`, `y`, `w`, `h` that default to 0, 0, 1 and 1 units.
pub open spec fn key_spec(k: JsonValue, rows: nat, cols: nat) -> Result<Key, LayoutError> {
    match member(k, "matrix"@) {
        Some(JsonValue::Array(m)) => if m@.len() >= 2 && all_unsigned(m@) {
            let row = unsigned_of(m@[0]);
            let col = unsigned_of(m@[1]);
            if row < rows && col < cols && row < 256 && col < 256 {
                Ok(
                    Key {
                        row: row as u8,
                        col: col as u8,
                        x: milli_or(member(k, "x"@), 0),
                        y: milli_or(member(k, "y"@), 0),
                        w: milli_or(member(k, "w"@), 1000),
                        h: milli_or(member(k, "h"@), 1000),
                    },
                )
            } else {
                Err(LayoutError::KeyOutOfMatrix)
            }
        } else {
            Err(LayoutError::BadMatrix)
        },
        _ => Err(LayoutError::BadMatrix),
    }
}

/// The first `n` key descriptors, or the error of the first one refused.
pub open spec fn keys_spec(a: Seq<JsonValue>, rows: nat, cols: nat, n: int) -> Result<Seq<Key>, LayoutError>
    decreases n,
{
    if n <= 0 {
        Ok(Seq::empty())
    } else {
        match keys_spec(a, rows, cols, n - 1) {
            Err(e) => Err(e),
            Ok(ks) => match key_spec(a[n - 1], rows, cols) {
                Err(e) => Err(e),
                Ok(k) => Ok(ks.push(k)),
            },
        }
    }
}

/// One layout entry of `layouts`: its `layout` array of key descriptors.
pub open spec fn layout_spec(v: JsonValue, rows: nat, cols: nat) -> Result<Seq<Key>, LayoutError> {
    match member(v, "layout"@) {
        Some(JsonValue::Array(a)) => keys_spec(a@, rows, cols, a@.len() as int),
        _ => Err(LayoutError::NoLayoutArray),
    }
}

/// The first `n` layouts, or the error of the first one refused.
pub open spec fn layouts_spec(
    members: Seq<(String, JsonValue)>,
    rows: nat,
    cols: nat,
    n: int,
) -> Result<Seq<LayoutView>, LayoutError>
    decreases n,
{
    if n <= 0 {
        Ok(Seq::empty())
    } else {
        match layouts_spec(members, rows, cols, n - 1) {
            Err(e) => Err(e),
            Ok(ls) => match layout_spec(members[n - 1].1, rows, cols) {
                Err(e) => Err(e),
                Ok(ks) => Ok(ls.push((members[n - 1].0@, ks))),
            },
        }
    }
}

/// Whether the description marks the keyboard as split (`split.enabled`).
pub open spec fn is_split(j: JsonValue) -> bool {
    match member(j, "split"@) {
        Some(s) => match member(s, "enabled"@) {
            Some(JsonValue::Bool(b)) => b,
            _ => false,
        },
        None => false,
    }
}

/// Length of an array member, if the member is an array.
pub open spec fn array_len(v: Option<JsonValue>) -> Option<nat> {
    match v {
        Some(JsonValue::Array(a)) => Some(a@.len()),
        _ => None,
    }
}

/// A hexadecimal id member.
pub open spec fn id_spec(v: Option<JsonValue>) -> Option<u16> {
    match v {
        Some(JsonValue::Str(s)) => hex_u16_value(s@),
        _ => None,
    }
}

/// The aliases among the first `n` members of `layout_aliases`: those whose value is a
/// string.
pub open spec fn aliases_spec(members: Seq<(String, JsonValue)>, n: int) -> Seq<(Seq<char>, Seq<char>)>
    decreases n,
{
    if n <= 0 {
        Seq::empty()
    } else {
        let prev = aliases_spec(members, n - 1);
        match members[n - 1].1 {
            JsonValue::Str(t) => prev.push((members[n - 1].0@, t@)),
            _ => prev,
        }
    }
}

/// The aliases that a description declares in `layout_aliases`.
pub open spec fn aliases_of(j: JsonValue) -> Seq<(Seq<char>, Seq<char>)> {
    match member(j, "layout_aliases"@) {
        Some(JsonValue::Object(m)) => aliases_spec(m@, m@.len() as int),
        _ => Seq::empty(),
    }
}

/// Index of the first layout named `name`, from `i` on.
pub open spec fn first_named(ls: Seq<LayoutView>, name: Seq<char>, i: int) -> Option<int>
    decreases ls.len() - i,
{
    if i < 0 || i >= ls.len() {
        None
    } else if ls[i].0 == name {
        Some(i)
    } else {
        first_named(ls, name, i + 1)
    }
}

/// The layout name that the first alias called `name` stands for, from `i` on.
pub open spec fn alias_target(al: Seq<(Seq<char>, Seq<char>)>, name: Seq<char>, i: int) -> Option<
    Seq<char>,
>
    decreases al.len() - i,
{
    if i < 0 || i >= al.len() {
        None
    } else if al[i].0 == name {
        Some(al[i].1)
    } else {
        alias_target(al, name, i + 1)
    }
}

/// The layout that `name` selects: the first layout of that name, else the first layout
/// named by the first alias of that name.
pub open spec fn selected_layout(info: InfoView, name: Seq<char>) -> Option<LayoutView> {
    match first_named(info.layouts, name, 0) {
        Some(i) => Some(info.layouts[i]),
        None => match alias_target(info.aliases, name, 0) {
            Some(t) => match first_named(info.layouts, t, 0) {
                Some(i) => Some(info.layouts[i]),
                None => None,
            },
            None => None,
        },
    }
}

/// A loaded description as mathematical values.
pub struct InfoView {
    pub vid: u16,
    pub pid: u16,
    pub rows: nat,
    pub cols: nat,
    pub layouts: Seq<LayoutView>,
    pub aliases: Seq<(Seq<char>, Seq<char>)>,
}

impl KeyboardInfo {
    pub open spec fn view_of(&self) -> InfoView {
        InfoView {
            vid: self.vid,
            pid: self.pid,
            rows: self.rows as nat,
            cols: self.cols as nat,
            layouts: layouts_view(self.layouts@),
            aliases: self.aliases@.map_values(|a: (String, String)| (a.0@, a.1@)),
        }
    }
}

/// What a layout description loads to. Matrix size first (`matrix_pins.rows` and `.cols`
/// arrays, whose lengths are the size, rows doubled for a split keyboard), then the
/// device's ids (`usb.vid`, `usb.pid`), then every layout of `layouts` in order.
pub open spec fn info_spec(j: JsonValue) -> Result<InfoView, LayoutError> {
    match member(j, "matrix_pins"@) {
        None => Err(LayoutError::NoMatrixPins),
        Some(pins) => match array_len(member(pins, "rows"@)) {
            None => Err(LayoutError::NoRows),
            Some(r) => match array_len(member(pins, "cols"@)) {
                None => Err(LayoutError::NoCols),
                Some(cols) => {
                    let rows = if is_split(j) { 2 * r } else { r };
                    if rows > usize::MAX {
                        Err(LayoutError::MatrixTooLarge)
                    } else {
                    match member(j, "usb"@) {
                        None => Err(LayoutError::NoUsb),
                        Some(usb) => match id_spec(member(usb, "vid"@)) {
                            None => Err(LayoutError::BadVid),
                            Some(vid) => match id_spec(member(usb, "pid"@)) {
                                None => Err(LayoutError::BadPid),
                                Some(pid) => match member(j, "layouts"@) {
                                    Some(JsonValue::Object(members)) => match layouts_spec(
                                        members@,
                                        rows,
                                        cols,
                                        members@.len() as int,
                                    ) {
                                        Err(e) => Err(e),
                                        Ok(ls) => Ok(
                                            InfoView {
                                                vid,
                                                pid,
                                                rows,
                                                cols,
                                                layouts: ls,
                                                aliases: aliases_of(j),
                                            },
                                        ),
                                    },
                                    _ => Err(LayoutError::NoLayouts),
                                },
                            },
                        },
                    }
                    }
                },
            },
        },
    }
}

/// A number member in thousandths, or `default`.
fn milli_member(k: &JsonValue, key: &str, default: i32) -> (r: i32)
    ensures
        r == milli_or(member(*k, key@), default),
{
    match k.get(key) {
        Some(v) => match v.as_milli() {
            Some(m) => m,
            None => default,
        },
        None => default,
    }
}

/// Reads one key descriptor.
fn key_from_json(k: &JsonValue, rows: usize, cols: usize) -> (r: Result<Key, LayoutError>)
    ensures
        r == key_spec(*k, rows as nat, cols as nat),
{
    let m = match k.get("matrix") {
        Some(JsonValue::Array(m)) => m,
        _ => return Err(LayoutError::BadMatrix),
    };
    let mut i: usize = 0;
    while i < m.len()
        invariant
            i <= m@.len(),
            member(*k, "matrix"@) == Some(JsonValue::Array(*m)),
            forall|j: int| 0 <= j < i ==> (#[trigger] m@[j] matches JsonValue::Number(n) && n.unsigned is Some),
        decreases m@.len() - i,
    {
        if m[i].as_u64().is_none() {
            assert(!all_unsigned(m@));
            return Err(LayoutError::BadMatrix);
        }
        i += 1;
    }
    if m.len() < 2 {
        return Err(LayoutError::BadMatrix);
    }
    let row = m[0].as_u64().unwrap();
    let col = m[1].as_u64().unwrap();
    if !(row < rows as u64 && col < cols as u64 && row < 256 && col < 256) {
        return Err(LayoutError::KeyOutOfMatrix);
    }
    Ok(
        Key {
            row: row as u8,
            col: col as u8,
            x: milli_member(k, "x", 0),
            y: milli_member(k, "y", 0),
            w: milli_member(k, "w", 1000),
            h: milli_member(k, "h", 1000),
        },
    )
}

/// Reads a `layout` array of key descriptors.
fn collect_layout_keys(layout: &JsonValue, rows: usize, cols: usize) -> (r: Result<
    Vec<Key>,
    LayoutError,
>)
    ensures
        r matches Ok(ks) ==> layout_spec(*layout, rows as nat, cols as nat) == Ok::<Seq<Key>, LayoutError>(ks@),
        r matches Err(e) ==> layout_spec(*layout, rows as nat, cols as nat) == Err::<Seq<Key>, LayoutError>(e),
{
    let a = match layout.get("layout") {
        Some(JsonValue::Array(a)) => a,
        _ => return Err(LayoutError::NoLayoutArray),
    };
    let mut keys: Vec<Key> = Vec::new();
    let mut i: usize = 0;
    while i < a.len()
        invariant
            i <= a@.len(),
            member(*layout, "layout"@) == Some(JsonValue::Array(*a)),
            keys_spec(a@, rows as nat, cols as nat, i as int) == Ok::<Seq<Key>, LayoutError>(keys@),
        decreases a@.len() - i,
    {
        match key_from_json(&a[i], rows, cols) {
            Ok(k) => keys.push(k),
            Err(e) => {
                assert(keys_spec(a@, rows as nat, cols as nat, i + 1) == Err::<Seq<Key>, LayoutError>(e));
                proof {
                    lemma_keys_error_stays(a@, rows as nat, cols as nat, i + 1, a@.len() as int);
                }
                return Err(e);
            },
        }
        i += 1;
    }
    Ok(keys)
}

/// Once a key is refused, so is every longer run of keys, with the same error.
proof fn lemma_keys_error_stays(a: Seq<JsonValue>, rows: nat, cols: nat, k: int, n: int)
    requires
        0 <= k <= n,
        keys_spec(a, rows, cols, k) is Err,
    ensures
        keys_spec(a, rows, cols, n) == keys_spec(a, rows, cols, k),
    decreases n - k,
{
    if k < n {
        lemma_keys_error_stays(a, rows, cols, k, n - 1);
    }
}

/// Once a layout is refused, so is every longer run of layouts, with the same error.
proof fn lemma_layouts_error_stays(
    members: Seq<(String, JsonValue)>,
    rows: nat,
    cols: nat,
    k: int,
    n: int,
)
    requires
        0 <= k <= n,
        layouts_spec(members, rows, cols, k) is Err,
    ensures
        layouts_spec(members, rows, cols, n) == layouts_spec(members, rows, cols, k),
    decreases n - k,
{
    if k < n {
        lemma_layouts_error_stays(members, rows, cols, k, n - 1);
    }
}

/// Length of an array member.
fn array_member_len(v: Option<&JsonValue>) -> (r: Option<usize>)
    ensures
        r matches Some(n) ==> array_len(match v {
            Some(x) => Some(*x),
            None => None,
        }) == Some(n as nat),
        r is None ==> array_len(match v {
            Some(x) => Some(*x),
            None => None,
        }) is None,
{
    match v {
        Some(JsonValue::Array(a)) => Some(a.len()),
        _ => None,
    }
}

/// A hexadecimal id member.
fn id_member(v: Option<&JsonValue>) -> (r: Option<u16>)
    ensures
        r == id_spec(match v {
            Some(x) => Some(*x),
            None => None,
        }),
{
    match v {
        Some(JsonValue::Str(s)) => hex_to_u16(s.as_str()),
        _ => None,
    }
}

/// A copy of a list of keys.
fn copy_keys(keys: &Vec<Key>) -> (r: Vec<Key>)
    ensures
        r@ == keys@,
{
    let mut r: Vec<Key> = Vec::new();
    let mut i: usize = 0;
    while i < keys.len()
        invariant
            i <= keys@.len(),
            r@ == keys@.subrange(0, i as int),
        decreases keys@.len() - i,
    {
        r.push(keys[i]);
        i += 1;
        assert(r@ =~= keys@.subrange(0, i as int));
    }
    assert(keys@.subrange(0, i as int) =~= keys@);
    r
}

/// The furthest extent of a coordinate over the first `n` keys: the largest `pos + size`,
/// and never less than 0.
pub open spec fn max_extent(keys: Seq<Key>, horizontal: bool, n: int) -> int
    decreases n,
{
    if n <= 0 {
        0
    } else {
        let prev = max_extent(keys, horizontal, n - 1);
        let k = keys[n - 1];
        let e = if horizontal { k.x + k.w } else { k.y + k.h };
        if e > prev { e } else { prev }
    }
}

impl KeyboardLayout {
    /// The size of the layout, `(max_x, max_y)` in thousandths of a key unit: the furthest
    /// right and bottom edges of its keys, never less than 0.
    pub fn get_dimensions(&self) -> (r: (i64, i64))
        ensures
            r.0 == max_extent(self.keys@, true, self.keys@.len() as int),
            r.1 == max_extent(self.keys@, false, self.keys@.len() as int),
    {
        let mut max_x: i64 = 0;
        let mut max_y: i64 = 0;
        let mut i: usize = 0;
        while i < self.keys.len()
            invariant
                i <= self.keys@.len(),
                max_x == max_extent(self.keys@, true, i as int),
                max_y == max_extent(self.keys@, false, i as int),
            decreases self.keys@.len() - i,
        {
            let k = self.keys[i];
            let ex = k.x as i64 + k.w as i64;
            let ey = k.y as i64 + k.h as i64;
            if ex > max_x {
                max_x = ex;
            }
            if ey > max_y {
                max_y = ey;
            }
            i += 1;
        }
        (max_x, max_y)
    }

    /// A copy of this layout.
    pub fn copy(&self) -> (r: KeyboardLayout)
        ensures
            r.view_of() == self.view_of(),
    {
        KeyboardLayout { name: self.name.clone(), keys: copy_keys(&self.keys) }
    }
}

impl KeyboardInfo {
    /// Loads a layout description from its parsed JSON document.
    pub fn from_json(json: &JsonValue) -> (r: Result<KeyboardInfo, LayoutError>)
        ensures
            r matches Ok(info) ==> info_spec(*json) == Ok::<InfoView, LayoutError>(info.view_of()),
            r matches Err(e) ==> info_spec(*json) == Err::<InfoView, LayoutError>(e),
    {
        let pins = match json.get("matrix_pins") {
            Some(p) => p,
            None => return Err(LayoutError::NoMatrixPins),
        };
        let r = match array_member_len(pins.get("rows")) {
            Some(n) => n,
            None => return Err(LayoutError::NoRows),
        };
        let cols = match array_member_len(pins.get("cols")) {
            Some(n) => n,
            None => return Err(LayoutError::NoCols),
        };
        let split = match json.get("split") {
            Some(s) => match s.get("enabled") {
                Some(JsonValue::Bool(b)) => *b,
                _ => false,
            },
            None => false,
        };
        assert(split == is_split(*json));
        let rows = if split {
            if r > usize::MAX / 2 {
                return Err(LayoutError::MatrixTooLarge);
            }
            2 * r
        } else {
            r
        };
        let usb = match json.get("usb") {
            Some(u) => u,
            None => return Err(LayoutError::NoUsb),
        };
        let vid = match id_member(usb.get("vid")) {
            Some(v) => v,
            None => return Err(LayoutError::BadVid),
        };
        let pid = match id_member(usb.get("pid")) {
            Some(v) => v,
            None => return Err(LayoutError::BadPid),
        };
        let members = match json.get("layouts") {
            Some(JsonValue::Object(m)) => m,
            _ => return Err(LayoutError::NoLayouts),
        };
        let mut layouts: Vec<KeyboardLayout> = Vec::new();
        assert(layouts_view(layouts@) =~= Seq::empty());
        let mut i: usize = 0;
        while i < members.len()
            invariant
                i <= members@.len(),
                info_spec(*json) == match layouts_spec(
                    members@,
                    rows as nat,
                    cols as nat,
                    members@.len() as int,
                ) {
                    Err(e) => Err(e),
                    Ok(ls) => Ok(
                        InfoView {
                            vid,
                            pid,
                            rows: rows as nat,
                            cols: cols as nat,
                            layouts: ls,
                            aliases: aliases_of(*json),
                        },
                    ),
                },
                layouts_spec(members@, rows as nat, cols as nat, i as int) == Ok::<
                    Seq<LayoutView>,
                    LayoutError,
                >(layouts_view(layouts@)),
            decreases members@.len() - i,
        {
            match collect_layout_keys(&members[i].1, rows, cols) {
                Ok(keys) => {
                    let layout = KeyboardLayout { name: members[i].0.clone(), keys };
                    let ghost before = layouts@;
                    layouts.push(layout);
                    assert(layouts_view(layouts@) =~= layouts_view(before).push(layout.view_of()));
                },
                Err(e) => {
                    proof {
                        lemma_layouts_error_stays(
                            members@,
                            rows as nat,
                            cols as nat,
                            i + 1,
                            members@.len() as int,
                        );
                    }
                    return Err(e);
                },
            }
            i += 1;
        }
        let aliases = collect_aliases(json);
        Ok(KeyboardInfo { vid, pid, rows, cols, layouts, aliases })
    }

    /// The names of the layouts, in order.
    pub fn get_layout_names(&self) -> (r: Vec<String>)
        ensures
            r@.len() == self.layouts@.len(),
            forall|i: int| 0 <= i < r@.len() ==> #[trigger] r@[i]@ == self.layouts@[i].name@,
    {
        let mut names: Vec<String> = Vec::new();
        let mut i: usize = 0;
        while i < self.layouts.len()
            invariant
                i <= self.layouts@.len(),
                names@.len() == i,
                forall|k: int| 0 <= k < i ==> #[trigger] names@[k]@ == self.layouts@[k].name@,
            decreases self.layouts@.len() - i,
        {
            names.push(self.layouts[i].name.clone());
            i += 1;
        }
        names
    }

    /// Index of the first layout named `name`.
    fn layout_index(&self, name: &String) -> (r: Option<usize>)
        ensures
            r matches Some(i) ==> first_named(self.view_of().layouts, name@, 0) == Some(i as int)
                && i < self.layouts@.len() && self.view_of().layouts[i as int]
                == self.layouts@[i as int].view_of(),
            r is None ==> first_named(self.view_of().layouts, name@, 0) is None,
    {
        let ghost ls = self.view_of().layouts;
        let mut i: usize = 0;
        while i < self.layouts.len()
            invariant
                i <= self.layouts@.len(),
                ls == self.view_of().layouts,
                ls.len() == self.layouts@.len(),
                first_named(ls, name@, 0) == first_named(ls, name@, i as int),
            decreases self.layouts@.len() - i,
        {
            if self.layouts[i].name == *name {
                assert(ls[i as int].0 == name@);
                return Some(i);
            }
            i += 1;
        }
        None
    }

    /// The layout that `layout_name` selects: the first layout of that name, else the first
    /// layout named by the first alias of that name.
    pub fn get_layout(&self, layout_name: &str) -> (r: Result<KeyboardLayout, LayoutError>)
        ensures
            r matches Ok(l) ==> selected_layout(self.view_of(), layout_name@) == Some(l.view_of()),
            r matches Err(e) ==> e == LayoutError::LayoutNotFound && selected_layout(
                self.view_of(),
                layout_name@,
            ) is None,
    {
        let wanted = String::from_str(layout_name);
        if let Some(i) = self.layout_index(&wanted) {
            return Ok(self.layouts[i].copy());
        }
        let ghost al = self.view_of().aliases;
        let mut k: usize = 0;
        while k < self.aliases.len()
            invariant
                k <= self.aliases@.len(),
                al == self.view_of().aliases,
                al.len() == self.aliases@.len(),
                wanted@ == layout_name@,
                alias_target(al, layout_name@, 0) == alias_target(al, layout_name@, k as int),
                first_named(self.view_of().layouts, layout_name@, 0) is None,
            decreases self.aliases@.len() - k,
        {
            if self.aliases[k].0 == wanted {
                assert(al[k as int].0 == layout_name@);
                assert(al[k as int].1 == self.aliases@[k as int].1@);
                return match self.layout_index(&self.aliases[k].1) {
                    Some(i) => Ok(self.layouts[i].copy()),
                    None => Err(LayoutError::LayoutNotFound),
                };
            }
            k += 1;
        }
        Err(LayoutError::LayoutNotFound)
    }
}

/// Reads `layout_aliases`: each member whose value is a string.
fn collect_aliases(json: &JsonValue) -> (r: Vec<(String, String)>)
    ensures
        r@.map_values(|a: (String, String)| (a.0@, a.1@)) == aliases_of(*json),
{
    let mut out: Vec<(String, String)> = Vec::new();
    match json.get("layout_aliases") {
        Some(JsonValue::Object(m)) => {
            let mut i: usize = 0;
            while i < m.len()
                invariant
                    i <= m@.len(),
                    out@.map_values(|a: (String, String)| (a.0@, a.1@)) == aliases_spec(m@, i as int),
                decreases m@.len() - i,
            {
                let ghost before = out@;
                match &m[i].1 {
                    JsonValue::Str(t) => {
                        out.push((m[i].0.clone(), t.clone()));
                        assert(out@.map_values(|a: (String, String)| (a.0@, a.1@)) =~= before.map_values(
                            |a: (String, String)| (a.0@, a.1@),
                        ).push((m@[i as int].0@, t@)));
                    },
                    _ => {},
                }
                i += 1;
            }
        },
        _ => {},
    }
    assert(out@.map_values(|a: (String, String)| (a.0@, a.1@)) =~= aliases_of(*json)) by {
        match member(*json, "layout_aliases"@) {
            Some(JsonValue::Object(m)) => {},
            _ => {},
        }
    };
    out
}

} // verus!
