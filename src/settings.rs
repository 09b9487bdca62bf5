use vstd::prelude::*;

use crate::decimal::{
    dec_digit_value, dec_run_value, i32_value, parse_i32, parse_u32, parse_u64, signed_value,
    u32_value, u64_value,
};
use crate::text::{dec_str, digit_chars, push_decimal};

verus! {

/// Where the overlay sits on the screen.
#[derive(PartialEq, Eq, Structural, Clone, Copy, Debug)]
pub enum WindowPosition {
    TopLeft,
    TopRight,
    BottomLeft,
    BottomRight,
    Bottom,
    Top,
}

/// A text that names no window position.
#[derive(PartialEq, Eq, Structural, Clone, Copy, Debug)]
pub struct ParseWindowPositionError;

/// The display name of a position.
pub open spec fn position_label(p: WindowPosition) -> Seq<char> {
    match p {
        WindowPosition::TopLeft => "Top Left"@,
        WindowPosition::TopRight => "Top Right"@,
        WindowPosition::BottomLeft => "Bottom Left"@,
        WindowPosition::BottomRight => "Bottom Right"@,
        WindowPosition::Bottom => "Bottom"@,
        WindowPosition::Top => "Top"@,
    }
}

/// The position that a display name names.
pub open spec fn position_of_label(s: Seq<char>) -> Option<WindowPosition> {
    if s == "Top Left"@ {
        Some(WindowPosition::TopLeft)
    } else if s == "Top Right"@ {
        Some(WindowPosition::TopRight)
    } else if s == "Bottom Left"@ {
        Some(WindowPosition::BottomLeft)
    } else if s == "Bottom Right"@ {
        Some(WindowPosition::BottomRight)
    } else if s == "Bottom"@ {
        Some(WindowPosition::Bottom)
    } else if s == "Top"@ {
        Some(WindowPosition::Top)
    } else {
        None
    }
}

impl WindowPosition {
    /// The display name, such as `Bottom Right`.
    pub fn label(&self) -> (r: String)
        ensures
            r@ == position_label(*self),
    {
        match self {
            WindowPosition::TopLeft => String::from_str("Top Left"),
            WindowPosition::TopRight => String::from_str("Top Right"),
            WindowPosition::BottomLeft => String::from_str("Bottom Left"),
            WindowPosition::BottomRight => String::from_str("Bottom Right"),
            WindowPosition::Bottom => String::from_str("Bottom"),
            WindowPosition::Top => String::from_str("Top"),
        }
    }

    /// The position with the display name `value`.
    pub fn parse(value: &str) -> (r: Result<WindowPosition, ParseWindowPositionError>)
        ensures
            r matches Ok(p) ==> position_of_label(value@) == Some(p),
            r is Err ==> position_of_label(value@) is None,
    {
        let v = String::from_str(value);
        if v == String::from_str("Top Left") {
            Ok(WindowPosition::TopLeft)
        } else if v == String::from_str("Top Right") {
            Ok(WindowPosition::TopRight)
        } else if v == String::from_str("Bottom Left") {
            Ok(WindowPosition::BottomLeft)
        } else if v == String::from_str("Bottom Right") {
            Ok(WindowPosition::BottomRight)
        } else if v == String::from_str("Bottom") {
            Ok(WindowPosition::Bottom)
        } else if v == String::from_str("Top") {
            Ok(WindowPosition::Top)
        } else {
            Err(ParseWindowPositionError)
        }
    }
}

impl std::str::FromStr for WindowPosition {
    type Err = ParseWindowPositionError;

    fn from_str(value: &str) -> Result<Self, Self::Err> {
        WindowPosition::parse(value)
    }
}

/// What the user chose for the overlay.
pub struct Settings {
    pub keyboard_config_path: String,
    pub layout_name: String,
    pub size: i32,
    pub position: WindowPosition,
    pub timeout: u64,
    pub margin: u32,
    pub confirmed: bool,
    pub save_settings: bool,
}

/// Settings as mathematical values.
pub struct SettingsView {
    pub keyboard_config_path: Seq<char>,
    pub layout_name: Seq<char>,
    pub size: i32,
    pub position: WindowPosition,
    pub timeout: u64,
    pub margin: u32,
    pub confirmed: bool,
    pub save_settings: bool,
}

impl View for Settings {
    type V = SettingsView;

    open spec fn view(&self) -> SettingsView {
        SettingsView {
            keyboard_config_path: self.keyboard_config_path@,
            layout_name: self.layout_name@,
            size: self.size,
            position: self.position,
            timeout: self.timeout,
            margin: self.margin,
            confirmed: self.confirmed,
            save_settings: self.save_settings,
        }
    }
}

/// The settings before the user chose anything.
pub open spec fn default_settings() -> SettingsView {
    SettingsView {
        keyboard_config_path: Seq::empty(),
        layout_name: "LAYOUT"@,
        size: 60,
        position: WindowPosition::BottomRight,
        timeout: 2000,
        margin: 10,
        confirmed: false,
        save_settings: false,
    }
}

/// A text value if there is one, else `default`.
pub open spec fn text_or(v: Option<Seq<char>>, default: Seq<char>) -> Seq<char> {
    match v {
        Some(s) => s,
        None => default,
    }
}

/// A value that parses, else `default`.
pub open spec fn parsed_or<T>(v: Option<Seq<char>>, parse: spec_fn(Seq<char>) -> Option<T>, default: T) -> T {
    match v {
        Some(s) => match parse(s) {
            Some(x) => x,
            None => default,
        },
        None => default,
    }
}

/// The optional view of an optional text.
pub open spec fn opt_view(v: Option<&str>) -> Option<Seq<char>> {
    match v {
        Some(s) => Some(s@),
        None => None,
    }
}

impl Default for Settings {
    fn default() -> (r: Self)
        ensures
            r@ == default_settings(),
    {
        Settings {
            keyboard_config_path: String::new(),
            layout_name: String::from_str("LAYOUT"),
            size: 60,
            position: WindowPosition::BottomRight,
            timeout: 2000,
            margin: 10,
            confirmed: false,
            save_settings: false,
        }
    }
}

/// `n` in decimal, with a leading `-` when negative.
pub open spec fn int_str(n: int) -> Seq<char> {
    if n < 0 {
        "-"@ + dec_str((-n) as nat)
    } else {
        dec_str(n as nat)
    }
}

/// The keys of the `settings` section, in the order they are written.
pub open spec fn settings_keys() -> Seq<Seq<char>> {
    seq![
        "keyboard_config_path"@,
        "layout_name"@,
        "size"@,
        "position"@,
        "timeout"@,
        "margin"@,
    ]
}

impl Settings {
    /// A copy of these settings.
    pub fn copy(&self) -> (r: Settings)
        ensures
            r@ == self@,
    {
        Settings {
            keyboard_config_path: self.keyboard_config_path.clone(),
            layout_name: self.layout_name.clone(),
            size: self.size,
            position: self.position,
            timeout: self.timeout,
            margin: self.margin,
            confirmed: self.confirmed,
            save_settings: self.save_settings,
        }
    }

    /// Settings read back from the values of a saved `settings` section, each `None` where
    /// its key is missing. A missing or unreadable value keeps its default; the result is
    /// marked confirmed.
    pub fn from_section_values(
        keyboard_config_path: Option<&str>,
        layout_name: Option<&str>,
        size: Option<&str>,
        position: Option<&str>,
        timeout: Option<&str>,
        margin: Option<&str>,
    ) -> (r: Settings)
        ensures
            r@ == (SettingsView {
                keyboard_config_path: text_or(opt_view(keyboard_config_path), Seq::empty()),
                layout_name: text_or(opt_view(layout_name), "LAYOUT"@),
                size: parsed_or(opt_view(size), |s: Seq<char>| i32_value(s), 60i32),
                position: parsed_or(
                    opt_view(position),
                    |s: Seq<char>| position_of_label(s),
                    WindowPosition::BottomRight,
                ),
                timeout: parsed_or(opt_view(timeout), |s: Seq<char>| u64_value(s), 2000u64),
                margin: parsed_or(opt_view(margin), |s: Seq<char>| u32_value(s), 10u32),
                confirmed: true,
                save_settings: false,
            }),
    {
        let mut s = Settings::default();
        if let Some(val) = keyboard_config_path {
            s.keyboard_config_path = String::from_str(val);
        }
        if let Some(val) = layout_name {
            s.layout_name = String::from_str(val);
        }
        if let Some(val) = size {
            if let Some(v) = parse_i32(val) {
                s.size = v;
            }
        }
        if let Some(val) = position {
            if let Ok(p) = WindowPosition::parse(val) {
                s.position = p;
            }
        }
        if let Some(val) = timeout {
            if let Some(v) = parse_u64(val) {
                s.timeout = v;
            }
        }
        if let Some(val) = margin {
            if let Some(v) = parse_u32(val) {
                s.margin = v;
            }
        }
        s.confirmed = true;
        s
    }

    /// The key-value pairs of the `settings` section that saves these settings.
    pub fn section_entries(&self) -> (r: Vec<(String, String)>)
        ensures
            r@.len() == 6,
            forall|i: int| 0 <= i < 6 ==> #[trigger] r@[i].0@ == settings_keys()[i],
            r@[0].1@ == self.keyboard_config_path@,
            r@[1].1@ == self.layout_name@,
            r@[2].1@ == int_str(self.size as int),
            r@[3].1@ == position_label(self.position),
            r@[4].1@ == dec_str(self.timeout as nat),
            r@[5].1@ == dec_str(self.margin as nat),
    {
        let mut size = String::new();
        if self.size < 0 {
            size.append("-");
            push_decimal(&mut size, (0 - (self.size as i64)) as u64);
        } else {
            push_decimal(&mut size, self.size as u64);
        }
        let mut timeout = String::new();
        push_decimal(&mut timeout, self.timeout);
        let mut margin = String::new();
        push_decimal(&mut margin, self.margin as u64);
        let mut r: Vec<(String, String)> = Vec::new();
        r.push((String::from_str("keyboard_config_path"), self.keyboard_config_path.clone()));
        r.push((String::from_str("layout_name"), self.layout_name.clone()));
        r.push((String::from_str("size"), size));
        r.push((String::from_str("position"), self.position.label()));
        r.push((String::from_str("timeout"), timeout));
        r.push((String::from_str("margin"), margin));
        assert forall|i: int| 0 <= i < 6 implies #[trigger] r@[i].0@ == settings_keys()[i] by {}
        r
    }
}

/// Decimal text reads back to its number, and starts with a digit.
proof fn lemma_dec_str_reads_back(n: nat)
    ensures
        dec_run_value(dec_str(n)) == Some(n),
        dec_str(n).len() > 0,
        dec_digit_value(dec_str(n)[0]) is Some,
    decreases n,
{
    let d = digit_chars()[(n % 10) as int];
    assert(dec_digit_value(d) == Some(n % 10));
    if n < 10 {
        assert(dec_str(n).drop_last() =~= Seq::<char>::empty());
        assert(dec_run_value(Seq::<char>::empty()) == Some(0nat));
        assert(dec_str(n).last() == d);
    } else {
        lemma_dec_str_reads_back(n / 10);
        assert(dec_str(n).drop_last() =~= dec_str(n / 10));
        assert(dec_str(n).last() == d);
        assert(dec_str(n)[0] == dec_str(n / 10)[0]);
        assert(n == (n / 10) * 10 + n % 10);
    }
}

/// Saving settings and reading them back gives the same settings: each value that
/// `section_entries` writes parses back to the same field under the readers that
/// `from_section_values` applies.
pub proof fn lemma_settings_read_back(size: i32, position: WindowPosition, timeout: u64, margin: u32)
    ensures
        i32_value(int_str(size as int)) == Some(size),
        position_of_label(position_label(position)) == Some(position),
        u64_value(dec_str(timeout as nat)) == Some(timeout),
        u32_value(dec_str(margin as nat)) == Some(margin),
{
    reveal_strlit("-");
    reveal_strlit("Top Left");
    reveal_strlit("Top Right");
    reveal_strlit("Bottom Left");
    reveal_strlit("Bottom Right");
    reveal_strlit("Bottom");
    reveal_strlit("Top");
    // The six names have six different lengths.
    assert("Top Left"@.len() == 8);
    assert("Top Right"@.len() == 9);
    assert("Bottom Left"@.len() == 11);
    assert("Bottom Right"@.len() == 12);
    assert("Bottom"@.len() == 6);
    assert("Top"@.len() == 3);
    lemma_dec_str_reads_back(timeout as nat);
    lemma_dec_str_reads_back(margin as nat);
    if size < 0 {
        let m = (-size) as nat;
        lemma_dec_str_reads_back(m);
        let t = "-"@ + dec_str(m);
        assert(t.drop_first() =~= dec_str(m));
        assert(signed_value(t) == Some(size as int));
    } else {
        lemma_dec_str_reads_back(size as nat);
    }
}

} // verus!
