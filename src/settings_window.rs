use vstd::prelude::*;

use crate::settings::{Settings, SettingsView};

verus! {

/// The state of the settings form: the settings being edited, the error shown to the user,
/// and the layouts offered for the chosen keyboard.
pub struct SettingsApp {
    pub current: Settings,
    pub error: Option<String>,
    pub layout_names: Vec<String>,
}

/// What came of trying a keyboard description that the user picked.
pub enum PickedFile {
    /// The description could not be read; the text says why.
    Unreadable(String),
    /// The keyboard it describes could not be reached; the text says why.
    NoDevice(String),
    /// Both worked: the names of its layouts.
    Layouts(Vec<String>),
}

/// Whether a character counts as surrounding space of a path.
pub open spec fn is_space(c: char) -> bool {
    c == ' ' || c == '\t' || c == '\n' || c == '\r' || c == '\x0B' || c == '\x0C'
}

/// Whether a character separates path components.
pub open spec fn is_separator(c: char) -> bool {
    c == '/' || c == '\\'
}

/// Index of the first character of `s` that is not space, from `i` on.
pub open spec fn first_non_space(s: Seq<char>, i: int) -> int
    decreases s.len() - i,
{
    if i >= s.len() || i < 0 {
        s.len() as int
    } else if !is_space(s[i]) {
        i
    } else {
        first_non_space(s, i + 1)
    }
}

/// One past the last character of `s[..j]` that is not space, at least `lo`.
pub open spec fn end_non_space(s: Seq<char>, lo: int, j: int) -> int
    decreases j - lo,
{
    if j <= lo {
        lo
    } else if !is_space(s[j - 1]) {
        j
    } else {
        end_non_space(s, lo, j - 1)
    }
}

/// `s` without surrounding space.
pub open spec fn trimmed(s: Seq<char>) -> Seq<char> {
    let a = first_non_space(s, 0);
    s.subrange(a, end_non_space(s, a, s.len() as int))
}

/// One past the last separator of `s[..j]`, or 0.
pub open spec fn name_start(s: Seq<char>, j: int) -> int
    decreases j,
{
    if j <= 0 {
        0
    } else if is_separator(s[j - 1]) {
        j
    } else {
        name_start(s, j - 1)
    }
}

/// The text of the file button: `Open file…` with no path chosen, else the path's last
/// component, or the whole path where it ends in a separator.
pub open spec fn button_label(path: Seq<char>) -> Seq<char> {
    let p = trimmed(path);
    if p.len() == 0 {
        "Open file…"@
    } else {
        let name = p.subrange(name_start(p, p.len() as int), p.len() as int);
        if name.len() == 0 {
            p
        } else {
            name
        }
    }
}

/// Whether `name` is among `names`.
pub open spec fn offered(names: Seq<String>, name: Seq<char>) -> bool {
    exists|i: int| 0 <= i < names.len() && #[trigger] names[i]@ == name
}

/// The text of a string list.
pub open spec fn texts(names: Seq<String>) -> Seq<Seq<char>> {
    names.map_values(|n: String| n@)
}

fn space_char(c: char) -> (r: bool)
    ensures
        r == is_space(c),
{
    c == ' ' || c == '\t' || c == '\n' || c == '\r' || c == '\x0B' || c == '\x0C'
}

fn separator_char(c: char) -> (r: bool)
    ensures
        r == is_separator(c),
{
    c == '/' || c == '\\'
}

/// `path` trimmed of surrounding space, as a new string.
pub fn trim_path(path: &str) -> (r: String)
    ensures
        r@ == trimmed(path@),
{
    let n = path.unicode_len();
    let ghost s = path@;
    let mut a: usize = 0;
    while a < n && space_char(path.get_char(a))
        invariant
            a <= n,
            n == s.len(),
            s == path@,
            first_non_space(s, 0) == first_non_space(s, a as int),
        decreases n - a,
    {
        a += 1;
    }
    let mut b: usize = n;
    while b > a && space_char(path.get_char(b - 1))
        invariant
            a <= b <= n,
            n == s.len(),
            s == path@,
            a == first_non_space(s, 0),
            end_non_space(s, a as int, n as int) == end_non_space(s, a as int, b as int),
        decreases b - a,
    {
        b -= 1;
    }
    String::from_str(path.substring_char(a, b))
}

impl SettingsApp {
    /// A form over `current`, with no error and no layouts offered yet.
    pub fn new(current: Settings) -> (r: Self)
        ensures
            r.current@ == current@,
            r.error is None,
            r.layout_names@.len() == 0,
    {
        SettingsApp { current, error: None, layout_names: Vec::new() }
    }

    /// The text of the button that picks the keyboard description.
    pub fn file_button_label(&self) -> (r: String)
        ensures
            r@ == button_label(self.current.keyboard_config_path@),
    {
        let p = trim_path(self.current.keyboard_config_path.as_str());
        let n = p.unicode_len();
        if n == 0 {
            return String::from_str("Open file…");
        }
        let ghost s = p@;
        let mut j: usize = n;
        while j > 0 && !separator_char(p.as_str().get_char(j - 1))
            invariant
                j <= n,
                n == s.len(),
                s == p@,
                name_start(s, n as int) == name_start(s, j as int),
            decreases j,
        {
            j -= 1;
        }
        if j == n {
            p
        } else {
            String::from_str(p.as_str().substring_char(j, n))
        }
    }

    /// Takes in a keyboard description that the user picked at `picked`, and what came of
    /// reading it and reaching its keyboard. On success the form offers its layouts and
    /// keeps the chosen layout if offered, else picks the first; on failure it shows why.
    pub fn handle_picked_file(&mut self, picked: String, outcome: PickedFile)
        ensures
            final(self).current@ == (SettingsView {
                keyboard_config_path: picked@,
                layout_name: final(self).current@.layout_name,
                ..old(self).current@
            }),
            match outcome {
                PickedFile::Unreadable(err) => final(self).error matches Some(e) && e@
                    == "Failed to parse keyboard info from the selected JSON: "@ + err@
                    && final(self).current@.layout_name == old(self).current@.layout_name
                    && final(self).layout_names@ == old(self).layout_names@,
                PickedFile::NoDevice(err) => final(self).error matches Some(e) && e@
                    == "Failed to initialize keyboard from the selected JSON: "@ + err@
                    && final(self).current@.layout_name == old(self).current@.layout_name
                    && final(self).layout_names@ == old(self).layout_names@,
                PickedFile::Layouts(names) => final(self).error is None && final(self).layout_names@
                    == names@ && final(self).current@.layout_name == if names@.len() > 0
                    && !offered(names@, old(self).current@.layout_name) {
                    names@[0]@
                } else {
                    old(self).current@.layout_name
                },
            },
    {
        self.current.keyboard_config_path = picked;
        match outcome {
            PickedFile::Unreadable(err) => {
                let mut e = String::from_str("Failed to parse keyboard info from the selected JSON: ");
                e.append(err.as_str());
                self.error = Some(e);
            },
            PickedFile::NoDevice(err) => {
                let mut e = String::from_str("Failed to initialize keyboard from the selected JSON: ");
                e.append(err.as_str());
                self.error = Some(e);
            },
            PickedFile::Layouts(names) => {
                let mut found = false;
                let mut i: usize = 0;
                while i < names.len()
                    invariant
                        i <= names@.len(),
                        found <==> exists|k: int|
                            0 <= k < i && #[trigger] names@[k]@ == self.current.layout_name@,
                    decreases names@.len() - i,
                {
                    if names[i] == self.current.layout_name {
                        found = true;
                    }
                    i += 1;
                }
                if names.len() > 0 && !found {
                    self.current.layout_name = names[0].clone();
                }
                self.layout_names = names;
                self.error = None;
            },
        }
    }
}

} // verus!
