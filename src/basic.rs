use vstd::prelude::*;

use crate::keycode_label::KeycodeKind;

verus! {

/// What the table of basic keycodes gives for one code.
pub struct BasicName {
    pub long: Option<Seq<char>>,
    pub short: Option<Seq<char>>,
    pub kind: KeycodeKind,
}

/// A table entry with a long name, an optional short name, and a class.
pub open spec fn named(long: Seq<char>, short: Option<Seq<char>>, kind: KeycodeKind) -> BasicName {
    BasicName { long: Some(long), short, kind }
}

/// The table of basic keycodes: the keyboard usage page and a few quantum keys.
/// The no-op code has an entry with no text at all.
pub open spec fn basic_entry(code: u16) -> Option<BasicName> {
    match code {
        0x0000 => Some(BasicName { long: None, short: None, kind: KeycodeKind::Basic }),
        0x0001 => Some(named("▽"@, None, KeycodeKind::Basic)),
        0x0004 => Some(named("A"@, None, KeycodeKind::Basic)),
        0x0005 => Some(named("B"@, None, KeycodeKind::Basic)),
        0x0006 => Some(named("C"@, None, KeycodeKind::Basic)),
        0x0007 => Some(named("D"@, None, KeycodeKind::Basic)),
        0x0008 => Some(named("E"@, None, KeycodeKind::Basic)),
        0x0009 => Some(named("F"@, None, KeycodeKind::Basic)),
        0x000A => Some(named("G"@, None, KeycodeKind::Basic)),
        0x000B => Some(named("H"@, None, KeycodeKind::Basic)),
        0x000C => Some(named("I"@, None, KeycodeKind::Basic)),
        0x000D => Some(named("J"@, None, KeycodeKind::Basic)),
        0x000E => Some(named("K"@, None, KeycodeKind::Basic)),
        0x000F => Some(named("L"@, None, KeycodeKind::Basic)),
        0x0010 => Some(named("M"@, None, KeycodeKind::Basic)),
        0x0011 => Some(named("N"@, None, KeycodeKind::Basic)),
        0x0012 => Some(named("O"@, None, KeycodeKind::Basic)),
        0x0013 => Some(named("P"@, None, KeycodeKind::Basic)),
        0x0014 => Some(named("Q"@, None, KeycodeKind::Basic)),
        0x0015 => Some(named("R"@, None, KeycodeKind::Basic)),
        0x0016 => Some(named("S"@, None, KeycodeKind::Basic)),
        0x0017 => Some(named("T"@, None, KeycodeKind::Basic)),
        0x0018 => Some(named("U"@, None, KeycodeKind::Basic)),
        0x0019 => Some(named("V"@, None, KeycodeKind::Basic)),
        0x001A => Some(named("W"@, None, KeycodeKind::Basic)),
        0x001B => Some(named("X"@, None, KeycodeKind::Basic)),
        0x001C => Some(named("Y"@, None, KeycodeKind::Basic)),
        0x001D => Some(named("Z"@, None, KeycodeKind::Basic)),
        0x001E => Some(named("1"@, None, KeycodeKind::Basic)),
        0x001F => Some(named("2"@, None, KeycodeKind::Basic)),
        0x0020 => Some(named("3"@, None, KeycodeKind::Basic)),
        0x0021 => Some(named("4"@, None, KeycodeKind::Basic)),
        0x0022 => Some(named("5"@, None, KeycodeKind::Basic)),
        0x0023 => Some(named("6"@, None, KeycodeKind::Basic)),
        0x0024 => Some(named("7"@, None, KeycodeKind::Basic)),
        0x0025 => Some(named("8"@, None, KeycodeKind::Basic)),
        0x0026 => Some(named("9"@, None, KeycodeKind::Basic)),
        0x0027 => Some(named("0"@, None, KeycodeKind::Basic)),
        0x0028 => Some(named("Enter"@, Some("Ent"@), KeycodeKind::Special)),
        0x0029 => Some(named("Esc"@, None, KeycodeKind::Special)),
        0x002A => Some(named("Backspace"@, Some("Bspc"@), KeycodeKind::Special)),
        0x002B => Some(named("Tab"@, None, KeycodeKind::Special)),
        0x002C => Some(named("Space"@, Some("Spc"@), KeycodeKind::Special)),
        0x002D => Some(named("-"@, None, KeycodeKind::Basic)),
        0x002E => Some(named("="@, None, KeycodeKind::Basic)),
        0x002F => Some(named("["@, None, KeycodeKind::Basic)),
        0x0030 => Some(named("]"@, None, KeycodeKind::Basic)),
        0x0031 => Some(named("\\"@, None, KeycodeKind::Basic)),
        0x0032 => Some(named("#"@, None, KeycodeKind::Basic)),
        0x0033 => Some(named(";"@, None, KeycodeKind::Basic)),
        0x0034 => Some(named("'"@, None, KeycodeKind::Basic)),
        0x0035 => Some(named("`"@, None, KeycodeKind::Basic)),
        0x0036 => Some(named(","@, None, KeycodeKind::Basic)),
        0x0037 => Some(named("."@, None, KeycodeKind::Basic)),
        0x0038 => Some(named("/"@, None, KeycodeKind::Basic)),
        0x0039 => Some(named("Caps Lock"@, Some("Caps"@), KeycodeKind::Special)),
        0x003A => Some(named("F1"@, None, KeycodeKind::Special)),
        0x003B => Some(named("F2"@, None, KeycodeKind::Special)),
        0x003C => Some(named("F3"@, None, KeycodeKind::Special)),
        0x003D => Some(named("F4"@, None, KeycodeKind::Special)),
        0x003E => Some(named("F5"@, None, KeycodeKind::Special)),
        0x003F => Some(named("F6"@, None, KeycodeKind::Special)),
        0x0040 => Some(named("F7"@, None, KeycodeKind::Special)),
        0x0041 => Some(named("F8"@, None, KeycodeKind::Special)),
        0x0042 => Some(named("F9"@, None, KeycodeKind::Special)),
        0x0043 => Some(named("F10"@, None, KeycodeKind::Special)),
        0x0044 => Some(named("F11"@, None, KeycodeKind::Special)),
        0x0045 => Some(named("F12"@, None, KeycodeKind::Special)),
        0x0046 => Some(named("Print Screen"@, Some("PrtSc"@), KeycodeKind::Special)),
        0x0047 => Some(named("Scroll Lock"@, Some("ScrLk"@), KeycodeKind::Special)),
        0x0048 => Some(named("Pause"@, None, KeycodeKind::Special)),
        0x0049 => Some(named("Insert"@, Some("Ins"@), KeycodeKind::Special)),
        0x004A => Some(named("Home"@, None, KeycodeKind::Special)),
        0x004B => Some(named("Page Up"@, Some("PgUp"@), KeycodeKind::Special)),
        0x004C => Some(named("Delete"@, Some("Del"@), KeycodeKind::Special)),
        0x004D => Some(named("End"@, None, KeycodeKind::Special)),
        0x004E => Some(named("Page Down"@, Some("PgDn"@), KeycodeKind::Special)),
        0x004F => Some(named("Right"@, Some("→"@), KeycodeKind::Special)),
        0x0050 => Some(named("Left"@, Some("←"@), KeycodeKind::Special)),
        0x0051 => Some(named("Down"@, Some("↓"@), KeycodeKind::Special)),
        0x0052 => Some(named("Up"@, Some("↑"@), KeycodeKind::Special)),
        0x0053 => Some(named("Num Lock"@, Some("NumLk"@), KeycodeKind::Special)),
        0x0054 => Some(named("KP /"@, None, KeycodeKind::Basic)),
        0x0055 => Some(named("KP *"@, None, KeycodeKind::Basic)),
        0x0056 => Some(named("KP -"@, None, KeycodeKind::Basic)),
        0x0057 => Some(named("KP +"@, None, KeycodeKind::Basic)),
        0x0058 => Some(named("KP Enter"@, Some("KP Ent"@), KeycodeKind::Special)),
        0x0059 => Some(named("KP 1"@, None, KeycodeKind::Basic)),
        0x005A => Some(named("KP 2"@, None, KeycodeKind::Basic)),
        0x005B => Some(named("KP 3"@, None, KeycodeKind::Basic)),
        0x005C => Some(named("KP 4"@, None, KeycodeKind::Basic)),
        0x005D => Some(named("KP 5"@, None, KeycodeKind::Basic)),
        0x005E => Some(named("KP 6"@, None, KeycodeKind::Basic)),
        0x005F => Some(named("KP 7"@, None, KeycodeKind::Basic)),
        0x0060 => Some(named("KP 8"@, None, KeycodeKind::Basic)),
        0x0061 => Some(named("KP 9"@, None, KeycodeKind::Basic)),
        0x0062 => Some(named("KP 0"@, None, KeycodeKind::Basic)),
        0x0063 => Some(named("KP ."@, None, KeycodeKind::Basic)),
        0x0064 => Some(named("NUBS"@, None, KeycodeKind::Basic)),
        0x0065 => Some(named("Menu"@, None, KeycodeKind::Special)),
        0x0066 => Some(named("Power"@, None, KeycodeKind::Special)),
        0x0067 => Some(named("KP ="@, None, KeycodeKind::Basic)),
        0x0068 => Some(named("F13"@, None, KeycodeKind::Special)),
        0x0069 => Some(named("F14"@, None, KeycodeKind::Special)),
        0x006A => Some(named("F15"@, None, KeycodeKind::Special)),
        0x006B => Some(named("F16"@, None, KeycodeKind::Special)),
        0x006C => Some(named("F17"@, None, KeycodeKind::Special)),
        0x006D => Some(named("F18"@, None, KeycodeKind::Special)),
        0x006E => Some(named("F19"@, None, KeycodeKind::Special)),
        0x006F => Some(named("F20"@, None, KeycodeKind::Special)),
        0x0070 => Some(named("F21"@, None, KeycodeKind::Special)),
        0x0071 => Some(named("F22"@, None, KeycodeKind::Special)),
        0x0072 => Some(named("F23"@, None, KeycodeKind::Special)),
        0x0073 => Some(named("F24"@, None, KeycodeKind::Special)),
        0x0074 => Some(named("Execute"@, Some("Exec"@), KeycodeKind::Special)),
        0x0075 => Some(named("Help"@, None, KeycodeKind::Special)),
        0x0076 => Some(named("Menu"@, None, KeycodeKind::Special)),
        0x0077 => Some(named("Select"@, Some("Slct"@), KeycodeKind::Special)),
        0x0078 => Some(named("Stop"@, None, KeycodeKind::Special)),
        0x0079 => Some(named("Again"@, Some("Agin"@), KeycodeKind::Special)),
        0x007A => Some(named("Undo"@, None, KeycodeKind::Special)),
        0x007B => Some(named("Cut"@, None, KeycodeKind::Special)),
        0x007C => Some(named("Copy"@, None, KeycodeKind::Special)),
        0x007D => Some(named("Paste"@, Some("Pste"@), KeycodeKind::Special)),
        0x007E => Some(named("Find"@, None, KeycodeKind::Special)),
        0x007F => Some(named("Mute"@, None, KeycodeKind::Special)),
        0x0080 => Some(named("Vol Up"@, Some("Vol+"@), KeycodeKind::Special)),
        0x0081 => Some(named("Vol Down"@, Some("Vol-"@), KeycodeKind::Special)),
        0x0082 => Some(named("Locking Caps"@, Some("LCaps"@), KeycodeKind::Special)),
        0x0083 => Some(named("Locking Num"@, Some("LNum"@), KeycodeKind::Special)),
        0x0084 => Some(named("Locking Scroll"@, Some("LScr"@), KeycodeKind::Special)),
        0x0085 => Some(named("KP ,"@, None, KeycodeKind::Basic)),
        0x0086 => Some(named("KP = (AS400)"@, Some("KP ="@), KeycodeKind::Basic)),
        0x0087 => Some(named("Intl 1"@, Some("I1"@), KeycodeKind::Special)),
        0x0088 => Some(named("Intl 2"@, Some("I2"@), KeycodeKind::Special)),
        0x0089 => Some(named("Intl 3"@, Some("I3"@), KeycodeKind::Special)),
        0x008A => Some(named("Intl 4"@, Some("I4"@), KeycodeKind::Special)),
        0x008B => Some(named("Intl 5"@, Some("I5"@), KeycodeKind::Special)),
        0x008C => Some(named("Intl 6"@, Some("I6"@), KeycodeKind::Special)),
        0x008D => Some(named("Intl 7"@, Some("I7"@), KeycodeKind::Special)),
        0x008E => Some(named("Intl 8"@, Some("I8"@), KeycodeKind::Special)),
        0x008F => Some(named("Intl 9"@, Some("I9"@), KeycodeKind::Special)),
        0x0090 => Some(named("Lang 1"@, Some("L1"@), KeycodeKind::Special)),
        0x0091 => Some(named("Lang 2"@, Some("L2"@), KeycodeKind::Special)),
        0x0092 => Some(named("Lang 3"@, Some("L3"@), KeycodeKind::Special)),
        0x0093 => Some(named("Lang 4"@, Some("L4"@), KeycodeKind::Special)),
        0x0094 => Some(named("Lang 5"@, Some("L5"@), KeycodeKind::Special)),
        0x0095 => Some(named("Lang 6"@, Some("L6"@), KeycodeKind::Special)),
        0x0096 => Some(named("Lang 7"@, Some("L7"@), KeycodeKind::Special)),
        0x0097 => Some(named("Lang 8"@, Some("L8"@), KeycodeKind::Special)),
        0x0098 => Some(named("Lang 9"@, Some("L9"@), KeycodeKind::Special)),
        0x0099 => Some(named("Alt Erase"@, Some("AErs"@), KeycodeKind::Special)),
        0x009A => Some(named("SysReq"@, None, KeycodeKind::Special)),
        0x009B => Some(named("Cancel"@, Some("Cncl"@), KeycodeKind::Special)),
        0x009C => Some(named("Clear"@, Some("Clr"@), KeycodeKind::Special)),
        0x009D => Some(named("Prior"@, Some("Prir"@), KeycodeKind::Special)),
        0x009E => Some(named("Return"@, Some("Retn"@), KeycodeKind::Special)),
        0x009F => Some(named("Separator"@, Some("Sep"@), KeycodeKind::Special)),
        0x00A0 => Some(named("Out"@, None, KeycodeKind::Special)),
        0x00A1 => Some(named("Oper"@, None, KeycodeKind::Special)),
        0x00A2 => Some(named("Clear Again"@, Some("ClAg"@), KeycodeKind::Special)),
        0x00A3 => Some(named("CrSel"@, None, KeycodeKind::Special)),
        0x00A4 => Some(named("ExSel"@, None, KeycodeKind::Special)),
        0x00A5 => Some(named("System Power"@, Some("Pwr"@), KeycodeKind::Special)),
        0x00A6 => Some(named("System Sleep"@, Some("Sleep"@), KeycodeKind::Special)),
        0x00A7 => Some(named("System Wake"@, Some("Wake"@), KeycodeKind::Special)),
        0x00A8 => Some(named("Mute"@, None, KeycodeKind::Special)),
        0x00A9 => Some(named("Vol Up"@, Some("Vol+"@), KeycodeKind::Special)),
        0x00AA => Some(named("Vol Down"@, Some("Vol-"@), KeycodeKind::Special)),
        0x00AB => Some(named("Next Track"@, Some("Next"@), KeycodeKind::Special)),
        0x00AC => Some(named("Prev Track"@, Some("Prev"@), KeycodeKind::Special)),
        0x00AD => Some(named("Media Stop"@, Some("Stop"@), KeycodeKind::Special)),
        0x00AE => Some(named("Play/Pause"@, Some("Play"@), KeycodeKind::Special)),
        0x00AF => Some(named("Media Select"@, Some("MSel"@), KeycodeKind::Special)),
        0x00B0 => Some(named("Eject"@, None, KeycodeKind::Special)),
        0x00B1 => Some(named("Mail"@, None, KeycodeKind::Special)),
        0x00B2 => Some(named("Calculator"@, Some("Calc"@), KeycodeKind::Special)),
        0x00B3 => Some(named("My Computer"@, Some("MyPC"@), KeycodeKind::Special)),
        0x00B4 => Some(named("Search"@, Some("Srch"@), KeycodeKind::Special)),
        0x00B5 => Some(named("Browser Home"@, Some("WHom"@), KeycodeKind::Special)),
        0x00B6 => Some(named("Browser Back"@, Some("WBak"@), KeycodeKind::Special)),
        0x00B7 => Some(named("Browser Forward"@, Some("WFwd"@), KeycodeKind::Special)),
        0x00B8 => Some(named("Browser Stop"@, Some("WStp"@), KeycodeKind::Special)),
        0x00B9 => Some(named("Refresh"@, Some("Rfsh"@), KeycodeKind::Special)),
        0x00BA => Some(named("Favorites"@, Some("Fav"@), KeycodeKind::Special)),
        0x00BB => Some(named("Fast Forward"@, Some("FFwd"@), KeycodeKind::Special)),
        0x00BC => Some(named("Rewind"@, Some("Rwnd"@), KeycodeKind::Special)),
        0x00BD => Some(named("Brightness Up"@, Some("Bri+"@), KeycodeKind::Special)),
        0x00BE => Some(named("Brightness Down"@, Some("Bri-"@), KeycodeKind::Special)),
        0x00BF => Some(named("Control Panel"@, Some("CPnl"@), KeycodeKind::Special)),
        0x00C0 => Some(named("Assistant"@, Some("Asst"@), KeycodeKind::Special)),
        0x00C1 => Some(named("Mission Control"@, Some("MCtl"@), KeycodeKind::Special)),
        0x00C2 => Some(named("Launchpad"@, Some("LPad"@), KeycodeKind::Special)),
        0x00CD => Some(named("Mouse Up"@, Some("Ms↑"@), KeycodeKind::Special)),
        0x00CE => Some(named("Mouse Down"@, Some("Ms↓"@), KeycodeKind::Special)),
        0x00CF => Some(named("Mouse Left"@, Some("Ms←"@), KeycodeKind::Special)),
        0x00D0 => Some(named("Mouse Right"@, Some("Ms→"@), KeycodeKind::Special)),
        0x00D1 => Some(named("Mouse Button 1"@, Some("Btn1"@), KeycodeKind::Special)),
        0x00D2 => Some(named("Mouse Button 2"@, Some("Btn2"@), KeycodeKind::Special)),
        0x00D3 => Some(named("Mouse Button 3"@, Some("Btn3"@), KeycodeKind::Special)),
        0x00D4 => Some(named("Mouse Button 4"@, Some("Btn4"@), KeycodeKind::Special)),
        0x00D5 => Some(named("Mouse Button 5"@, Some("Btn5"@), KeycodeKind::Special)),
        0x00D6 => Some(named("Mouse Button 6"@, Some("Btn6"@), KeycodeKind::Special)),
        0x00D7 => Some(named("Mouse Button 7"@, Some("Btn7"@), KeycodeKind::Special)),
        0x00D8 => Some(named("Mouse Button 8"@, Some("Btn8"@), KeycodeKind::Special)),
        0x00D9 => Some(named("Wheel Up"@, Some("Wh↑"@), KeycodeKind::Special)),
        0x00DA => Some(named("Wheel Down"@, Some("Wh↓"@), KeycodeKind::Special)),
        0x00DB => Some(named("Wheel Left"@, Some("Wh←"@), KeycodeKind::Special)),
        0x00DC => Some(named("Wheel Right"@, Some("Wh→"@), KeycodeKind::Special)),
        0x00DD => Some(named("Mouse Accel 0"@, Some("Acc0"@), KeycodeKind::Special)),
        0x00DE => Some(named("Mouse Accel 1"@, Some("Acc1"@), KeycodeKind::Special)),
        0x00DF => Some(named("Mouse Accel 2"@, Some("Acc2"@), KeycodeKind::Special)),
        0x00E0 => Some(named("Left Ctrl"@, Some("LCtl"@), KeycodeKind::Modifier)),
        0x00E1 => Some(named("Left Shift"@, Some("LSft"@), KeycodeKind::Modifier)),
        0x00E2 => Some(named("Left Alt"@, Some("LAlt"@), KeycodeKind::Modifier)),
        0x00E3 => Some(named("Left GUI"@, Some("LGui"@), KeycodeKind::Modifier)),
        0x00E4 => Some(named("Right Ctrl"@, Some("RCtl"@), KeycodeKind::Modifier)),
        0x00E5 => Some(named("Right Shift"@, Some("RSft"@), KeycodeKind::Modifier)),
        0x00E6 => Some(named("Right Alt"@, Some("RAlt"@), KeycodeKind::Modifier)),
        0x00E7 => Some(named("Right GUI"@, Some("RGui"@), KeycodeKind::Modifier)),
        0x7C00 => Some(named("Bootloader"@, Some("Boot"@), KeycodeKind::Special)),
        0x7C01 => Some(named("Reboot"@, Some("Rbt"@), KeycodeKind::Special)),
        0x7C02 => Some(named("Debug Toggle"@, Some("Dbg"@), KeycodeKind::Special)),
        0x7C03 => Some(named("Clear EEPROM"@, Some("ClrEE"@), KeycodeKind::Special)),
        0x7C04 => Some(named("Make"@, None, KeycodeKind::Special)),
        0x7C16 => Some(named("Grave Escape"@, Some("GEsc"@), KeycodeKind::Special)),
        0x7C73 => Some(named("Caps Word"@, Some("CWrd"@), KeycodeKind::Special)),
        0x7C77 => Some(named("Tri Layer Lower"@, Some("TLLo"@), KeycodeKind::Special)),
        0x7C78 => Some(named("Tri Layer Upper"@, Some("TLUp"@), KeycodeKind::Special)),
        0x7C79 => Some(named("Repeat"@, Some("Rep"@), KeycodeKind::Special)),
        0x7C7A => Some(named("Alt Repeat"@, Some("ARep"@), KeycodeKind::Special)),
        _ => None,
    }
}

/// Text of a basic table entry: long name, short name, class.
pub type BasicText = (Option<&'static str>, Option<&'static str>, KeycodeKind);

/// The view of a basic table entry's text.
pub open spec fn basic_text_view(t: BasicText) -> BasicName {
    BasicName {
        long: match t.0 {
            Some(s) => Some(s@),
            None => None,
        },
        short: match t.1 {
            Some(s) => Some(s@),
            None => None,
        },
        kind: t.2,
    }
}

/// Looks `code` up in the table of basic keycodes.
pub fn basic_text(code: u16) -> (r: Option<BasicText>)
    ensures
        r is None <==> basic_entry(code) is None,
        r matches Some(t) ==> basic_entry(code) == Some(basic_text_view(t)),
{
    match code {
        0x0000 => Some((None, None, KeycodeKind::Basic)),
        0x0001 => Some((Some("▽"), None, KeycodeKind::Basic)),
        0x0004 => Some((Some("A"), None, KeycodeKind::Basic)),
        0x0005 => Some((Some("B"), None, KeycodeKind::Basic)),
        0x0006 => Some((Some("C"), None, KeycodeKind::Basic)),
        0x0007 => Some((Some("D"), None, KeycodeKind::Basic)),
        0x0008 => Some((Some("E"), None, KeycodeKind::Basic)),
        0x0009 => Some((Some("F"), None, KeycodeKind::Basic)),
        0x000A => Some((Some("G"), None, KeycodeKind::Basic)),
        0x000B => Some((Some("H"), None, KeycodeKind::Basic)),
        0x000C => Some((Some("I"), None, KeycodeKind::Basic)),
        0x000D => Some((Some("J"), None, KeycodeKind::Basic)),
        0x000E => Some((Some("K"), None, KeycodeKind::Basic)),
        0x000F => Some((Some("L"), None, KeycodeKind::Basic)),
        0x0010 => Some((Some("M"), None, KeycodeKind::Basic)),
        0x0011 => Some((Some("N"), None, KeycodeKind::Basic)),
        0x0012 => Some((Some("O"), None, KeycodeKind::Basic)),
        0x0013 => Some((Some("P"), None, KeycodeKind::Basic)),
        0x0014 => Some((Some("Q"), None, KeycodeKind::Basic)),
        0x0015 => Some((Some("R"), None, KeycodeKind::Basic)),
        0x0016 => Some((Some("S"), None, KeycodeKind::Basic)),
        0x0017 => Some((Some("T"), None, KeycodeKind::Basic)),
        0x0018 => Some((Some("U"), None, KeycodeKind::Basic)),
        0x0019 => Some((Some("V"), None, KeycodeKind::Basic)),
        0x001A => Some((Some("W"), None, KeycodeKind::Basic)),
        0x001B => Some((Some("X"), None, KeycodeKind::Basic)),
        0x001C => Some((Some("Y"), None, KeycodeKind::Basic)),
        0x001D => Some((Some("Z"), None, KeycodeKind::Basic)),
        0x001E => Some((Some("1"), None, KeycodeKind::Basic)),
        0x001F => Some((Some("2"), None, KeycodeKind::Basic)),
        0x0020 => Some((Some("3"), None, KeycodeKind::Basic)),
        0x0021 => Some((Some("4"), None, KeycodeKind::Basic)),
        0x0022 => Some((Some("5"), None, KeycodeKind::Basic)),
        0x0023 => Some((Some("6"), None, KeycodeKind::Basic)),
        0x0024 => Some((Some("7"), None, KeycodeKind::Basic)),
        0x0025 => Some((Some("8"), None, KeycodeKind::Basic)),
        0x0026 => Some((Some("9"), None, KeycodeKind::Basic)),
        0x0027 => Some((Some("0"), None, KeycodeKind::Basic)),
        0x0028 => Some((Some("Enter"), Some("Ent"), KeycodeKind::Special)),
        0x0029 => Some((Some("Esc"), None, KeycodeKind::Special)),
        0x002A => Some((Some("Backspace"), Some("Bspc"), KeycodeKind::Special)),
        0x002B => Some((Some("Tab"), None, KeycodeKind::Special)),
        0x002C => Some((Some("Space"), Some("Spc"), KeycodeKind::Special)),
        0x002D => Some((Some("-"), None, KeycodeKind::Basic)),
        0x002E => Some((Some("="), None, KeycodeKind::Basic)),
        0x002F => Some((Some("["), None, KeycodeKind::Basic)),
        0x0030 => Some((Some("]"), None, KeycodeKind::Basic)),
        0x0031 => Some((Some("\\"), None, KeycodeKind::Basic)),
        0x0032 => Some((Some("#"), None, KeycodeKind::Basic)),
        0x0033 => Some((Some(";"), None, KeycodeKind::Basic)),
        0x0034 => Some((Some("'"), None, KeycodeKind::Basic)),
        0x0035 => Some((Some("`"), None, KeycodeKind::Basic)),
        0x0036 => Some((Some(","), None, KeycodeKind::Basic)),
        0x0037 => Some((Some("."), None, KeycodeKind::Basic)),
        0x0038 => Some((Some("/"), None, KeycodeKind::Basic)),
        0x0039 => Some((Some("Caps Lock"), Some("Caps"), KeycodeKind::Special)),
        0x003A => Some((Some("F1"), None, KeycodeKind::Special)),
        0x003B => Some((Some("F2"), None, KeycodeKind::Special)),
        0x003C => Some((Some("F3"), None, KeycodeKind::Special)),
        0x003D => Some((Some("F4"), None, KeycodeKind::Special)),
        0x003E => Some((Some("F5"), None, KeycodeKind::Special)),
        0x003F => Some((Some("F6"), None, KeycodeKind::Special)),
        0x0040 => Some((Some("F7"), None, KeycodeKind::Special)),
        0x0041 => Some((Some("F8"), None, KeycodeKind::Special)),
        0x0042 => Some((Some("F9"), None, KeycodeKind::Special)),
        0x0043 => Some((Some("F10"), None, KeycodeKind::Special)),
        0x0044 => Some((Some("F11"), None, KeycodeKind::Special)),
        0x0045 => Some((Some("F12"), None, KeycodeKind::Special)),
        0x0046 => Some((Some("Print Screen"), Some("PrtSc"), KeycodeKind::Special)),
        0x0047 => Some((Some("Scroll Lock"), Some("ScrLk"), KeycodeKind::Special)),
        0x0048 => Some((Some("Pause"), None, KeycodeKind::Special)),
        0x0049 => Some((Some("Insert"), Some("Ins"), KeycodeKind::Special)),
        0x004A => Some((Some("Home"), None, KeycodeKind::Special)),
        0x004B => Some((Some("Page Up"), Some("PgUp"), KeycodeKind::Special)),
        0x004C => Some((Some("Delete"), Some("Del"), KeycodeKind::Special)),
        0x004D => Some((Some("End"), None, KeycodeKind::Special)),
        0x004E => Some((Some("Page Down"), Some("PgDn"), KeycodeKind::Special)),
        0x004F => Some((Some("Right"), Some("→"), KeycodeKind::Special)),
        0x0050 => Some((Some("Left"), Some("←"), KeycodeKind::Special)),
        0x0051 => Some((Some("Down"), Some("↓"), KeycodeKind::Special)),
        0x0052 => Some((Some("Up"), Some("↑"), KeycodeKind::Special)),
        0x0053 => Some((Some("Num Lock"), Some("NumLk"), KeycodeKind::Special)),
        0x0054 => Some((Some("KP /"), None, KeycodeKind::Basic)),
        0x0055 => Some((Some("KP *"), None, KeycodeKind::Basic)),
        0x0056 => Some((Some("KP -"), None, KeycodeKind::Basic)),
        0x0057 => Some((Some("KP +"), None, KeycodeKind::Basic)),
        0x0058 => Some((Some("KP Enter"), Some("KP Ent"), KeycodeKind::Special)),
        0x0059 => Some((Some("KP 1"), None, KeycodeKind::Basic)),
        0x005A => Some((Some("KP 2"), None, KeycodeKind::Basic)),
        0x005B => Some((Some("KP 3"), None, KeycodeKind::Basic)),
        0x005C => Some((Some("KP 4"), None, KeycodeKind::Basic)),
        0x005D => Some((Some("KP 5"), None, KeycodeKind::Basic)),
        0x005E => Some((Some("KP 6"), None, KeycodeKind::Basic)),
        0x005F => Some((Some("KP 7"), None, KeycodeKind::Basic)),
        0x0060 => Some((Some("KP 8"), None, KeycodeKind::Basic)),
        0x0061 => Some((Some("KP 9"), None, KeycodeKind::Basic)),
        0x0062 => Some((Some("KP 0"), None, KeycodeKind::Basic)),
        0x0063 => Some((Some("KP ."), None, KeycodeKind::Basic)),
        0x0064 => Some((Some("NUBS"), None, KeycodeKind::Basic)),
        0x0065 => Some((Some("Menu"), None, KeycodeKind::Special)),
        0x0066 => Some((Some("Power"), None, KeycodeKind::Special)),
        0x0067 => Some((Some("KP ="), None, KeycodeKind::Basic)),
        0x0068 => Some((Some("F13"), None, KeycodeKind::Special)),
        0x0069 => Some((Some("F14"), None, KeycodeKind::Special)),
        0x006A => Some((Some("F15"), None, KeycodeKind::Special)),
        0x006B => Some((Some("F16"), None, KeycodeKind::Special)),
        0x006C => Some((Some("F17"), None, KeycodeKind::Special)),
        0x006D => Some((Some("F18"), None, KeycodeKind::Special)),
        0x006E => Some((Some("F19"), None, KeycodeKind::Special)),
        0x006F => Some((Some("F20"), None, KeycodeKind::Special)),
        0x0070 => Some((Some("F21"), None, KeycodeKind::Special)),
        0x0071 => Some((Some("F22"), None, KeycodeKind::Special)),
        0x0072 => Some((Some("F23"), None, KeycodeKind::Special)),
        0x0073 => Some((Some("F24"), None, KeycodeKind::Special)),
        0x0074 => Some((Some("Execute"), Some("Exec"), KeycodeKind::Special)),
        0x0075 => Some((Some("Help"), None, KeycodeKind::Special)),
        0x0076 => Some((Some("Menu"), None, KeycodeKind::Special)),
        0x0077 => Some((Some("Select"), Some("Slct"), KeycodeKind::Special)),
        0x0078 => Some((Some("Stop"), None, KeycodeKind::Special)),
        0x0079 => Some((Some("Again"), Some("Agin"), KeycodeKind::Special)),
        0x007A => Some((Some("Undo"), None, KeycodeKind::Special)),
        0x007B => Some((Some("Cut"), None, KeycodeKind::Special)),
        0x007C => Some((Some("Copy"), None, KeycodeKind::Special)),
        0x007D => Some((Some("Paste"), Some("Pste"), KeycodeKind::Special)),
        0x007E => Some((Some("Find"), None, KeycodeKind::Special)),
        0x007F => Some((Some("Mute"), None, KeycodeKind::Special)),
        0x0080 => Some((Some("Vol Up"), Some("Vol+"), KeycodeKind::Special)),
        0x0081 => Some((Some("Vol Down"), Some("Vol-"), KeycodeKind::Special)),
        0x0082 => Some((Some("Locking Caps"), Some("LCaps"), KeycodeKind::Special)),
        0x0083 => Some((Some("Locking Num"), Some("LNum"), KeycodeKind::Special)),
        0x0084 => Some((Some("Locking Scroll"), Some("LScr"), KeycodeKind::Special)),
        0x0085 => Some((Some("KP ,"), None, KeycodeKind::Basic)),
        0x0086 => Some((Some("KP = (AS400)"), Some("KP ="), KeycodeKind::Basic)),
        0x0087 => Some((Some("Intl 1"), Some("I1"), KeycodeKind::Special)),
        0x0088 => Some((Some("Intl 2"), Some("I2"), KeycodeKind::Special)),
        0x0089 => Some((Some("Intl 3"), Some("I3"), KeycodeKind::Special)),
        0x008A => Some((Some("Intl 4"), Some("I4"), KeycodeKind::Special)),
        0x008B => Some((Some("Intl 5"), Some("I5"), KeycodeKind::Special)),
        0x008C => Some((Some("Intl 6"), Some("I6"), KeycodeKind::Special)),
        0x008D => Some((Some("Intl 7"), Some("I7"), KeycodeKind::Special)),
        0x008E => Some((Some("Intl 8"), Some("I8"), KeycodeKind::Special)),
        0x008F => Some((Some("Intl 9"), Some("I9"), KeycodeKind::Special)),
        0x0090 => Some((Some("Lang 1"), Some("L1"), KeycodeKind::Special)),
        0x0091 => Some((Some("Lang 2"), Some("L2"), KeycodeKind::Special)),
        0x0092 => Some((Some("Lang 3"), Some("L3"), KeycodeKind::Special)),
        0x0093 => Some((Some("Lang 4"), Some("L4"), KeycodeKind::Special)),
        0x0094 => Some((Some("Lang 5"), Some("L5"), KeycodeKind::Special)),
        0x0095 => Some((Some("Lang 6"), Some("L6"), KeycodeKind::Special)),
        0x0096 => Some((Some("Lang 7"), Some("L7"), KeycodeKind::Special)),
        0x0097 => Some((Some("Lang 8"), Some("L8"), KeycodeKind::Special)),
        0x0098 => Some((Some("Lang 9"), Some("L9"), KeycodeKind::Special)),
        0x0099 => Some((Some("Alt Erase"), Some("AErs"), KeycodeKind::Special)),
        0x009A => Some((Some("SysReq"), None, KeycodeKind::Special)),
        0x009B => Some((Some("Cancel"), Some("Cncl"), KeycodeKind::Special)),
        0x009C => Some((Some("Clear"), Some("Clr"), KeycodeKind::Special)),
        0x009D => Some((Some("Prior"), Some("Prir"), KeycodeKind::Special)),
        0x009E => Some((Some("Return"), Some("Retn"), KeycodeKind::Special)),
        0x009F => Some((Some("Separator"), Some("Sep"), KeycodeKind::Special)),
        0x00A0 => Some((Some("Out"), None, KeycodeKind::Special)),
        0x00A1 => Some((Some("Oper"), None, KeycodeKind::Special)),
        0x00A2 => Some((Some("Clear Again"), Some("ClAg"), KeycodeKind::Special)),
        0x00A3 => Some((Some("CrSel"), None, KeycodeKind::Special)),
        0x00A4 => Some((Some("ExSel"), None, KeycodeKind::Special)),
        0x00A5 => Some((Some("System Power"), Some("Pwr"), KeycodeKind::Special)),
        0x00A6 => Some((Some("System Sleep"), Some("Sleep"), KeycodeKind::Special)),
        0x00A7 => Some((Some("System Wake"), Some("Wake"), KeycodeKind::Special)),
        0x00A8 => Some((Some("Mute"), None, KeycodeKind::Special)),
        0x00A9 => Some((Some("Vol Up"), Some("Vol+"), KeycodeKind::Special)),
        0x00AA => Some((Some("Vol Down"), Some("Vol-"), KeycodeKind::Special)),
        0x00AB => Some((Some("Next Track"), Some("Next"), KeycodeKind::Special)),
        0x00AC => Some((Some("Prev Track"), Some("Prev"), KeycodeKind::Special)),
        0x00AD => Some((Some("Media Stop"), Some("Stop"), KeycodeKind::Special)),
        0x00AE => Some((Some("Play/Pause"), Some("Play"), KeycodeKind::Special)),
        0x00AF => Some((Some("Media Select"), Some("MSel"), KeycodeKind::Special)),
        0x00B0 => Some((Some("Eject"), None, KeycodeKind::Special)),
        0x00B1 => Some((Some("Mail"), None, KeycodeKind::Special)),
        0x00B2 => Some((Some("Calculator"), Some("Calc"), KeycodeKind::Special)),
        0x00B3 => Some((Some("My Computer"), Some("MyPC"), KeycodeKind::Special)),
        0x00B4 => Some((Some("Search"), Some("Srch"), KeycodeKind::Special)),
        0x00B5 => Some((Some("Browser Home"), Some("WHom"), KeycodeKind::Special)),
        0x00B6 => Some((Some("Browser Back"), Some("WBak"), KeycodeKind::Special)),
        0x00B7 => Some((Some("Browser Forward"), Some("WFwd"), KeycodeKind::Special)),
        0x00B8 => Some((Some("Browser Stop"), Some("WStp"), KeycodeKind::Special)),
        0x00B9 => Some((Some("Refresh"), Some("Rfsh"), KeycodeKind::Special)),
        0x00BA => Some((Some("Favorites"), Some("Fav"), KeycodeKind::Special)),
        0x00BB => Some((Some("Fast Forward"), Some("FFwd"), KeycodeKind::Special)),
        0x00BC => Some((Some("Rewind"), Some("Rwnd"), KeycodeKind::Special)),
        0x00BD => Some((Some("Brightness Up"), Some("Bri+"), KeycodeKind::Special)),
        0x00BE => Some((Some("Brightness Down"), Some("Bri-"), KeycodeKind::Special)),
        0x00BF => Some((Some("Control Panel"), Some("CPnl"), KeycodeKind::Special)),
        0x00C0 => Some((Some("Assistant"), Some("Asst"), KeycodeKind::Special)),
        0x00C1 => Some((Some("Mission Control"), Some("MCtl"), KeycodeKind::Special)),
        0x00C2 => Some((Some("Launchpad"), Some("LPad"), KeycodeKind::Special)),
        0x00CD => Some((Some("Mouse Up"), Some("Ms↑"), KeycodeKind::Special)),
        0x00CE => Some((Some("Mouse Down"), Some("Ms↓"), KeycodeKind::Special)),
        0x00CF => Some((Some("Mouse Left"), Some("Ms←"), KeycodeKind::Special)),
        0x00D0 => Some((Some("Mouse Right"), Some("Ms→"), KeycodeKind::Special)),
        0x00D1 => Some((Some("Mouse Button 1"), Some("Btn1"), KeycodeKind::Special)),
        0x00D2 => Some((Some("Mouse Button 2"), Some("Btn2"), KeycodeKind::Special)),
        0x00D3 => Some((Some("Mouse Button 3"), Some("Btn3"), KeycodeKind::Special)),
        0x00D4 => Some((Some("Mouse Button 4"), Some("Btn4"), KeycodeKind::Special)),
        0x00D5 => Some((Some("Mouse Button 5"), Some("Btn5"), KeycodeKind::Special)),
        0x00D6 => Some((Some("Mouse Button 6"), Some("Btn6"), KeycodeKind::Special)),
        0x00D7 => Some((Some("Mouse Button 7"), Some("Btn7"), KeycodeKind::Special)),
        0x00D8 => Some((Some("Mouse Button 8"), Some("Btn8"), KeycodeKind::Special)),
        0x00D9 => Some((Some("Wheel Up"), Some("Wh↑"), KeycodeKind::Special)),
        0x00DA => Some((Some("Wheel Down"), Some("Wh↓"), KeycodeKind::Special)),
        0x00DB => Some((Some("Wheel Left"), Some("Wh←"), KeycodeKind::Special)),
        0x00DC => Some((Some("Wheel Right"), Some("Wh→"), KeycodeKind::Special)),
        0x00DD => Some((Some("Mouse Accel 0"), Some("Acc0"), KeycodeKind::Special)),
        0x00DE => Some((Some("Mouse Accel 1"), Some("Acc1"), KeycodeKind::Special)),
        0x00DF => Some((Some("Mouse Accel 2"), Some("Acc2"), KeycodeKind::Special)),
        0x00E0 => Some((Some("Left Ctrl"), Some("LCtl"), KeycodeKind::Modifier)),
        0x00E1 => Some((Some("Left Shift"), Some("LSft"), KeycodeKind::Modifier)),
        0x00E2 => Some((Some("Left Alt"), Some("LAlt"), KeycodeKind::Modifier)),
        0x00E3 => Some((Some("Left GUI"), Some("LGui"), KeycodeKind::Modifier)),
        0x00E4 => Some((Some("Right Ctrl"), Some("RCtl"), KeycodeKind::Modifier)),
        0x00E5 => Some((Some("Right Shift"), Some("RSft"), KeycodeKind::Modifier)),
        0x00E6 => Some((Some("Right Alt"), Some("RAlt"), KeycodeKind::Modifier)),
        0x00E7 => Some((Some("Right GUI"), Some("RGui"), KeycodeKind::Modifier)),
        0x7C00 => Some((Some("Bootloader"), Some("Boot"), KeycodeKind::Special)),
        0x7C01 => Some((Some("Reboot"), Some("Rbt"), KeycodeKind::Special)),
        0x7C02 => Some((Some("Debug Toggle"), Some("Dbg"), KeycodeKind::Special)),
        0x7C03 => Some((Some("Clear EEPROM"), Some("ClrEE"), KeycodeKind::Special)),
        0x7C04 => Some((Some("Make"), None, KeycodeKind::Special)),
        0x7C16 => Some((Some("Grave Escape"), Some("GEsc"), KeycodeKind::Special)),
        0x7C73 => Some((Some("Caps Word"), Some("CWrd"), KeycodeKind::Special)),
        0x7C77 => Some((Some("Tri Layer Lower"), Some("TLLo"), KeycodeKind::Special)),
        0x7C78 => Some((Some("Tri Layer Upper"), Some("TLUp"), KeycodeKind::Special)),
        0x7C79 => Some((Some("Repeat"), Some("Rep"), KeycodeKind::Special)),
        0x7C7A => Some((Some("Alt Repeat"), Some("ARep"), KeycodeKind::Special)),
        _ => None,
    }
}

/// Every named entry of the table has a non-empty long name.
pub proof fn lemma_basic_names_nonempty(code: u16)
    ensures
        basic_entry(code) matches Some(e) ==> (e.long matches Some(l) ==> l.len() > 0),
{
    reveal_strlit("▽");
    reveal_strlit("A");
    reveal_strlit("B");
    reveal_strlit("C");
    reveal_strlit("D");
    reveal_strlit("E");
    reveal_strlit("F");
    reveal_strlit("G");
    reveal_strlit("H");
    reveal_strlit("I");
    reveal_strlit("J");
    reveal_strlit("K");
    reveal_strlit("L");
    reveal_strlit("M");
    reveal_strlit("N");
    reveal_strlit("O");
    reveal_strlit("P");
    reveal_strlit("Q");
    reveal_strlit("R");
    reveal_strlit("S");
    reveal_strlit("T");
    reveal_strlit("U");
    reveal_strlit("V");
    reveal_strlit("W");
    reveal_strlit("X");
    reveal_strlit("Y");
    reveal_strlit("Z");
    reveal_strlit("1");
    reveal_strlit("2");
    reveal_strlit("3");
    reveal_strlit("4");
    reveal_strlit("5");
    reveal_strlit("6");
    reveal_strlit("7");
    reveal_strlit("8");
    reveal_strlit("9");
    reveal_strlit("0");
    reveal_strlit("Enter");
    reveal_strlit("Esc");
    reveal_strlit("Backspace");
    reveal_strlit("Tab");
    reveal_strlit("Space");
    reveal_strlit("-");
    reveal_strlit("=");
    reveal_strlit("[");
    reveal_strlit("]");
    reveal_strlit("\\");
    reveal_strlit("#");
    reveal_strlit(";");
    reveal_strlit("'");
    reveal_strlit("`");
    reveal_strlit(",");
    reveal_strlit(".");
    reveal_strlit("/");
    reveal_strlit("Caps Lock");
    reveal_strlit("F1");
    reveal_strlit("F2");
    reveal_strlit("F3");
    reveal_strlit("F4");
    reveal_strlit("F5");
    reveal_strlit("F6");
    reveal_strlit("F7");
    reveal_strlit("F8");
    reveal_strlit("F9");
    reveal_strlit("F10");
    reveal_strlit("F11");
    reveal_strlit("F12");
    reveal_strlit("Print Screen");
    reveal_strlit("Scroll Lock");
    reveal_strlit("Pause");
    reveal_strlit("Insert");
    reveal_strlit("Home");
    reveal_strlit("Page Up");
    reveal_strlit("Delete");
    reveal_strlit("End");
    reveal_strlit("Page Down");
    reveal_strlit("Right");
    reveal_strlit("Left");
    reveal_strlit("Down");
    reveal_strlit("Up");
    reveal_strlit("Num Lock");
    reveal_strlit("KP /");
    reveal_strlit("KP *");
    reveal_strlit("KP -");
    reveal_strlit("KP +");
    reveal_strlit("KP Enter");
    reveal_strlit("KP 1");
    reveal_strlit("KP 2");
    reveal_strlit("KP 3");
    reveal_strlit("KP 4");
    reveal_strlit("KP 5");
    reveal_strlit("KP 6");
    reveal_strlit("KP 7");
    reveal_strlit("KP 8");
    reveal_strlit("KP 9");
    reveal_strlit("KP 0");
    reveal_strlit("KP .");
    reveal_strlit("NUBS");
    reveal_strlit("Menu");
    reveal_strlit("Power");
    reveal_strlit("KP =");
    reveal_strlit("F13");
    reveal_strlit("F14");
    reveal_strlit("F15");
    reveal_strlit("F16");
    reveal_strlit("F17");
    reveal_strlit("F18");
    reveal_strlit("F19");
    reveal_strlit("F20");
    reveal_strlit("F21");
    reveal_strlit("F22");
    reveal_strlit("F23");
    reveal_strlit("F24");
    reveal_strlit("Execute");
    reveal_strlit("Help");
    reveal_strlit("Select");
    reveal_strlit("Stop");
    reveal_strlit("Again");
    reveal_strlit("Undo");
    reveal_strlit("Cut");
    reveal_strlit("Copy");
    reveal_strlit("Paste");
    reveal_strlit("Find");
    reveal_strlit("Mute");
    reveal_strlit("Vol Up");
    reveal_strlit("Vol Down");
    reveal_strlit("Locking Caps");
    reveal_strlit("Locking Num");
    reveal_strlit("Locking Scroll");
    reveal_strlit("KP ,");
    reveal_strlit("KP = (AS400)");
    reveal_strlit("Intl 1");
    reveal_strlit("Intl 2");
    reveal_strlit("Intl 3");
    reveal_strlit("Intl 4");
    reveal_strlit("Intl 5");
    reveal_strlit("Intl 6");
    reveal_strlit("Intl 7");
    reveal_strlit("Intl 8");
    reveal_strlit("Intl 9");
    reveal_strlit("Lang 1");
    reveal_strlit("Lang 2");
    reveal_strlit("Lang 3");
    reveal_strlit("Lang 4");
    reveal_strlit("Lang 5");
    reveal_strlit("Lang 6");
    reveal_strlit("Lang 7");
    reveal_strlit("Lang 8");
    reveal_strlit("Lang 9");
    reveal_strlit("Alt Erase");
    reveal_strlit("SysReq");
    reveal_strlit("Cancel");
    reveal_strlit("Clear");
    reveal_strlit("Prior");
    reveal_strlit("Return");
    reveal_strlit("Separator");
    reveal_strlit("Out");
    reveal_strlit("Oper");
    reveal_strlit("Clear Again");
    reveal_strlit("CrSel");
    reveal_strlit("ExSel");
    reveal_strlit("System Power");
    reveal_strlit("System Sleep");
    reveal_strlit("System Wake");
    reveal_strlit("Next Track");
    reveal_strlit("Prev Track");
    reveal_strlit("Media Stop");
    reveal_strlit("Play/Pause");
    reveal_strlit("Media Select");
    reveal_strlit("Eject");
    reveal_strlit("Mail");
    reveal_strlit("Calculator");
    reveal_strlit("My Computer");
    reveal_strlit("Search");
    reveal_strlit("Browser Home");
    reveal_strlit("Browser Back");
    reveal_strlit("Browser Forward");
    reveal_strlit("Browser Stop");
    reveal_strlit("Refresh");
    reveal_strlit("Favorites");
    reveal_strlit("Fast Forward");
    reveal_strlit("Rewind");
    reveal_strlit("Brightness Up");
    reveal_strlit("Brightness Down");
    reveal_strlit("Control Panel");
    reveal_strlit("Assistant");
    reveal_strlit("Mission Control");
    reveal_strlit("Launchpad");
    reveal_strlit("Mouse Up");
    reveal_strlit("Mouse Down");
    reveal_strlit("Mouse Left");
    reveal_strlit("Mouse Right");
    reveal_strlit("Mouse Button 1");
    reveal_strlit("Mouse Button 2");
    reveal_strlit("Mouse Button 3");
    reveal_strlit("Mouse Button 4");
    reveal_strlit("Mouse Button 5");
    reveal_strlit("Mouse Button 6");
    reveal_strlit("Mouse Button 7");
    reveal_strlit("Mouse Button 8");
    reveal_strlit("Wheel Up");
    reveal_strlit("Wheel Down");
    reveal_strlit("Wheel Left");
    reveal_strlit("Wheel Right");
    reveal_strlit("Mouse Accel 0");
    reveal_strlit("Mouse Accel 1");
    reveal_strlit("Mouse Accel 2");
    reveal_strlit("Left Ctrl");
    reveal_strlit("Left Shift");
    reveal_strlit("Left Alt");
    reveal_strlit("Left GUI");
    reveal_strlit("Right Ctrl");
    reveal_strlit("Right Shift");
    reveal_strlit("Right Alt");
    reveal_strlit("Right GUI");
    reveal_strlit("Bootloader");
    reveal_strlit("Reboot");
    reveal_strlit("Debug Toggle");
    reveal_strlit("Clear EEPROM");
    reveal_strlit("Make");
    reveal_strlit("Grave Escape");
    reveal_strlit("Caps Word");
    reveal_strlit("Tri Layer Lower");
    reveal_strlit("Tri Layer Upper");
    reveal_strlit("Repeat");
    reveal_strlit("Alt Repeat");
}

} // verus!
