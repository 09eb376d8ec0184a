use vstd::prelude::*;

verus! {

/// Keys whose label always comes from the fixed table: Return, Tab, Space,
/// Backspace, Escape, the modifiers, the function keys and the navigation keys.
pub open spec fn special_key(keycode: i64) -> bool {
    ||| keycode == 0x24 || keycode == 0x30 || keycode == 0x31 || keycode == 0x33 || keycode == 0x35
    ||| 0x36 <= keycode <= 0x3E
    ||| 0x60 <= keycode <= 0x65
    ||| keycode == 0x67 || keycode == 0x6D || keycode == 0x6F
    ||| 0x73 <= keycode <= 0x7E
}

/// Whether the label of `keycode` is taken from the fixed table only, never
/// from the text the OS composes for the key.
pub fn is_special_key(keycode: i64) -> (r: bool)
    ensures
        r == special_key(keycode),
{
    keycode == 0x24 || keycode == 0x30 || keycode == 0x31 || keycode == 0x33 || keycode == 0x35
        || (0x36 <= keycode && keycode <= 0x3E) || (0x60 <= keycode && keycode <= 0x65)
        || keycode == 0x67 || keycode == 0x6D || keycode == 0x6F || (0x73 <= keycode && keycode
        <= 0x7E)
}


/// The fixed label of each key of the table; `None` outside it.
pub open spec fn table_label(keycode: i64) -> Option<Seq<char>> {
    match keycode {
        0x00 => Some("A"@),
        0x01 => Some("S"@),
        0x02 => Some("D"@),
        0x03 => Some("F"@),
        0x04 => Some("H"@),
        0x05 => Some("G"@),
        0x06 => Some("Z"@),
        0x07 => Some("X"@),
        0x08 => Some("C"@),
        0x09 => Some("V"@),
        0x0B => Some("B"@),
        0x0C => Some("Q"@),
        0x0D => Some("W"@),
        0x0E => Some("E"@),
        0x0F => Some("R"@),
        0x10 => Some("Y"@),
        0x11 => Some("T"@),
        0x12 => Some("1"@),
        0x13 => Some("2"@),
        0x14 => Some("3"@),
        0x15 => Some("4"@),
        0x16 => Some("6"@),
        0x17 => Some("5"@),
        0x19 => Some("9"@),
        0x1A => Some("7"@),
        0x1C => Some("8"@),
        0x1D => Some("0"@),
        0x1F => Some("O"@),
        0x20 => Some("U"@),
        0x22 => Some("I"@),
        0x23 => Some("P"@),
        0x24 => Some("↵"@),
        0x25 => Some("L"@),
        0x26 => Some("J"@),
        0x28 => Some("K"@),
        0x2D => Some("N"@),
        0x2E => Some("M"@),
        0x2A => Some("\\"@),
        0x2B => Some(","@),
        0x2C => Some("/"@),
        0x2F => Some("."@),
        0x18 => Some("="@),
        0x1B => Some("-"@),
        0x1E => Some("]"@),
        0x21 => Some("["@),
        0x27 => Some("'"@),
        0x29 => Some(";"@),
        0x32 => Some("`"@),
        0x30 => Some("Tab"@),
        0x31 => Some("Space"@),
        0x33 => Some("⌫"@),
        0x35 => Some("Esc"@),
        0x36 | 0x37 => Some("⌘"@),
        0x38 | 0x3C => Some("Shift"@),
        0x39 => Some("Caps"@),
        0x3A | 0x3D => Some("Alt"@),
        0x3B | 0x3E => Some("Ctrl"@),
        0x60 => Some("F5"@),
        0x61 => Some("F6"@),
        0x62 => Some("F7"@),
        0x63 => Some("F3"@),
        0x64 => Some("F8"@),
        0x65 => Some("F9"@),
        0x67 => Some("F11"@),
        0x6D => Some("F10"@),
        0x6F => Some("F12"@),
        0x73 => Some("Home"@),
        0x74 => Some("PgUp"@),
        0x75 => Some("Del"@),
        0x76 => Some("F4"@),
        0x77 => Some("End"@),
        0x78 => Some("F2"@),
        0x79 => Some("PgDn"@),
        0x7A => Some("F1"@),
        0x7B => Some("←"@),
        0x7C => Some("→"@),
        0x7D => Some("↓"@),
        0x7E => Some("↑"@),
        _ => None,
    }
}

/// Looks `keycode` up in the fixed table of labels.
pub fn keycode_to_string(keycode: i64) -> (r: Option<&'static str>)
    ensures
        r is Some == table_label(keycode) is Some,
        r matches Some(s) ==> s@ == table_label(keycode)->0,
{
    match keycode {
        0x00 => Some("A"),
        0x01 => Some("S"),
        0x02 => Some("D"),
        0x03 => Some("F"),
        0x04 => Some("H"),
        0x05 => Some("G"),
        0x06 => Some("Z"),
        0x07 => Some("X"),
        0x08 => Some("C"),
        0x09 => Some("V"),
        0x0B => Some("B"),
        0x0C => Some("Q"),
        0x0D => Some("W"),
        0x0E => Some("E"),
        0x0F => Some("R"),
        0x10 => Some("Y"),
        0x11 => Some("T"),
        0x12 => Some("1"),
        0x13 => Some("2"),
        0x14 => Some("3"),
        0x15 => Some("4"),
        0x16 => Some("6"),
        0x17 => Some("5"),
        0x19 => Some("9"),
        0x1A => Some("7"),
        0x1C => Some("8"),
        0x1D => Some("0"),
        0x1F => Some("O"),
        0x20 => Some("U"),
        0x22 => Some("I"),
        0x23 => Some("P"),
        0x24 => Some("↵"),
        0x25 => Some("L"),
        0x26 => Some("J"),
        0x28 => Some("K"),
        0x2D => Some("N"),
        0x2E => Some("M"),
        0x2A => Some("\\"),
        0x2B => Some(","),
        0x2C => Some("/"),
        0x2F => Some("."),
        0x18 => Some("="),
        0x1B => Some("-"),
        0x1E => Some("]"),
        0x21 => Some("["),
        0x27 => Some("'"),
        0x29 => Some(";"),
        0x32 => Some("`"),
        0x30 => Some("Tab"),
        0x31 => Some("Space"),
        0x33 => Some("⌫"),
        0x35 => Some("Esc"),
        0x36 | 0x37 => Some("⌘"),
        0x38 | 0x3C => Some("Shift"),
        0x39 => Some("Caps"),
        0x3A | 0x3D => Some("Alt"),
        0x3B | 0x3E => Some("Ctrl"),
        0x60 => Some("F5"),
        0x61 => Some("F6"),
        0x62 => Some("F7"),
        0x63 => Some("F3"),
        0x64 => Some("F8"),
        0x65 => Some("F9"),
        0x67 => Some("F11"),
        0x6D => Some("F10"),
        0x6F => Some("F12"),
        0x73 => Some("Home"),
        0x74 => Some("PgUp"),
        0x75 => Some("Del"),
        0x76 => Some("F4"),
        0x77 => Some("End"),
        0x78 => Some("F2"),
        0x79 => Some("PgDn"),
        0x7A => Some("F1"),
        0x7B => Some("←"),
        0x7C => Some("→"),
        0x7D => Some("↓"),
        0x7E => Some("↑"),
        _ => None,
    }
}

} // verus!
