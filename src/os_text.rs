use vstd::prelude::*;
use vstd::string::*;

verus! {

/// The characters of Unicode general category Cc (control codes).
pub open spec fn is_control(c: char) -> bool {
    (c as u32) <= 0x1F || (0x7F <= (c as u32) && (c as u32) <= 0x9F)
}

/// The first character of `text`, when there is one and it is printable.
pub open spec fn first_printable(text: Seq<char>) -> Option<char> {
    if text.len() > 0 && !is_control(text[0]) {
        Some(text[0])
    } else {
        None
    }
}

/// What `String::from_utf16_lossy` makes of a sequence of UTF-16 code units.
pub uninterp spec fn utf16_lossy(units: Seq<u16>) -> Seq<char>;

/// What `char::to_uppercase` makes of a character.
pub uninterp spec fn uppercase_of(c: char) -> Seq<char>;

/// The views of an optional string.
pub open spec fn opt_view(o: Option<String>) -> Option<Seq<char>> {
    match o {
        Some(s) => Some(s@),
        None => None,
    }
}

/// The label that decoded text gives a key: its first character in upper
/// case, when the text is not empty and that character is printable.
pub open spec fn text_label(text: Seq<char>) -> Option<Seq<char>> {
    match first_printable(text) {
        Some(c) => Some(uppercase_of(c)),
        None => None,
    }
}

/// The label that OS-composed UTF-16 text gives a key; none for empty text.
pub open spec fn os_label(units: Seq<u16>) -> Option<Seq<char>> {
    if units.len() == 0 {
        None
    } else {
        text_label(utf16_lossy(units))
    }
}

/// Relies on `String::from_utf16_lossy`: decodes UTF-16, replacing invalid
/// units; the result depends on the units alone.
#[verifier::external_body]
fn decode_utf16_lossy(units: &[u16]) -> (r: String)
    ensures
        r@ == utf16_lossy(units@),
{
    String::from_utf16_lossy(units)
}

/// Relies on `char::to_uppercase`: the upper-case mapping of one character,
/// which depends on the character alone.
#[verifier::external_body]
fn uppercase(c: char) -> (r: String)
    ensures
        r@ == uppercase_of(c),
{
    c.to_uppercase().collect()
}

/// Whether `c` is a control character (general category Cc).
pub fn is_control_char(c: char) -> (r: bool)
    ensures
        r == is_control(c),
{
    let v = c as u32;
    v <= 0x1F || (0x7F <= v && v <= 0x9F)
}

/// The first character of `text` if it is printable.
pub fn printable_char(text: &str) -> (r: Option<char>)
    ensures
        r == first_printable(text@),
{
    if text.unicode_len() == 0 {
        return None;
    }
    let c = text.get_char(0);
    if is_control_char(c) {
        None
    } else {
        Some(c)
    }
}

/// The label of a key from the UTF-16 text that the OS composed for it with
/// the modifiers held: the first character, upper-cased, or `None` when the
/// text is empty or starts with a control character.
pub fn unicode_label(units: &[u16]) -> (r: Option<String>)
    ensures
        opt_view(r) == os_label(units@),
{
    if units.len() == 0 {
        return None;
    }
    let text = decode_utf16_lossy(units);
    match printable_char(text.as_str()) {
        Some(c) => Some(uppercase(c)),
        None => None,
    }
}

} // verus!
