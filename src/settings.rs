use vstd::prelude::*;
use vstd::string::*;

verus! {

/// A camera that the display can show.
#[derive(Debug, Clone)]
pub struct CameraDevice {
    pub device_id: String,
    pub label: String,
    pub group_id: Option<String>,
}

/// Outline of the camera window.
#[derive(Debug, Clone, Copy, PartialEq, Eq, Structural)]
pub enum ShapePreset {
    Circle,
    RoundedSquare,
    Mickey,
}

/// How long a shown key stays before it fades out, in milliseconds, unless
/// configured otherwise.
pub const DEFAULT_KEYBOARD_FADE_OUT: u64 = 2000;

/// Where the key display sits unless configured otherwise.
pub fn default_keyboard_position() -> (r: String)
    ensures
        r@ == "bottom-center"@,
{
    String::from_str("bottom-center")
}

/// How long a shown key stays before it fades out, in milliseconds.
pub fn default_keyboard_fade_out() -> (r: u64)
    ensures
        r == DEFAULT_KEYBOARD_FADE_OUT,
{
    DEFAULT_KEYBOARD_FADE_OUT
}

/// The key display's look unless configured otherwise.
pub fn default_keyboard_style() -> (r: String)
    ensures
        r@ == "dark"@,
{
    String::from_str("dark")
}

/// The interface language unless configured otherwise.
pub fn default_locale() -> (r: String)
    ensures
        r@ == "en"@,
{
    String::from_str("en")
}

} // verus!
