//! Translation of captured key events for an on-screen key display: the
//! keycode label table, modifier press/release disambiguation, the choice of
//! what to publish for each event, and the capture lifecycle.

use vstd::prelude::*;

pub mod clock;
pub mod events;
pub mod keycodes;
pub mod lifecycle;
pub mod modifiers;
pub mod os_text;
pub mod settings;
pub mod tray;

verus! {

} // verus!
