use vstd::prelude::*;

verus! {

/// Bit of the modifier-flags mask that reports Caps-Lock.
pub const FLAG_CAPS_LOCK: u64 = 0x0001_0000;

/// Bit of the modifier-flags mask that reports Shift.
pub const FLAG_SHIFT: u64 = 0x0002_0000;

/// Bit of the modifier-flags mask that reports Control.
pub const FLAG_CONTROL: u64 = 0x0004_0000;

/// Bit of the modifier-flags mask that reports Alt (Option).
pub const FLAG_ALTERNATE: u64 = 0x0008_0000;

/// Bit of the modifier-flags mask that reports Command.
pub const FLAG_COMMAND: u64 = 0x0010_0000;

/// The five tracked logical modifiers.
#[derive(Debug, Clone, Copy, PartialEq, Eq, Structural)]
pub enum Modifier {
    Shift,
    Control,
    Alt,
    Command,
    CapsLock,
}

/// Whether a modifier transition went down or up.
#[derive(Debug, Clone, Copy, PartialEq, Eq, Structural)]
pub enum Transition {
    Pressed,
    Released,
}

/// The logical modifier behind a physical key; left and right keys share one.
pub open spec fn modifier_of(keycode: i64) -> Option<Modifier> {
    match keycode {
        0x36 | 0x37 => Some(Modifier::Command),
        0x38 | 0x3C => Some(Modifier::Shift),
        0x39 => Some(Modifier::CapsLock),
        0x3A | 0x3D => Some(Modifier::Alt),
        0x3B | 0x3E => Some(Modifier::Control),
        _ => None,
    }
}

/// The bit that reports `m` in the modifier-flags mask.
pub open spec fn flag_of(m: Modifier) -> u64 {
    match m {
        Modifier::Shift => FLAG_SHIFT,
        Modifier::Control => FLAG_CONTROL,
        Modifier::Alt => FLAG_ALTERNATE,
        Modifier::Command => FLAG_COMMAND,
        Modifier::CapsLock => FLAG_CAPS_LOCK,
    }
}

/// The mask bit of the modifier behind a physical key, if it is one.
pub open spec fn modifier_flag(keycode: i64) -> Option<u64> {
    match modifier_of(keycode) {
        Some(m) => Some(flag_of(m)),
        None => None,
    }
}

/// Pressed when the key's bit is set in `flags`, released when it is clear;
/// `None` for a key that is no tracked modifier.
pub open spec fn modifier_transition(keycode: i64, flags: u64) -> Option<Transition> {
    match modifier_flag(keycode) {
        Some(bit) => Some(
            if flags & bit != 0 {
                Transition::Pressed
            } else {
                Transition::Released
            },
        ),
        None => None,
    }
}

impl Modifier {
    /// The bit that reports this modifier in the modifier-flags mask.
    pub fn flag(self) -> (r: u64)
        ensures
            r == flag_of(self),
    {
        match self {
            Modifier::Shift => FLAG_SHIFT,
            Modifier::Control => FLAG_CONTROL,
            Modifier::Alt => FLAG_ALTERNATE,
            Modifier::Command => FLAG_COMMAND,
            Modifier::CapsLock => FLAG_CAPS_LOCK,
        }
    }
}

/// The logical modifier behind a physical key, if it is one.
pub fn modifier_for_keycode(keycode: i64) -> (r: Option<Modifier>)
    ensures
        r == modifier_of(keycode),
{
    match keycode {
        0x36 | 0x37 => Some(Modifier::Command),
        0x38 | 0x3C => Some(Modifier::Shift),
        0x39 => Some(Modifier::CapsLock),
        0x3A | 0x3D => Some(Modifier::Alt),
        0x3B | 0x3E => Some(Modifier::Control),
        _ => None,
    }
}

/// The modifier-flags bit that a modifier key sets while it is asserted.
pub fn modifier_keycode_to_flag(keycode: i64) -> (r: Option<u64>)
    ensures
        r == modifier_flag(keycode),
{
    match modifier_for_keycode(keycode) {
        Some(m) => Some(m.flag()),
        None => None,
    }
}

/// Classifies a flags-changed event of `keycode` by whether the key's bit is
/// present in the complete modifier mask `flags` that the event carries.
pub fn classify_modifier(keycode: i64, flags: u64) -> (r: Option<Transition>)
    ensures
        r == modifier_transition(keycode, flags),
{
    match modifier_keycode_to_flag(keycode) {
        Some(bit) => {
            if flags & bit != 0 {
                Some(Transition::Pressed)
            } else {
                Some(Transition::Released)
            }
        },
        None => None,
    }
}

/// Each tracked modifier has its own single bit: the map from modifiers to
/// mask bits is one to one.
pub proof fn lemma_flags_distinct(m1: Modifier, m2: Modifier)
    ensures
        flag_of(m1) == flag_of(m2) <==> m1 == m2,
        flag_of(m1) & flag_of(m2) == 0 <==> m1 != m2,
{
    let a = flag_of(m1);
    let b = flag_of(m2);
    assert(a == b ==> a & b == a) by (bit_vector);
    assert(FLAG_CAPS_LOCK & FLAG_SHIFT == 0) by (bit_vector);
    assert(FLAG_CAPS_LOCK & FLAG_CONTROL == 0) by (bit_vector);
    assert(FLAG_CAPS_LOCK & FLAG_ALTERNATE == 0) by (bit_vector);
    assert(FLAG_CAPS_LOCK & FLAG_COMMAND == 0) by (bit_vector);
    assert(FLAG_SHIFT & FLAG_CONTROL == 0) by (bit_vector);
    assert(FLAG_SHIFT & FLAG_ALTERNATE == 0) by (bit_vector);
    assert(FLAG_SHIFT & FLAG_COMMAND == 0) by (bit_vector);
    assert(FLAG_CONTROL & FLAG_ALTERNATE == 0) by (bit_vector);
    assert(FLAG_CONTROL & FLAG_COMMAND == 0) by (bit_vector);
    assert(FLAG_ALTERNATE & FLAG_COMMAND == 0) by (bit_vector);
    assert(a & b == b & a) by (bit_vector);
}

/// For every physical modifier key, a flags-changed event is a press exactly
/// when the modifier's bit is set in the event's mask and a release exactly
/// when it is clear; the two physical keys of one logical modifier are
/// classified identically for every mask.
pub proof fn lemma_modifier_classification(left: i64, right: i64, flags: u64)
    requires
        modifier_of(left) is Some,
        modifier_of(left) == modifier_of(right),
    ensures
        flags & flag_of(modifier_of(left)->0) != 0 ==> modifier_transition(left, flags) == Some(
            Transition::Pressed,
        ),
        flags & flag_of(modifier_of(left)->0) == 0 ==> modifier_transition(left, flags) == Some(
            Transition::Released,
        ),
        modifier_transition(left, flags) == modifier_transition(right, flags),
{
}

} // verus!
