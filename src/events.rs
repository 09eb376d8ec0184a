use vstd::prelude::*;
use vstd::string::*;

use crate::keycodes::{is_special_key, keycode_to_string, special_key, table_label};
use crate::modifiers::{
    classify_modifier, flag_of, modifier_flag, modifier_of, modifier_transition, Transition,
};
use crate::os_text::{is_control, opt_view, text_label};

verus! {

/// Raw type of a key-down event.
pub const EVENT_KEY_DOWN: u32 = 10;

/// Raw type of a key-up event.
pub const EVENT_KEY_UP: u32 = 11;

/// Raw type of a flags-changed event, which reports any modifier transition.
pub const EVENT_FLAGS_CHANGED: u32 = 12;

/// The event classes that the capture listens to.
#[derive(Debug, Clone, Copy, PartialEq, Eq, Structural)]
pub enum EventClass {
    KeyDown,
    KeyUp,
    FlagsChanged,
}

/// The two topics on which key events are published.
#[derive(Debug, Clone, Copy, PartialEq, Eq, Structural)]
pub enum Topic {
    KeyPressed,
    KeyReleased,
}

/// A key event as handed to the display layer.
#[derive(Debug, Clone)]
pub struct KeyEventPayload {
    pub key: String,
    pub modifiers: Vec<String>,
    pub timestamp: u64,
}

/// The class of a raw event type, if the capture listens to it.
pub open spec fn event_class_of(raw: u32) -> Option<EventClass> {
    if raw == EVENT_KEY_DOWN {
        Some(EventClass::KeyDown)
    } else if raw == EVENT_KEY_UP {
        Some(EventClass::KeyUp)
    } else if raw == EVENT_FLAGS_CHANGED {
        Some(EventClass::FlagsChanged)
    } else {
        None
    }
}

/// The name under which a topic's events are published.
pub open spec fn topic_name(t: Topic) -> Seq<char> {
    match t {
        Topic::KeyPressed => "app://key-pressed"@,
        Topic::KeyReleased => "app://key-released"@,
    }
}

/// The mask of event classes that the tap asks for: key-down, key-up and
/// flags-changed, one bit per raw type.
pub open spec fn capture_mask() -> u64 {
    (1u64 << EVENT_KEY_DOWN) | (1u64 << EVENT_KEY_UP) | (1u64 << EVENT_FLAGS_CHANGED)
}

/// Whether the OS-composed text of the key is consulted: only for key-down
/// and key-up of keys that are not special.
pub open spec fn uses_os_text(class: EventClass, keycode: i64) -> bool {
    class != EventClass::FlagsChanged && !special_key(keycode)
}

/// The label of a key: the OS-composed label where it is consulted and
/// printable, else the fixed table's.
pub open spec fn resolved_label(class: EventClass, keycode: i64, os: Option<Seq<char>>) -> Option<
    Seq<char>,
> {
    if uses_os_text(class, keycode) && os is Some {
        os
    } else {
        table_label(keycode)
    }
}

/// The topic of an event: key-down is a press, key-up a release, and a
/// flags-changed event goes by the modifier's bit in the mask.
pub open spec fn event_topic(class: EventClass, keycode: i64, flags: u64) -> Option<Topic> {
    match class {
        EventClass::KeyDown => Some(Topic::KeyPressed),
        EventClass::KeyUp => Some(Topic::KeyReleased),
        EventClass::FlagsChanged => match modifier_transition(keycode, flags) {
            Some(Transition::Pressed) => Some(Topic::KeyPressed),
            Some(Transition::Released) => Some(Topic::KeyReleased),
            None => None,
        },
    }
}

/// What is published for an event: a topic and a label, or nothing when
/// either is missing.
pub open spec fn emitted(class: EventClass, keycode: i64, flags: u64, os: Option<Seq<char>>) -> Option<
    (Topic, Seq<char>),
> {
    match (event_topic(class, keycode, flags), resolved_label(class, keycode, os)) {
        (Some(t), Some(l)) => Some((t, l)),
        _ => None,
    }
}

impl EventClass {
    /// The class of a raw event type; `None` for any type the capture ignores.
    pub fn from_raw(raw: u32) -> (r: Option<EventClass>)
        ensures
            r == event_class_of(raw),
    {
        if raw == EVENT_KEY_DOWN {
            Some(EventClass::KeyDown)
        } else if raw == EVENT_KEY_UP {
            Some(EventClass::KeyUp)
        } else if raw == EVENT_FLAGS_CHANGED {
            Some(EventClass::FlagsChanged)
        } else {
            None
        }
    }
}

impl Topic {
    /// The name under which events of this topic are published.
    pub fn name(&self) -> (r: &'static str)
        ensures
            r@ == topic_name(*self),
    {
        match self {
            Topic::KeyPressed => "app://key-pressed",
            Topic::KeyReleased => "app://key-released",
        }
    }
}

/// The event-class mask of a passive tap on key-down, key-up and
/// flags-changed events.
pub fn capture_event_mask() -> (r: u64)
    ensures
        r == capture_mask(),
        r == 0x1C00,
{
    let r = (1u64 << EVENT_KEY_DOWN) | (1u64 << EVENT_KEY_UP) | (1u64 << EVENT_FLAGS_CHANGED);
    assert(((1u64 << 10u64) | (1u64 << 11u64) | (1u64 << 12u64)) == 0x1C00) by (bit_vector);
    r
}

/// Whether the OS-composed text of the key should be fetched for this event.
pub fn wants_os_text(class: EventClass, keycode: i64) -> (r: bool)
    ensures
        r == uses_os_text(class, keycode),
{
    class != EventClass::FlagsChanged && !is_special_key(keycode)
}

/// Translates a key into its display label. `os_label` is the label made of
/// the OS-composed text (see `unicode_label`); it is used only for keys that
/// are not special, on key-down and key-up, and when it is present; the fixed
/// table gives the label otherwise.
pub fn label_for(class: EventClass, keycode: i64, os_label: Option<String>) -> (r: Option<String>)
    ensures
        opt_view(r) == resolved_label(class, keycode, opt_view(os_label)),
{
    if wants_os_text(class, keycode) {
        if let Some(s) = os_label {
            return Some(s);
        }
    }
    match keycode_to_string(keycode) {
        Some(s) => Some(String::from_str(s)),
        None => None,
    }
}

/// The topic of an event, or `None` for a flags-changed event of a key that
/// is no tracked modifier.
pub fn topic_for(class: EventClass, keycode: i64, flags: u64) -> (r: Option<Topic>)
    ensures
        r == event_topic(class, keycode, flags),
{
    match class {
        EventClass::KeyDown => Some(Topic::KeyPressed),
        EventClass::KeyUp => Some(Topic::KeyReleased),
        EventClass::FlagsChanged => match classify_modifier(keycode, flags) {
            Some(Transition::Pressed) => Some(Topic::KeyPressed),
            Some(Transition::Released) => Some(Topic::KeyReleased),
            None => None,
        },
    }
}

/// Decides what a captured event publishes: the topic and a payload with the
/// label, no modifiers and the capture time, or `None` when the event is
/// dropped.
pub fn key_event_for(
    class: EventClass,
    keycode: i64,
    flags: u64,
    os_label: Option<String>,
    timestamp: u64,
) -> (r: Option<(Topic, KeyEventPayload)>)
    ensures
        r is Some == emitted(class, keycode, flags, opt_view(os_label)) is Some,
        r matches Some((t, p)) ==> {
            &&& emitted(class, keycode, flags, opt_view(os_label)) == Some((t, p.key@))
            &&& p.modifiers@.len() == 0
            &&& p.timestamp == timestamp
        },
{
    let label = label_for(class, keycode, os_label);
    let topic = topic_for(class, keycode, flags);
    match (topic, label) {
        (Some(t), Some(key)) => Some((t, KeyEventPayload { key, modifiers: Vec::new(), timestamp })),
        _ => None,
    }
}

/// A special key takes its label from the fixed table alone, whatever text
/// the OS composed, and the table has a label for every special key.
pub proof fn lemma_special_keys_use_table(class: EventClass, keycode: i64, os: Option<Seq<char>>)
    requires
        special_key(keycode),
    ensures
        table_label(keycode) is Some,
        resolved_label(class, keycode, os) == table_label(keycode),
{
}

/// When the OS-composed text of a key that is not special is empty or starts
/// with a control character, the key's label is the fixed table's, unchanged.
pub proof fn lemma_unprintable_text_falls_back(class: EventClass, keycode: i64, text: Seq<char>)
    requires
        text.len() == 0 || is_control(text[0]),
    ensures
        text_label(text) is None,
        resolved_label(class, keycode, text_label(text)) == table_label(keycode),
{
}

/// A flags-changed event of either physical key of a tracked modifier is
/// published on the pressed topic when the modifier's bit is set in the mask
/// and on the released topic when it is clear, with the table's label.
pub proof fn lemma_flags_changed_publishes(keycode: i64, flags: u64, os: Option<Seq<char>>)
    requires
        modifier_of(keycode) is Some,
    ensures
        table_label(keycode) is Some,
        flags & flag_of(modifier_of(keycode)->0) != 0 ==> emitted(
            EventClass::FlagsChanged,
            keycode,
            flags,
            os,
        ) == Some((Topic::KeyPressed, table_label(keycode)->0)),
        flags & flag_of(modifier_of(keycode)->0) == 0 ==> emitted(
            EventClass::FlagsChanged,
            keycode,
            flags,
            os,
        ) == Some((Topic::KeyReleased, table_label(keycode)->0)),
{
}

/// A key that is in neither the label table nor the modifier map publishes
/// nothing, unless the OS composed printable text for it on key-down or
/// key-up.
pub proof fn lemma_unmapped_key_publishes_nothing(
    class: EventClass,
    keycode: i64,
    flags: u64,
    os: Option<Seq<char>>,
)
    requires
        table_label(keycode) is None,
        modifier_flag(keycode) is None,
        class == EventClass::FlagsChanged || os is None,
    ensures
        emitted(class, keycode, flags, os) is None,
{
}

} // verus!
