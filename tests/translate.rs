use floaty::events::{capture_event_mask, key_event_for, label_for, topic_for, wants_os_text, EventClass, Topic};
use floaty::keycodes::{is_special_key, keycode_to_string};
use floaty::modifiers::{
    classify_modifier, modifier_for_keycode, modifier_keycode_to_flag, Modifier, Transition, FLAG_ALTERNATE,
    FLAG_CAPS_LOCK, FLAG_COMMAND, FLAG_CONTROL, FLAG_SHIFT,
};
use floaty::os_text::{is_control_char, printable_char, unicode_label};

const SPECIAL: [(i64, &str); 33] = [
    (0x24, "↵"),
    (0x30, "Tab"),
    (0x31, "Space"),
    (0x33, "⌫"),
    (0x35, "Esc"),
    (0x36, "⌘"),
    (0x37, "⌘"),
    (0x38, "Shift"),
    (0x3C, "Shift"),
    (0x39, "Caps"),
    (0x3A, "Alt"),
    (0x3D, "Alt"),
    (0x3B, "Ctrl"),
    (0x3E, "Ctrl"),
    (0x7A, "F1"),
    (0x78, "F2"),
    (0x63, "F3"),
    (0x76, "F4"),
    (0x60, "F5"),
    (0x61, "F6"),
    (0x62, "F7"),
    (0x64, "F8"),
    (0x65, "F9"),
    (0x6D, "F10"),
    (0x67, "F11"),
    (0x6F, "F12"),
    (0x73, "Home"),
    (0x74, "PgUp"),
    (0x75, "Del"),
    (0x77, "End"),
    (0x79, "PgDn"),
    (0x7B, "←"),
    (0x7E, "↑"),
];

fn os(text: &str) -> Option<String> {
    let units: Vec<u16> = text.encode_utf16().collect();
    unicode_label(&units)
}

#[test]
fn special_keys_have_their_configured_labels() {
    for (code, label) in SPECIAL {
        assert!(is_special_key(code), "{code:#x}");
        assert_eq!(keycode_to_string(code), Some(label));
        for class in [EventClass::KeyDown, EventClass::KeyUp, EventClass::FlagsChanged] {
            assert_eq!(label_for(class, code, Some("X".to_string())), Some(label.to_string()));
        }
    }
    assert_eq!(keycode_to_string(0x7C), Some("→"));
    assert_eq!(keycode_to_string(0x7D), Some("↓"));
}

#[test]
fn printable_keys_in_the_table() {
    assert_eq!(keycode_to_string(0x00), Some("A"));
    assert_eq!(keycode_to_string(0x13), Some("2"));
    assert_eq!(keycode_to_string(0x2A), Some("\\"));
    assert_eq!(keycode_to_string(0x32), Some("`"));
    assert!(!is_special_key(0x00));
    assert!(!is_special_key(0x13));
    assert!(!is_special_key(0x66));
}

#[test]
fn codes_outside_the_table_have_no_label() {
    for code in [0x0A, 0x34, 0x3F, 0x41, 0x66, 0x7F, -1, 1000] {
        assert_eq!(keycode_to_string(code), None, "{code:#x}");
    }
}

#[test]
fn control_characters() {
    assert!(is_control_char('\u{0}'));
    assert!(is_control_char('\r'));
    assert!(is_control_char('\u{1b}'));
    assert!(is_control_char('\u{7f}'));
    assert!(is_control_char('\u{9f}'));
    assert!(!is_control_char(' '));
    assert!(!is_control_char('@'));
    assert!(!is_control_char('\u{a0}'));
    for c in ['\u{0}', '\u{1f}', ' ', '~', '\u{7f}', '\u{85}', '\u{a0}', 'é', '↵'] {
        assert_eq!(is_control_char(c), c.is_control());
    }
}

#[test]
fn printable_first_character() {
    assert_eq!(printable_char(""), None);
    assert_eq!(printable_char("\u{8}x"), None);
    assert_eq!(printable_char("ab"), Some('a'));
}

#[test]
fn os_text_is_upper_cased() {
    assert_eq!(os("a"), Some("A".to_string()));
    assert_eq!(os("é"), Some("É".to_string()));
    assert_eq!(os("ß"), Some("SS".to_string()));
    assert_eq!(os("@"), Some("@".to_string()));
    assert_eq!(os("qz"), Some("Q".to_string()));
}

#[test]
fn os_text_that_is_empty_or_control_gives_nothing() {
    assert_eq!(unicode_label(&[]), None);
    assert_eq!(os("\r"), None);
    assert_eq!(os("\u{1b}"), None);
    assert_eq!(os("\u{7f}"), None);
}

#[test]
fn invalid_utf16_is_replaced() {
    assert_eq!(unicode_label(&[0xD800]), Some("\u{FFFD}".to_string()));
}

#[test]
fn unprintable_os_text_falls_back_to_the_table() {
    for text in ["", "\r", "\t", "\u{10}"] {
        let label = os(text);
        assert_eq!(label, None);
        assert_eq!(label_for(EventClass::KeyDown, 0x00, label.clone()), Some("A".to_string()));
        assert_eq!(label_for(EventClass::KeyUp, 0x2A, label), Some("\\".to_string()));
    }
}

#[test]
fn os_text_is_consulted_only_for_plain_keys() {
    assert!(wants_os_text(EventClass::KeyDown, 0x00));
    assert!(wants_os_text(EventClass::KeyUp, 0x13));
    assert!(wants_os_text(EventClass::KeyDown, 0x41));
    assert!(!wants_os_text(EventClass::FlagsChanged, 0x00));
    assert!(!wants_os_text(EventClass::KeyDown, 0x35));
    assert!(!wants_os_text(EventClass::KeyDown, 0x38));
}

#[test]
fn modifier_bits() {
    assert_eq!(Modifier::Shift.flag(), 0x0002_0000);
    assert_eq!(Modifier::Control.flag(), 0x0004_0000);
    assert_eq!(Modifier::Alt.flag(), 0x0008_0000);
    assert_eq!(Modifier::Command.flag(), 0x0010_0000);
    assert_eq!(Modifier::CapsLock.flag(), 0x0001_0000);
    assert_eq!(modifier_for_keycode(0x37), Some(Modifier::Command));
    assert_eq!(modifier_for_keycode(0x39), Some(Modifier::CapsLock));
    assert_eq!(modifier_for_keycode(0x00), None);
    assert_eq!(modifier_keycode_to_flag(0x3C), Some(FLAG_SHIFT));
    assert_eq!(modifier_keycode_to_flag(0x35), None);
}

#[test]
fn modifiers_classify_by_their_bit() {
    let pairs: [(i64, i64, u64); 5] = [
        (0x38, 0x3C, FLAG_SHIFT),
        (0x3B, 0x3E, FLAG_CONTROL),
        (0x3A, 0x3D, FLAG_ALTERNATE),
        (0x36, 0x37, FLAG_COMMAND),
        (0x39, 0x39, FLAG_CAPS_LOCK),
    ];
    let all = FLAG_SHIFT | FLAG_CONTROL | FLAG_ALTERNATE | FLAG_COMMAND | FLAG_CAPS_LOCK;
    for (left, right, bit) in pairs {
        for flags in [bit, bit | 0x100, all, 0, all & !bit, 0x100] {
            let expected = if flags & bit != 0 { Transition::Pressed } else { Transition::Released };
            assert_eq!(classify_modifier(left, flags), Some(expected));
            assert_eq!(classify_modifier(right, flags), Some(expected));
        }
    }
    assert_eq!(classify_modifier(0x00, all), None);
}

#[test]
fn key_down_of_a_gives_a_pressed_event() {
    let (topic, payload) = key_event_for(EventClass::KeyDown, 0x00, 0, None, 1234).unwrap();
    assert_eq!(topic, Topic::KeyPressed);
    assert_eq!(topic.name(), "app://key-pressed");
    assert_eq!(payload.key, "A");
    assert!(payload.modifiers.is_empty());
    assert_eq!(payload.timestamp, 1234);
    let (topic, payload) = key_event_for(EventClass::KeyDown, 0x00, 0, os("a"), 99).unwrap();
    assert_eq!(topic, Topic::KeyPressed);
    assert_eq!(payload.key, "A");
    assert_eq!(payload.timestamp, 99);
}

#[test]
fn key_up_gives_a_released_event() {
    let (topic, payload) = key_event_for(EventClass::KeyUp, 0x35, 0, None, 5).unwrap();
    assert_eq!(topic, Topic::KeyReleased);
    assert_eq!(topic.name(), "app://key-released");
    assert_eq!(payload.key, "Esc");
}

#[test]
fn left_shift_flags_changed_pressed_and_released() {
    let (topic, payload) = key_event_for(EventClass::FlagsChanged, 0x38, FLAG_SHIFT, None, 7).unwrap();
    assert_eq!(topic, Topic::KeyPressed);
    assert_eq!(payload.key, "Shift");
    let (topic, payload) = key_event_for(EventClass::FlagsChanged, 0x38, 0, None, 8).unwrap();
    assert_eq!(topic, Topic::KeyReleased);
    assert_eq!(payload.key, "Shift");
    let (topic, payload) = key_event_for(EventClass::FlagsChanged, 0x3C, FLAG_SHIFT, None, 9).unwrap();
    assert_eq!(topic, Topic::KeyPressed);
    assert_eq!(payload.key, "Shift");
}

#[test]
fn shifted_digit_uses_the_os_text() {
    let label = os("@");
    let (topic, payload) = key_event_for(EventClass::KeyDown, 0x13, FLAG_SHIFT, label, 3).unwrap();
    assert_eq!(topic, Topic::KeyPressed);
    assert_eq!(payload.key, "@");
    assert_ne!(payload.key, "2");
}

#[test]
fn unmapped_keys_publish_nothing() {
    for code in [0x0A, 0x34, 0x41, 0x7F, -3] {
        for class in [EventClass::KeyDown, EventClass::KeyUp, EventClass::FlagsChanged] {
            assert!(key_event_for(class, code, 0x001F_0000, None, 1).is_none());
        }
        assert!(key_event_for(EventClass::FlagsChanged, code, 0, os("x"), 1).is_none());
    }
}

#[test]
fn flags_changed_of_a_plain_key_publishes_nothing() {
    assert!(key_event_for(EventClass::FlagsChanged, 0x00, FLAG_SHIFT, None, 1).is_none());
    assert_eq!(topic_for(EventClass::FlagsChanged, 0x35, FLAG_SHIFT), None);
}

#[test]
fn raw_event_classes_and_mask() {
    assert_eq!(EventClass::from_raw(10), Some(EventClass::KeyDown));
    assert_eq!(EventClass::from_raw(11), Some(EventClass::KeyUp));
    assert_eq!(EventClass::from_raw(12), Some(EventClass::FlagsChanged));
    assert_eq!(EventClass::from_raw(0), None);
    assert_eq!(EventClass::from_raw(0xFFFF_FFFE), None);
    assert_eq!(capture_event_mask(), (1 << 10) | (1 << 11) | (1 << 12));
}
