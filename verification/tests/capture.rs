use interops::attr::{KeyCode, Modifiers, ValidKeyCodes};
use interops::capture::{capture_from_events, Event, KeyCapture, KeyEvent};

fn none() -> Modifiers {
    Modifiers { shift: false, control: false, alt: false }
}

fn control() -> Modifiers {
    Modifiers { shift: false, control: true, alt: false }
}

fn shift() -> Modifiers {
    Modifiers { shift: true, control: false, alt: false }
}

fn key(code: KeyCode, modifiers: Modifiers) -> Event {
    Event::Key(KeyEvent { code, modifiers })
}

#[test]
fn classify_down() {
    assert_eq!(ValidKeyCodes::from_val(ValidKeyCodes::KeyCode(KeyCode::Down)), "DOWN");
}

#[test]
fn classify_enter_and_right() {
    assert_eq!(ValidKeyCodes::from_val(ValidKeyCodes::KeyCode(KeyCode::Enter)), "ENTER");
    assert_eq!(ValidKeyCodes::from_val(ValidKeyCodes::KeyCode(KeyCode::Right)), "ENTER");
}

#[test]
fn classify_esc_and_left() {
    assert_eq!(ValidKeyCodes::from_val(ValidKeyCodes::KeyCode(KeyCode::Esc)), "ESC");
    assert_eq!(ValidKeyCodes::from_val(ValidKeyCodes::KeyCode(KeyCode::Left)), "ESC");
}

#[test]
fn classify_up() {
    assert_eq!(ValidKeyCodes::from_val(ValidKeyCodes::KeyCode(KeyCode::Up)), "UP");
}

#[test]
fn classify_printable_char() {
    assert_eq!(ValidKeyCodes::from_val(ValidKeyCodes::KeyCode(KeyCode::Char('q'))), "q");
    assert_eq!(ValidKeyCodes::from_val(ValidKeyCodes::KeyCode(KeyCode::Char('Z'))), "Z");
}

#[test]
fn classify_other_keys_unknown() {
    assert_eq!(ValidKeyCodes::from_val(ValidKeyCodes::KeyCode(KeyCode::Other)), "UNKNOWN");
    assert_eq!(ValidKeyCodes::from_val(ValidKeyCodes::KeyCode(KeyCode::Null)), "UNKNOWN");
}

#[test]
fn classify_control_only_modifier() {
    assert_eq!(ValidKeyCodes::from_val(ValidKeyCodes::KeyModifiers(control())), "CONTROL");
}

#[test]
fn classify_other_modifier_sets_unknown() {
    assert_eq!(ValidKeyCodes::from_val(ValidKeyCodes::KeyModifiers(shift())), "UNKNOWN");
    let control_shift = Modifiers { shift: true, control: true, alt: false };
    assert_eq!(ValidKeyCodes::from_val(ValidKeyCodes::KeyModifiers(control_shift)), "UNKNOWN");
    let alt_only = Modifiers { shift: false, control: false, alt: true };
    assert_eq!(ValidKeyCodes::from_val(ValidKeyCodes::KeyModifiers(alt_only)), "UNKNOWN");
    assert_eq!(ValidKeyCodes::from_val(ValidKeyCodes::KeyModifiers(none())), "UNKNOWN");
}

#[test]
fn fresh_capture_is_empty_and_incomplete() {
    let data = KeyCapture::new();
    assert_eq!(data.modifier, "");
    assert_eq!(data.keycode, "");
    assert!(!data.is_complete());
}

#[test]
fn down_with_no_modifier_keeps_prior_modifier() {
    let mut data = KeyCapture::new();
    data.process_event(&key(KeyCode::Null, control()));
    data.process_event(&key(KeyCode::Down, none()));
    assert_eq!(data.keycode, "DOWN");
    assert_eq!(data.modifier, "CONTROL");

    let mut fresh = KeyCapture::new();
    fresh.process_event(&key(KeyCode::Down, none()));
    assert_eq!(fresh.keycode, "DOWN");
    assert_eq!(fresh.modifier, "");
}

#[test]
fn control_with_any_key_sets_control() {
    let mut data = KeyCapture::new();
    data.process_event(&key(KeyCode::Char('c'), control()));
    assert_eq!(data.modifier, "CONTROL");
    let mut other = KeyCapture::new();
    other.process_event(&key(KeyCode::Other, control()));
    assert_eq!(other.modifier, "CONTROL");
}

#[test]
fn non_control_modifier_sets_unknown() {
    let mut data = KeyCapture::new();
    data.process_event(&key(KeyCode::Char('x'), shift()));
    assert_eq!(data.modifier, "UNKNOWN");
}

#[test]
fn null_key_code_keeps_prior_keycode() {
    let mut data = KeyCapture::new();
    data.process_event(&key(KeyCode::Up, none()));
    data.process_event(&key(KeyCode::Null, control()));
    assert_eq!(data.keycode, "UP");
    assert_eq!(data.modifier, "CONTROL");
}

#[test]
fn plain_char_alone_never_completes() {
    let events = vec![key(KeyCode::Char('q'), none())];
    assert!(capture_from_events(&events).is_none());

    let many = vec![
        key(KeyCode::Char('q'), none()),
        key(KeyCode::Up, none()),
        key(KeyCode::Enter, none()),
    ];
    assert!(capture_from_events(&many).is_none());
}

#[test]
fn modifier_then_char_accumulates() {
    let events = vec![key(KeyCode::Null, shift()), key(KeyCode::Char('q'), none())];
    let capture = capture_from_events(&events).unwrap();
    assert_eq!(capture.modifier, "UNKNOWN");
    assert_eq!(capture.keycode, "q");
}

#[test]
fn single_event_supplies_both_fields() {
    let events = vec![key(KeyCode::Char('a'), control())];
    let capture = capture_from_events(&events).unwrap();
    assert_eq!(capture.modifier, "CONTROL");
    assert_eq!(capture.keycode, "a");
}

#[test]
fn fields_accumulate_across_two_events() {
    let events = vec![key(KeyCode::Up, none()), key(KeyCode::Null, control())];
    let capture = capture_from_events(&events).unwrap();
    assert_eq!(capture.modifier, "CONTROL");
    assert_eq!(capture.keycode, "UP");
}

#[test]
fn non_key_event_is_ignored() {
    let events = vec![Event::Other, key(KeyCode::Char('a'), control())];
    let capture = capture_from_events(&events).unwrap();
    assert_eq!(capture.modifier, "CONTROL");
    assert_eq!(capture.keycode, "a");

    assert!(capture_from_events(&vec![Event::Other]).is_none());
}

#[test]
fn capture_stops_at_first_completing_event() {
    let events = vec![
        key(KeyCode::Char('a'), control()),
        key(KeyCode::Char('b'), shift()),
    ];
    let capture = capture_from_events(&events).unwrap();
    assert_eq!(capture.modifier, "CONTROL");
    assert_eq!(capture.keycode, "a");
}

#[test]
fn empty_queue_yields_no_capture() {
    let events: Vec<Event> = vec![];
    assert!(capture_from_events(&events).is_none());
}

#[test]
fn modifier_constructors() {
    assert!(none().is_empty());
    assert!(!control().is_empty());
    assert!(control().is_control_only());
    assert!(!shift().is_control_only());
    assert_eq!(Modifiers::none(), none());
    assert_eq!(Modifiers::control(), control());
}
