use quickwhisper::hotkey::{classify_key_event, parse_key, HotkeyError, HotkeyEvent};

#[test]
fn parse_key_maps_friendly_names_to_codes() {
    assert_eq!(parse_key("F12").unwrap(), 88);
    assert_eq!(parse_key("f12").unwrap(), 88);
    assert_eq!(parse_key("KEY_F9").unwrap(), 67);
    assert_eq!(parse_key("key_f9").unwrap(), 67);
    assert_eq!(parse_key("pause").unwrap(), 119);
    assert_eq!(parse_key("Esc").unwrap(), 1);
}

#[test]
fn parse_key_refuses_unknown_names() {
    match parse_key("F99") {
        Err(HotkeyError::UnknownKey { name }) => assert_eq!(name, "F99"),
        other => panic!("unexpected {other:?}"),
    }
    assert!(parse_key("").is_err());
    assert!(parse_key("KEY_").is_err());
}

#[test]
fn only_edges_of_the_watched_key_count() {
    assert_eq!(classify_key_event(true, 88, 1, 88), Some(HotkeyEvent::Pressed));
    assert_eq!(classify_key_event(true, 88, 0, 88), Some(HotkeyEvent::Released));
    // kernel auto-repeat
    assert_eq!(classify_key_event(true, 88, 2, 88), None);
    // another key
    assert_eq!(classify_key_event(true, 67, 1, 88), None);
    // not a key event
    assert_eq!(classify_key_event(false, 88, 1, 88), None);
}
