use crately::actors::keyboard_handler::{
    key_event_to_message, KeyInput, KeyPressed, KeyboardHandler, StartDecision,
};

#[test]
fn test_keyboard_handler_default() {
    let handler = KeyboardHandler::default();
    assert!(!handler.enabled());
    assert!(!handler.initialized());
    assert!(!handler.listening());
}

#[test]
fn test_keyboard_handler_non_tty_environment() {
    let mut handler = KeyboardHandler::new(false);
    assert_eq!(
        handler.creation_warning().unwrap(),
        "Keyboard input disabled (non-TTY environment). Server will run without interactive commands."
    );
    assert!(!handler.uses_raw_mode());
    assert_eq!(handler.on_started(), StartDecision::Disabled);
    assert!(!handler.on_stop());
}

#[test]
fn tty_handler_listens_once() {
    let mut handler = KeyboardHandler::new(true);
    assert!(handler.creation_warning().is_none());
    assert_eq!(handler.on_started(), StartDecision::Listen);
    assert_eq!(handler.on_started(), StartDecision::AlreadyStarted);
    assert!(handler.on_stop());
    assert!(!handler.listening());
}

#[test]
fn only_presses_are_forwarded() {
    assert_eq!(
        key_event_to_message(true, KeyInput::Char('r'), 0),
        Some(KeyPressed { key: KeyInput::Char('r'), modifiers: 0 })
    );
    assert_eq!(key_event_to_message(false, KeyInput::Char('r'), 0), None);
}
