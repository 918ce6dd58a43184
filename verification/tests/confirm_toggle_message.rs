use asky::{Confirm, KeyCode, Message, Toggle};

#[test]
fn confirm_set_initial_value() {
    let mut prompt = Confirm::new("");

    prompt.initial(false);
    assert!(!prompt.active);
    prompt.initial(true);
    assert!(prompt.active);
}

#[test]
fn confirm_update_and_submit() {
    let events = [('y', true), ('Y', true), ('n', false), ('N', false)];

    for (char, expected) in events {
        let mut prompt = Confirm::new("");
        let simulated_key = KeyCode::Char(char);

        prompt.initial(!expected);
        let submit = prompt.handle_key(&simulated_key);

        assert_eq!(prompt.active, expected);
        assert!(submit);
    }
}

#[test]
fn confirm_sumit_focused() {
    let events = [KeyCode::Enter, KeyCode::Backspace];

    for event in events {
        let mut prompt = Confirm::new("");
        let submit = prompt.handle_key(&event);
        assert!(!prompt.active);
        assert!(submit);
    }
}

#[test]
fn confirm_update_focused() {
    let events = [
        (KeyCode::Left, true, false),
        (KeyCode::Char('h'), true, false),
        (KeyCode::Char('H'), true, false),
        (KeyCode::Right, false, true),
        (KeyCode::Char('l'), false, true),
        (KeyCode::Char('L'), false, true),
    ];

    for (key, initial, expected) in events {
        let mut prompt = Confirm::new("");
        prompt.initial(initial);
        let submit = prompt.handle_key(&key);

        assert_eq!(prompt.active, expected);
        assert!(!submit);
    }
}

#[test]
fn confirm_other_keys_change_nothing() {
    let mut prompt = Confirm::new("");
    prompt.initial(true);
    assert!(!prompt.handle_key(&KeyCode::Char('x')));
    assert!(!prompt.handle_key(&KeyCode::Up));
    assert!(prompt.active);
}

#[test]
fn toggle_set_initial_value() {
    let mut prompt = Toggle::new("", ["foo", "bar"]);

    prompt.initial(false);
    assert_eq!(prompt.get_value(), "foo");
    prompt.initial(true);
    assert_eq!(prompt.get_value(), "bar");
}

#[test]
fn toggle_sumit_focused() {
    let events = [KeyCode::Enter, KeyCode::Backspace];

    for event in events {
        let mut prompt = Toggle::new("", ["foo", "bar"]);
        let submit = prompt.handle_key(&event);
        assert_eq!(prompt.get_value(), "foo");
        assert!(submit);
    }
}

#[test]
fn toggle_update_focused() {
    let events = [
        (KeyCode::Left, true, "foo"),
        (KeyCode::Char('h'), true, "foo"),
        (KeyCode::Char('H'), true, "foo"),
        (KeyCode::Right, false, "bar"),
        (KeyCode::Char('l'), false, "bar"),
        (KeyCode::Char('L'), false, "bar"),
    ];

    for (key, initial, expected) in events {
        let mut prompt = Toggle::new("", ["foo", "bar"]);
        prompt.initial(initial);
        let submit = prompt.handle_key(&key);

        assert_eq!(prompt.get_value(), expected);
        assert!(!submit);
    }
}

#[test]
fn message_update_and_submit() {
    let events = [('y', true), ('Y', true), ('n', false), ('N', false)];

    for (char, _expected) in events {
        let mut prompt = Message::new("");
        let submit = prompt.handle_key(&KeyCode::Char(char));
        assert!(submit);
    }
}

#[test]
fn submit_focused() {
    let events = [KeyCode::Enter, KeyCode::Backspace];

    for event in events {
        let mut prompt = Message::new("");
        let submit = prompt.handle_key(&event);
        assert!(submit);
    }
}

#[test]
fn message_update_focused() {
    let events = [
        (KeyCode::Left, true, false),
        (KeyCode::Char('h'), true, false),
        (KeyCode::Char('H'), true, false),
        (KeyCode::Right, false, true),
        (KeyCode::Char('l'), false, true),
        (KeyCode::Char('L'), false, true),
    ];

    for (key, _initial, _expected) in events {
        let mut prompt = Message::new("");
        let submit = prompt.handle_key(&key);
        assert!(submit);
    }
}

#[test]
fn message_constructors() {
    let m = Message::new("hello");
    assert_eq!(m.message, "hello");
    assert!(!m.wait_for_key);
    assert!(m.action.is_none());

    let w = Message::wait("hold on");
    assert!(w.wait_for_key);
    assert!(w.action.is_none());

    let c = Message::call_to_action("done", "Press any key");
    assert!(c.wait_for_key);
    assert_eq!(c.action.as_deref(), Some("Press any key"));
}

#[test]
fn io_errors_convert() {
    let e: asky::Error = std::io::Error::new(std::io::ErrorKind::Other, "closed").into();
    assert!(matches!(e, asky::Error::Io(_)));
}
