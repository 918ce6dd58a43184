use asky::key::is_abort_key;
use asky::prompts::text::line_will_handle_key;
use asky::{Confirm, KeyCode, KeyEvent, Message, MultiSelect, Number, Password, Select, Text, Toggle};

fn keys(chars: &str, codes: Vec<KeyCode>) -> KeyEvent {
    KeyEvent { chars: chars.chars().collect(), codes }
}

#[test]
fn key_event_is_empty() {
    assert!(keys("", vec![]).is_empty());
    assert!(!keys("a", vec![]).is_empty());
    assert!(!keys("", vec![KeyCode::Enter]).is_empty());
}

#[test]
fn key_event_has_code() {
    let k = keys("", vec![KeyCode::Left, KeyCode::Enter]);
    assert!(k.has_code(KeyCode::Enter));
    assert!(!k.has_code(KeyCode::Esc));
    assert!(is_abort_key(&keys("", vec![KeyCode::Up, KeyCode::Esc])));
    assert!(!is_abort_key(&k));
}

#[test]
fn text_batch_types_then_edits() {
    let mut prompt = Text::new("");
    let submit = prompt.handle_key_event(&keys("abc\u{8}", vec![KeyCode::Left, KeyCode::Backspace]));
    assert!(!submit);
    assert_eq!(prompt.input.value, "ac");
    assert_eq!(prompt.input.col, 1);
}

#[test]
fn text_batch_submits_on_enter() {
    let mut prompt = Text::new("");
    assert!(prompt.handle_key_event(&keys("foo", vec![KeyCode::Enter])));
    assert_eq!(prompt.get_value(), "foo");
}

#[test]
fn text_batch_with_validator_sees_value_at_enter() {
    let mut prompt = Text::new("");
    let validator = |s: &str| if s.len() > 2 { Ok(()) } else { Err("too short") };
    // Enter comes before the backspace: the validator judges "abc"
    let submit = prompt.handle_key_event_with(&keys("abc", vec![KeyCode::Enter, KeyCode::Backspace]), &validator);
    assert!(submit);
    assert_eq!(prompt.input.value, "ab");
    assert_eq!(prompt.validator_result, Ok(()));

    // now the value is "ab" at Enter
    let submit = prompt.handle_key_event_with(&keys("", vec![KeyCode::Enter]), &validator);
    assert!(!submit);
    assert_eq!(prompt.validator_result, Err("too short"));

    // no Enter: the verdict stays
    let submit = prompt.handle_key_event_with(&keys("c", vec![]), &validator);
    assert!(!submit);
    assert_eq!(prompt.validator_result, Err("too short"));
}

#[test]
fn text_batch_with_validator_judges_default() {
    let mut prompt = Text::new("");
    prompt.default("bar");
    let validator = |s: &str| if s == "bar" { Ok(()) } else { Err("not bar") };
    assert!(prompt.handle_key_event_with(&keys("", vec![KeyCode::Enter]), &validator));
}

#[test]
fn line_prompts_will_handle() {
    assert!(line_will_handle_key(&keys("a", vec![])));
    assert!(!line_will_handle_key(&keys("\u{1b}", vec![KeyCode::Up])));
    assert!(line_will_handle_key(&keys("", vec![KeyCode::Up, KeyCode::Delete])));
    let prompt = Text::new("");
    assert!(prompt.will_handle_key_event(&keys("", vec![KeyCode::Enter])));
    assert!(!prompt.will_handle_key_event(&keys("", vec![KeyCode::Tab])));
}

#[test]
fn password_batch() {
    let mut prompt = Password::new("");
    assert!(!prompt.handle_key_event(&keys("secret", vec![KeyCode::Left, KeyCode::Delete])));
    assert_eq!(prompt.input.value, "secre");
    assert!(prompt.handle_key_event(&keys("", vec![KeyCode::Enter])));
    let validator = |s: &str| if s.is_empty() { Err("empty") } else { Ok(()) };
    assert!(prompt.handle_key_event_with(&keys("", vec![KeyCode::Enter]), &validator));
    assert!(prompt.will_handle_key_event(&keys("x", vec![])));
}

#[test]
fn number_batch_filters_characters() {
    let mut prompt: Number<u8> = Number::new("");
    assert!(!prompt.handle_key_event(&keys("-1a2.", vec![])));
    assert_eq!(prompt.input.value, "12");

    let mut prompt: Number<i32> = Number::new("");
    assert!(prompt.handle_key_event(&keys("-1-2", vec![KeyCode::Enter])));
    assert_eq!(prompt.input.value, "-12");

    let validator = |s: &str| if s == "-12" { Ok(()) } else { Err("no") };
    assert!(prompt.handle_key_event_with(&keys("", vec![KeyCode::Enter]), &validator));
    assert!(!prompt.handle_key_event_with(&keys("3", vec![KeyCode::Enter]), &validator));
    assert_eq!(prompt.validator_result, Err("no"));
}

#[test]
fn confirm_batch() {
    let mut prompt = Confirm::new("");
    assert!(!prompt.handle_key_event(&keys("", vec![KeyCode::Right, KeyCode::Tab])));
    assert!(prompt.active);
    assert!(prompt.handle_key_event(&keys("", vec![KeyCode::Char('n'), KeyCode::Right])));
    assert!(prompt.active);
    assert!(prompt.will_handle_key_event(&keys("", vec![KeyCode::Tab, KeyCode::Char('Y')])));
    assert!(!prompt.will_handle_key_event(&keys("", vec![KeyCode::Tab])));
    assert!(!prompt.will_handle_key(&KeyCode::Char('x')));
}

#[test]
fn toggle_batch() {
    let mut prompt = Toggle::new("", ["foo", "bar"]);
    assert!(!prompt.handle_key_event(&keys("", vec![KeyCode::Char('l')])));
    assert!(prompt.active);
    assert!(prompt.handle_key_event(&keys("", vec![KeyCode::Enter, KeyCode::Left])));
    assert!(!prompt.active);
}

#[test]
fn message_batch() {
    let mut prompt = Message::new("hi");
    assert!(!prompt.handle_key_event(&keys("a", vec![])));
    assert!(prompt.handle_key_event(&keys("", vec![KeyCode::Tab])));
    assert!(prompt.will_handle_key_event(&keys("", vec![KeyCode::Tab])));
    assert!(!prompt.will_handle_key_event(&keys("a", vec![])));
}

#[test]
fn select_batch() {
    let mut prompt = Select::new("", vec!["foo", "bar", "baz"]);
    assert!(!prompt.handle_key_event(&keys("", vec![KeyCode::Down, KeyCode::Down])));
    assert_eq!(prompt.input.focused, 2);
    assert!(prompt.handle_key_event(&keys("", vec![KeyCode::Enter, KeyCode::Up])));
    assert_eq!(prompt.input.focused, 1);
}

#[test]
fn multi_select_batch() {
    let mut prompt = MultiSelect::new("", vec!["a", "b", "c"]);
    prompt.min(2);
    let submit = prompt.handle_key_event(&keys(
        "",
        vec![KeyCode::Char(' '), KeyCode::Enter, KeyCode::Down, KeyCode::Char(' ')],
    ));
    assert!(!submit);
    assert!(prompt.options[0].active);
    assert!(prompt.options[1].active);
    assert_eq!(prompt.selected_count, 2);
    assert!(prompt.handle_key_event(&keys("", vec![KeyCode::Backspace])));
}

#[test]
fn batches_compose() {
    let first = vec![KeyCode::Right, KeyCode::Char('n')];
    let second = vec![KeyCode::Left, KeyCode::Right];
    let mut a = Confirm::new("");
    let s1 = a.handle_key_event(&keys("", first.clone()));
    let s2 = a.handle_key_event(&keys("", second.clone()));
    let mut b = Confirm::new("");
    let both: Vec<KeyCode> = first.into_iter().chain(second).collect();
    let s = b.handle_key_event(&keys("", both));
    assert_eq!(a.active, b.active);
    assert_eq!(s1 || s2, s);

    let mut t = Text::new("");
    t.handle_key_event(&keys("ab", vec![KeyCode::Left]));
    t.handle_key_event(&keys("", vec![KeyCode::Delete]));
    let mut u = Text::new("");
    u.handle_key_event(&keys("ab", vec![KeyCode::Left, KeyCode::Delete]));
    assert_eq!(t.input, u.input);
    assert_eq!(t.input.value, "a");
}

#[test]
fn typed_characters_act_as_keys() {
    let mut t = Text::new("");
    t.handle_key_event(&keys("x", vec![]));
    let mut u = Text::new("");
    u.handle_key(&KeyCode::Char('x'));
    assert_eq!(t.input, u.input);
}

#[test]
fn key_event_from_received_input() {
    let k = KeyEvent::new(
        &vec![String::from("ab"), String::from(""), String::from("é")],
        &vec![(KeyCode::Enter, true), (KeyCode::Up, false), (KeyCode::Left, true)],
    );
    assert_eq!(k.chars, vec!['a', 'b', 'é']);
    assert_eq!(k.codes, vec![KeyCode::Enter, KeyCode::Left]);
}

#[test]
fn text_batch_runs_the_stored_validator_at_enter() {
    let mut prompt = Text::new("").validate(|s| if s.len() > 2 { Ok(()) } else { Err("too short") });
    // Enter comes before the backspace: the validator judges "abc"
    assert!(prompt.handle_key_event(&keys("abc", vec![KeyCode::Enter, KeyCode::Backspace])));
    assert_eq!(prompt.input.value, "ab");
    assert!(!prompt.handle_key_event(&keys("", vec![KeyCode::Enter])));
    assert_eq!(prompt.validator_result, Err("too short"));
    // no Enter: the verdict stays
    assert!(!prompt.handle_key_event(&keys("c", vec![])));
    assert_eq!(prompt.validator_result, Err("too short"));
}
