use asky::utils::num::Num;
use asky::{KeyCode, LineInput, NumLike, Number, Password, Text, Valuable};

#[test]
fn text_set_placeholder() {
    let mut text = Text::new("");
    text.placeholder("foo");

    assert_eq!(text.placeholder, Some("foo"));
}

#[test]
fn text_set_default_value() {
    let mut text = Text::new("");
    text.default("foo");

    assert_eq!(text.default_value, Some("foo"));
}

#[test]
fn text_set_initial_value() {
    let mut prompt = Text::new("");

    assert_eq!(prompt.input, LineInput::new());

    prompt.initial("foo");

    assert_eq!(
        prompt.input,
        LineInput {
            value: String::from("foo"),
            col: 3,
        }
    );
}

#[test]
fn update_value() {
    let mut prompt = Text::new("");

    // simulate typing
    let text = "foo";

    for char in text.chars() {
        prompt.handle_key(&KeyCode::Char(char));
    }

    assert_eq!(prompt.input.value, "foo");
    assert_eq!(prompt.input.col, 3);

    // removing
    let keys = [(KeyCode::Backspace, "fo"), (KeyCode::Delete, "f")];
    prompt.input.col = 2;

    for (key, expected) in keys {
        prompt.handle_key(&key);

        assert_eq!(prompt.input.value, expected);
        assert_eq!(prompt.input.col, 1);
    }
}

#[test]
fn text_update_cursor_position() {
    let mut prompt = Text::new("");
    prompt.input.set_value("foo");
    prompt.input.col = 2;

    let keys = [(KeyCode::Left, 1), (KeyCode::Right, 2)];

    for (key, expected) in keys {
        prompt.handle_key(&key);

        assert_eq!(prompt.input.col, expected);
    }
}

#[test]
fn validate_input() {
    let err_str = "Please enter an response";

    let mut prompt = Text::new("").validate(|s| if s.is_empty() { Err(err_str) } else { Ok(()) });

    // invalid value
    let mut submit = prompt.handle_key(&KeyCode::Enter);

    assert!(!submit);
    assert_eq!(prompt.validator_result, Err(err_str));

    // valid value
    prompt.input.set_value("foo");
    submit = prompt.handle_key(&KeyCode::Enter);

    assert!(submit);
    assert_eq!(prompt.validator_result, Ok(()));
}

#[test]
fn validate_input_with_a_validator_per_call() {
    let mut prompt = Text::new("");
    let err_str = "Please enter an response";
    let validator = |s: &str| if s.is_empty() { Err(err_str) } else { Ok(()) };
    assert!(!prompt.handle_key_with(&KeyCode::Enter, &validator));
    assert_eq!(prompt.validator_result, Err(err_str));
    prompt.input.set_value("foo");
    assert!(prompt.handle_key_with(&KeyCode::Enter, &validator));
}

#[test]
fn stored_validators_of_password_and_number() {
    let mut p = Password::new("").validate(|s| if s == "dflt" { Ok(()) } else { Err("no") });
    p.default("dflt");
    assert!(p.handle_key(&KeyCode::Enter));
    p.handle_key(&KeyCode::Char('x'));
    assert!(!p.handle_key(&KeyCode::Enter));
    assert_eq!(p.validator_result, Err("no"));

    let mut n = Number::<u8>::new("").validate(|s| if s.len() < 3 { Ok(()) } else { Err("too long") });
    n.handle_key(&KeyCode::Char('1'));
    assert!(n.handle_key(&KeyCode::Enter));
    n.handle_key(&KeyCode::Char('2'));
    n.handle_key(&KeyCode::Char('3'));
    assert!(!n.handle_key(&KeyCode::Enter));
}

#[test]
fn text_submit_input_value() {
    let mut prompt = Text::new("");
    prompt.input.set_value("foo");
    prompt.default("bar");

    assert_eq!(prompt.get_value(), "foo");
}

#[test]
fn text_submit_default_value() {
    let mut prompt = Text::new("");
    prompt.input.set_value("");
    prompt.default("bar");

    assert_eq!(prompt.get_value(), "bar");
}

#[test]
fn insert_then_backspace_gives_back_the_line() {
    let mut input = LineInput::new();
    input.set_value("abc");
    input.col = 1;
    input.insert('x');
    assert_eq!(input.value, "axbc");
    assert_eq!(input.col, 2);
    input.backspace();
    assert_eq!(input.value, "abc");
    assert_eq!(input.col, 1);
}

#[test]
fn line_edges_change_nothing() {
    let mut input = LineInput::new();
    input.set_value("ab");
    input.delete();
    assert_eq!(input.value, "ab");
    input.col = 0;
    input.backspace();
    assert_eq!(input.value, "ab");
    assert_eq!(input.col, 0);
    input.move_cursor(asky::prompts::text::Direction::Left);
    assert_eq!(input.col, 0);
}

#[test]
fn line_input_counts_characters() {
    let mut input = LineInput::new();
    input.set_value("é▣");
    assert_eq!(input.col, 2);
    input.insert('x');
    assert_eq!(input.value, "é▣x");
    input.col = 1;
    input.delete();
    assert_eq!(input.value, "éx");
}

#[test]
fn number_set_placeholder() {
    let mut text = Number::<i32>::new("");

    assert_eq!(text.placeholder, None);
    text.placeholder("foo");
    assert_eq!(text.placeholder, Some("foo"));
}

#[test]
fn number_set_default_value() {
    let mut text = Number::<i32>::new("");

    assert_eq!(text.default_value, None);
    text.default(10);
    assert_eq!(text.default_value, Some(String::from("10")));
}

#[test]
fn number_set_initial_value() {
    let mut prompt = Number::<i32>::new("");

    assert_eq!(prompt.input, LineInput::new());

    prompt.initial(10);

    assert_eq!(
        prompt.input,
        LineInput {
            value: String::from("10"),
            col: 2,
        }
    );
}

#[test]
fn number_update_cursor_position() {
    let mut prompt = Number::<i32>::new("");
    prompt.input.set_value("foo");
    prompt.input.col = 2;

    let keys = [(KeyCode::Left, 1), (KeyCode::Right, 2)];

    for (key, expected) in keys {
        prompt.handle_key(&key);

        assert_eq!(prompt.input.col, expected);
    }
}

#[test]
fn number_submit_input_value() {
    let mut prompt = Number::<i32>::new("");
    prompt.input.set_value(&String::from("10"));
    prompt.default(20);

    assert_eq!(prompt.value_text().parse::<i32>(), Ok(10));
}

#[test]
fn number_submit_default_value() {
    let mut prompt = Number::<i32>::new("");
    prompt.input.set_value("");
    prompt.default(20);

    assert_eq!(prompt.value_text().parse::<i32>(), Ok(20));
}

#[test]
fn allow_sign_at_the_start() {
    let signs = ['-', '+'];

    for c in signs {
        let mut prompt = Number::<i32>::new("");

        // must accept only one sign, simulate double press
        prompt.handle_key(&KeyCode::Char(c));
        prompt.handle_key(&KeyCode::Char(c));

        assert_eq!(prompt.input.value, c.to_string());
    }

    // not allow fo unsigned types
    for c in signs {
        let mut prompt = Number::<u32>::new("");

        prompt.handle_key(&KeyCode::Char(c));

        assert!(prompt.input.value.is_empty());
    }
}

#[test]
fn allow_only_digits() {
    let mut prompt = Number::<i32>::new("");

    // try to type a character
    ('a'..='z').for_each(|c| {
        prompt.handle_key(&KeyCode::Char(c));
    });

    // try to type digits
    ('0'..='9').for_each(|c| {
        prompt.handle_key(&KeyCode::Char(c));
    });

    assert_eq!(prompt.input.value, "0123456789");
}

/// A floating point number type for the number prompt.
#[derive(Clone, Copy, Debug, Default, PartialEq)]
struct Float(f32);

impl std::fmt::Display for Float {
    fn fmt(&self, f: &mut std::fmt::Formatter) -> std::fmt::Result {
        self.0.fmt(f)
    }
}

impl NumLike for Float {
    fn spec_is_float() -> bool {
        true
    }

    fn spec_is_signed() -> bool {
        true
    }

    fn is_float() -> bool {
        true
    }

    fn is_signed() -> bool {
        true
    }
}

#[test]
fn allow_decimal_in_floats() {
    let mut prompt = Number::<Float>::new("");

    "1.".chars().for_each(|c| {
        prompt.handle_key(&KeyCode::Char(c));
    });

    assert_eq!(prompt.input.value, "1.");

    // not allow in integers
    let mut prompt = Number::<i32>::new("");

    "2.".chars().for_each(|c| {
        prompt.handle_key(&KeyCode::Char(c));
    });

    assert_eq!(prompt.input.value, "2");
}

#[test]
fn only_one_decimal_point() {
    let mut prompt = Number::<Float>::new("");
    for c in "1.5.2".chars() {
        prompt.handle_key(&KeyCode::Char(c));
    }
    assert_eq!(prompt.input.value, "1.52");
}

#[test]
fn password_set_placeholder() {
    let mut text = Password::new("");

    assert_eq!(text.placeholder, None);
    text.placeholder("foo");
    assert_eq!(text.placeholder, Some("foo"));
}

#[test]
fn password_set_default_value() {
    let mut text = Password::new("");

    assert_eq!(text.default_value, None);
    text.default("foo");
    assert_eq!(text.default_value, Some("foo"));
}

#[test]
fn password_set_initial_value() {
    let mut prompt = Password::new("");

    assert_eq!(prompt.input, LineInput::new());

    prompt.initial("foo");

    assert_eq!(
        prompt.input,
        LineInput {
            value: String::from("foo"),
            col: 3,
        }
    );
}

#[test]
fn set_hidden_value() {
    let mut prompt = Password::new("");

    assert!(!prompt.hidden);
    prompt.hidden(true);
    assert!(prompt.hidden)
}

#[test]
fn se_hidden_value() {
    let mut prompt = Password::new("");

    prompt.hidden(false);
    assert!(!prompt.hidden);
    prompt.hidden(true);
    assert!(prompt.hidden)
}

#[test]
fn password_update_cursor_position() {
    let mut prompt = Password::new("");
    prompt.input.set_value("foo");
    prompt.input.col = 2;

    let keys = [(KeyCode::Left, 1), (KeyCode::Right, 2)];

    for (key, expected) in keys {
        prompt.handle_key(&key);

        assert_eq!(prompt.input.col, expected);
    }
}

#[test]
fn password_submit_input_value() {
    let mut prompt = Password::new("");
    prompt.input.set_value("foo");
    prompt.default("bar");

    assert_eq!(prompt.get_value(), "foo");
}

#[test]
fn password_submit_default_value() {
    let mut prompt = Password::new("");
    prompt.input.set_value("");
    prompt.default("bar");

    assert_eq!(prompt.get_value(), "bar");
}

#[test]
fn password_value_is_the_typed_input() {
    let mut prompt = Password::new("");
    prompt.default("bar");
    assert_eq!(prompt.value().unwrap(), "");
    prompt.initial("secret");
    assert_eq!(prompt.value().unwrap(), "secret");
}

#[test]
fn num_types_tell_sign() {
    assert!(<i16 as Num>::is_signed());
    assert!(!<u16 as Num>::is_signed());
    assert!(!<i64 as Num>::is_float());
}
