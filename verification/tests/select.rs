use asky::{KeyCode, Select, SelectInput, SelectOption, Valuable};
use asky::prompts::select::Direction;

#[test]
fn select_set_initial_value() {
    let mut prompt = Select::new("", vec!["foo", "bar"]);

    assert_eq!(prompt.input.focused, 0);
    prompt.selected(1);
    assert_eq!(prompt.input.focused, 1);
}

#[test]
fn set_loop_mode() {
    let mut prompt = Select::new("", vec!["foo", "bar"]);

    prompt.in_loop(false);
    assert!(!prompt.input.loop_mode);
    prompt.in_loop(true);
    assert!(prompt.input.loop_mode);
}

#[test]
fn select_submit_selected_value() {
    let events = [KeyCode::Enter, KeyCode::Backspace];

    for event in events {
        let mut prompt = Select::new("", vec!["foo", "bar"]);
        prompt.selected(1);

        let submit = prompt.handle_key(&event);
        assert_eq!(prompt.input.focused, 1);
        assert!(submit);
    }
}

#[test]
fn not_submit_disabled() {
    let events = [KeyCode::Enter, KeyCode::Backspace];

    for event in events {
        let mut prompt = Select::new_complex("", vec![SelectOption::new("foo").disabled(true)]);

        let submit = prompt.handle_key(&event);
        assert!(!submit);
    }
}

#[test]
fn select_update_focused() {
    let up_keys = [KeyCode::Up, KeyCode::Char('k'), KeyCode::Char('K')];
    let down_keys = [KeyCode::Down, KeyCode::Char('j'), KeyCode::Char('j')];

    let up_cases = [
        //in_loop, initial, expected
        (false, 0, 0),
        (false, 1, 0),
        (true, 0, 1),
    ];
    let down_cases = [
        //in_loop, initial, expected
        (false, 1, 1),
        (false, 0, 1),
        (true, 1, 0),
    ];

    for key in up_keys {
        for (in_loop, initial, expected) in up_cases {
            let mut prompt = Select::new("", vec!["foo", "bar"]);
            prompt.selected(initial);
            prompt.in_loop(in_loop);
            prompt.handle_key(&key);
            assert_eq!(prompt.input.focused, expected);
        }
    }

    for key in down_keys {
        for (in_loop, initial, expected) in down_cases {
            let mut prompt = Select::new("", vec!["foo", "bar"]);
            prompt.selected(initial);
            prompt.in_loop(in_loop);
            prompt.handle_key(&key);
            assert_eq!(prompt.input.focused, expected);
        }
    }
}

#[test]
fn update_selected() {
    let up_keys = [KeyCode::Up, KeyCode::Char('k'), KeyCode::Char('K')];
    let down_keys = [KeyCode::Down, KeyCode::Char('j'), KeyCode::Char('j')];

    let up_cases = [(false, 0, 0), (false, 1, 0), (true, 0, 1)];
    let down_cases = [(false, 1, 1), (false, 0, 1), (true, 1, 0)];

    for key in up_keys {
        for (in_loop, initial, expected) in up_cases {
            let mut prompt = Select::new("", vec!["foo", "bar"]);
            prompt.selected(initial);
            prompt.in_loop(in_loop);
            prompt.handle_key(&key);
            assert_eq!(prompt.input.focused, expected);
        }
    }

    for key in down_keys {
        for (in_loop, initial, expected) in down_cases {
            let mut prompt = Select::new("", vec!["foo", "bar"]);
            prompt.selected(initial);
            prompt.in_loop(in_loop);
            prompt.handle_key(&key);
            assert_eq!(prompt.input.focused, expected);
        }
    }
}

#[test]
fn selected_clamps_to_last() {
    let mut prompt = Select::new("", vec!["a", "b", "c"]);
    prompt.selected(10);
    assert_eq!(prompt.input.focused, 2);
}

#[test]
fn option_builders() {
    let o = SelectOption::new(7).title("Seven").description("lucky").disabled(true);
    assert_eq!(o.value, 7);
    assert_eq!(o.title, "Seven");
    assert_eq!(o.description, Some("lucky"));
    assert!(o.disabled);
    assert!(!o.active);
    assert_eq!(SelectOption::new(42).title, "42");
}

#[test]
fn select_value_of_disabled_is_an_error() {
    let prompt = Select::new_complex("", vec![SelectOption::new("a"), SelectOption::new("b").disabled(true)]);
    assert_eq!(prompt.value().unwrap(), 0);
    let mut prompt = prompt;
    prompt.selected(1);
    match prompt.value() {
        Err(asky::Error::InvalidCount { expected: 1, actual: 0 }) => {}
        other => panic!("unexpected {:?}", other),
    }
}

#[test]
fn pages_are_counted() {
    let mut input = SelectInput::new(25);
    assert_eq!(input.count_pages(), 3);
    input.set_items_per_page(5);
    assert_eq!(input.count_pages(), 5);
    input.focused = 12;
    assert_eq!(input.get_page(), 2);
    input.set_items_per_page(100);
    assert_eq!(input.items_per_page, 25);
    assert_eq!(input.count_pages(), 1);
}

#[test]
fn page_moves_stop_at_ends() {
    let mut input = SelectInput::new(25);
    input.set_items_per_page(10);
    input.move_cursor(Direction::Right);
    assert_eq!(input.focused, 10);
    input.move_cursor(Direction::Right);
    assert_eq!(input.focused, 20);
    input.move_cursor(Direction::Right);
    assert_eq!(input.focused, 24);
    input.move_cursor(Direction::Left);
    assert_eq!(input.focused, 14);
    input.move_cursor(Direction::Left);
    assert_eq!(input.focused, 4);
    input.move_cursor(Direction::Left);
    assert_eq!(input.focused, 0);
}

#[test]
fn loop_next_then_prev_comes_back() {
    for start in 0..4 {
        let mut input = SelectInput::new(4);
        input.focused = start;
        input.move_cursor(Direction::Down);
        input.move_cursor(Direction::Up);
        assert_eq!(input.focused, start);
    }
}

#[test]
fn empty_select_takes_harmless_keys() {
    let mut prompt = Select::<&str>::new("", vec![]);
    assert!(!prompt.handle_key(&KeyCode::Right));
    assert!(!prompt.handle_key(&KeyCode::Tab));
    assert_eq!(prompt.input.focused, 0);
    let mut multi = asky::MultiSelect::<&str>::new("", vec![]);
    assert!(multi.handle_key(&KeyCode::Enter));
    assert!(!multi.handle_key(&KeyCode::Char('l')));
}

#[test]
fn left_focuses_the_next_page_and_right_the_previous() {
    let items: Vec<usize> = (0..25).collect();
    let mut prompt = Select::new("", items);
    assert!(!prompt.handle_key(&KeyCode::Left));
    assert_eq!(prompt.input.focused, 10);
    prompt.handle_key(&KeyCode::Char('h'));
    assert_eq!(prompt.input.focused, 20);
    prompt.handle_key(&KeyCode::Right);
    assert_eq!(prompt.input.focused, 10);
    prompt.handle_key(&KeyCode::Char('l'));
    assert_eq!(prompt.input.focused, 0);
    let mut multi = asky::MultiSelect::new("", (0..25).collect::<Vec<usize>>());
    multi.handle_key(&KeyCode::Left);
    assert_eq!(multi.input.focused, 10);
    multi.handle_key(&KeyCode::Right);
    assert_eq!(multi.input.focused, 0);
}
