use asky::{KeyCode, MultiSelect, SelectOption, Valuable};

#[test]
fn set_selected_values() {
    let mut prompt = MultiSelect::new("", vec!["a", "b", "c"]);

    prompt.selected(&[0, 2]);
    assert!(prompt.options[0].active);
    assert!(prompt.options[2].active);
}

#[test]
fn set_min() {
    let mut prompt = MultiSelect::<&str>::new("", vec![]);

    prompt.min(2);

    assert_eq!(prompt.min, Some(2));
}

#[test]
fn set_max() {
    let mut prompt = MultiSelect::<&str>::new("", vec![]);

    prompt.max(2);

    assert_eq!(prompt.max, Some(2));
}

#[test]
fn multi_select_set_in_loop() {
    let mut prompt = MultiSelect::new("", vec!["a", "b", "c"]);

    prompt.in_loop(false);
    assert!(!prompt.input.loop_mode);
    prompt.in_loop(true);
    assert!(prompt.input.loop_mode);
}

#[test]
fn submit_keys() {
    let events = [KeyCode::Enter, KeyCode::Backspace];

    for event in events {
        let mut prompt = MultiSelect::new("", vec!["a", "b", "c"]);
        let submit = prompt.handle_key(&event);
        assert!(submit);
    }
}

#[test]
fn not_submit_without_min() {
    let mut prompt = MultiSelect::new("", vec!["a", "b", "c"]);

    prompt.min(1);
    let mut submit = prompt.handle_key(&KeyCode::Enter);

    assert!(!submit);

    prompt.handle_key(&KeyCode::Char(' '));
    submit = prompt.handle_key(&KeyCode::Enter);

    assert!(submit);
}

#[test]
fn move_cursor() {
    let mut prompt = MultiSelect::new("", vec!["a", "b", "c"]);
    let prev_keys = [KeyCode::Up, KeyCode::Char('k'), KeyCode::Char('K')];
    let next_keys = [KeyCode::Down, KeyCode::Char('j'), KeyCode::Char('j')];

    prompt.in_loop(false);
    for key in next_keys {
        prompt.input.focused = 0;
        prompt.handle_key(&key);
        assert_eq!(prompt.input.focused, 1);
    }

    prompt.in_loop(true);
    for key in next_keys {
        prompt.input.focused = 2;
        prompt.handle_key(&key);
        assert_eq!(prompt.input.focused, 0);
    }

    prompt.in_loop(false);
    for key in prev_keys {
        prompt.input.focused = 2;
        prompt.handle_key(&key);
        assert_eq!(prompt.input.focused, 1);
    }

    prompt.in_loop(true);
    for key in prev_keys {
        prompt.input.focused = 0;
        prompt.handle_key(&key);
        assert_eq!(prompt.input.focused, 2);
    }
}

#[test]
fn update_focused_selected() {
    let mut prompt = MultiSelect::new("", vec!["a", "b", "c"]);

    prompt.max(1);

    assert!(!prompt.options[1].active);
    assert!(!prompt.options[2].active);

    prompt.input.focused = 1;
    prompt.handle_key(&KeyCode::Char(' '));

    // must not update over limit
    prompt.input.focused = 2;
    prompt.handle_key(&KeyCode::Char(' '));

    assert!(prompt.options[1].active);
    assert!(!prompt.options[2].active);
}

#[test]
fn toggle_twice_restores() {
    let mut prompt = MultiSelect::new("", vec!["a", "b", "c"]);
    prompt.input.focused = 1;
    prompt.toggle_focused();
    assert!(prompt.options[1].active);
    assert_eq!(prompt.selected_count, 1);
    prompt.toggle_focused();
    assert!(!prompt.options[1].active);
    assert_eq!(prompt.selected_count, 0);
}

#[test]
fn disabled_option_is_not_toggled() {
    let options = vec![SelectOption::new("a"), SelectOption::new("b").disabled(true)];
    let mut prompt = MultiSelect::new_complex("", options);
    prompt.input.focused = 1;
    prompt.toggle_focused();
    assert!(!prompt.options[1].active);
    assert_eq!(prompt.selected_count, 0);
}

#[test]
fn selected_ignores_indices_out_of_the_list() {
    let mut prompt = MultiSelect::new("", vec!["a", "b"]);
    prompt.selected(&[1, 5]);
    assert!(!prompt.options[0].active);
    assert!(prompt.options[1].active);
    assert_eq!(prompt.selected_count, 1);
}

#[test]
fn value_is_a_bit_mask_of_the_selection() {
    let mut prompt = MultiSelect::new("", vec!["a", "b", "c", "d"]);
    prompt.selected(&[0, 2, 3]);
    assert_eq!(prompt.value().unwrap(), 0b1101);
}

#[test]
fn get_value_takes_the_selected_values_in_order() {
    let mut prompt = MultiSelect::new("", vec![10, 20, 30, 40]);
    prompt.selected(&[3, 1]);
    assert_eq!(prompt.get_value(), vec![20, 40]);
    assert!(prompt.options.is_empty());
}

#[test]
fn test_scan() {
    let a = [1, 2, 3, 4];

    let mut iter = a.iter().scan(0, |state, &x| {
        // each iteration, we'll multiply the state by the element ...
        *state += 1;

        // ... and terminate if the state exceeds 6
        if *state % 2 == 0 {
            return None;
        }
        // ... else yield the negation of the state
        Some(-x)
    });

    assert_eq!(iter.next(), Some(-1));
    assert_eq!(iter.next(), None);
    assert_eq!(iter.next(), Some(-3));
    assert_eq!(iter.next(), None);
    assert_eq!(iter.next(), None);
}

#[test]
fn selected_count_follows_fresh_indices() {
    let mut prompt = MultiSelect::new("", vec!["a", "b", "c"]);
    prompt.selected(&[0, 2, 7]);
    let active = prompt.options.iter().filter(|o| o.active).count();
    assert_eq!(prompt.selected_count, 2);
    assert_eq!(active, 2);
}

#[test]
fn selected_counts_each_index_given() {
    // an index given twice is counted twice, as the selection does
    let mut prompt = MultiSelect::new("", vec!["a", "b"]);
    prompt.selected(&[0, 0]);
    assert_eq!(prompt.selected_count, 2);
    assert!(prompt.options[0].active);
    assert!(!prompt.options[1].active);
}

#[test]
fn toggles_keep_count_within_max() {
    let mut prompt = MultiSelect::new("", vec!["a", "b", "c"]);
    prompt.max(2);
    for key in [KeyCode::Char(' '), KeyCode::Down, KeyCode::Char(' '), KeyCode::Down, KeyCode::Char(' '), KeyCode::Up, KeyCode::Char(' ')] {
        prompt.handle_key(&key);
        let active = prompt.options.iter().filter(|o| o.active).count();
        assert_eq!(prompt.selected_count, active);
        assert!(prompt.selected_count <= 2);
    }
    assert!(prompt.options[0].active);
    assert!(!prompt.options[1].active);
    assert!(!prompt.options[2].active);
}
