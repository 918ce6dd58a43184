use asky::formatted::Formatted;
use asky::utils::colored_strings::{ColoredString, ColoredStrings};
use asky::utils::renderer::{Cmd, DrawTime, Renderer};
use asky::{Confirm, KeyCode, Number, Select, Text, Toggle};

#[test]
fn confirm_set_custom_formatter() {
    let prompt = Confirm::new("").format(|_, _| String::from("foo"));
    let draw_time = DrawTime::First;
    const EXPECTED_VALUE: &str = "foo";

    assert_eq!((prompt.formatter)(&prompt.prompt, draw_time), EXPECTED_VALUE);
}

#[test]
fn number_set_custom_formatter() {
    let prompt = Number::<u8>::new("").format(|_, _| (String::from("foo"), None));
    let draw_time = DrawTime::First;
    const EXPECTED_VALUE: &str = "foo";

    assert_eq!((prompt.formatter)(&prompt.prompt, draw_time), (String::from(EXPECTED_VALUE), None));
}

#[test]
fn select_set_custom_formatter() {
    const EXPECTED_VALUE: &str = "foo";
    let prompt = Select::new("", vec!["foo", "bar"])
        .format(|_, _, out: &mut ColoredStrings| out.push(ColoredString::paint(EXPECTED_VALUE, None)));
    let draw_time = DrawTime::First;

    let mut out = ColoredStrings::new();
    (prompt.formatter)(&prompt.prompt, draw_time, &mut out);
    let text: String = out.0.iter().map(|p| p.input.as_str()).collect();
    assert_eq!(text, EXPECTED_VALUE);
}

#[test]
fn text_set_custom_formatter() {
    let prompt = Text::new("").format(|_, _| (String::from("foo"), [0, 0]));
    let draw_time = DrawTime::First;
    const EXPECTED_VALUE: &str = "foo";

    assert_eq!((prompt.formatter)(&prompt.prompt, draw_time), (String::from(EXPECTED_VALUE), [0, 0]));
}

#[test]
fn toggle_set_custom_formatter() {
    let prompt = Toggle::new("", ["foo", "bar"]).format(|_, _| String::from("foo"));
    let draw_time = DrawTime::First;
    const EXPECTED_VALUE: &str = "foo";

    assert_eq!((prompt.formatter)(&prompt.prompt, draw_time), EXPECTED_VALUE);
}

#[test]
fn formatter_draws_in_place_of_the_theme() {
    let mut prompt = Text::new("name").format(|p: &Text, t: DrawTime| {
        let text = if t == DrawTime::Last { String::from("done") } else { format!("> {}", p.input.value) };
        (text, [2 + p.input.col, 0])
    });
    prompt.prompt.handle_key(&KeyCode::Char('a'));
    prompt.prompt.handle_key(&KeyCode::Char('b'));

    let mut r = Renderer::new();
    prompt.draw(&mut r);
    assert_eq!(r.cmds.len(), 2);
    assert!(matches!(&r.cmds[0], Cmd::Print(s) if s == "> ab"));
    assert!(matches!(r.cmds[1], Cmd::SetCursor(4, 0)));

    r.update_draw_time();
    r.update_draw_time();
    let _ = r.take();
    prompt.draw(&mut r);
    assert!(matches!(&r.cmds[0], Cmd::Print(s) if s == "done"));
}

#[test]
fn number_formatter_may_hide_the_cursor() {
    let shown = Formatted { prompt: Number::<i32>::new(""), formatter: |_: &Number<i32>, _: DrawTime| (String::from("7"), Some([1u16, 2])) };
    let mut r = Renderer::new();
    shown.draw(&mut r);
    assert_eq!(r.cmds.len(), 2);
    assert!(matches!(r.cmds[1], Cmd::SetCursor(1, 2)));

    let hidden = Number::<i32>::new("").format(|_, _| (String::from("7"), None));
    let mut r = Renderer::new();
    hidden.draw(&mut r);
    assert_eq!(r.cmds.len(), 1);
    assert!(matches!(&r.cmds[0], Cmd::Print(s) if s == "7"));
}

#[test]
fn choice_formatter_prints_its_text() {
    let prompt = Confirm::new("ok?").format(|p: &Confirm, _| format!("{} {}", p.message, if p.active { "yes" } else { "no" }));
    let mut r = Renderer::new();
    prompt.draw(&mut r);
    assert_eq!(r.cmds.len(), 1);
    assert!(matches!(&r.cmds[0], Cmd::Print(s) if s == "ok? no"));
}
