use asky::style::{DefaultStyle, Flags, Section, Style};
use asky::utils::renderer::{count_newlines, Cmd, DrawTime, Renderer, StringRenderer};
use asky::utils::renderer::AnsiColor;
use asky::utils::theme::{
    fmt_confirm, fmt_last_message, fmt_line_input, fmt_line_message, fmt_line_validator, fmt_message,
    fmt_multi_select, fmt_multi_select_message, fmt_number, fmt_password, fmt_select_option, fmt_select_pagination,
    fmt_text, fmt_text2,
};
use asky::utils::colored_strings::ColoredStrings;
use asky::{Confirm, KeyCode, Message, MultiSelect, Number, Password, Select, Text};

fn text_of(r: &Renderer) -> String {
    let mut out = String::new();
    for c in &r.cmds {
        if let Cmd::Print(s) = c {
            out.push_str(s);
        }
    }
    out
}

fn pieces_text(c: &ColoredStrings) -> String {
    c.0.iter().map(|p| p.input.as_str()).collect()
}

#[test]
fn newlines_are_counted() {
    assert_eq!(count_newlines(""), 0);
    assert_eq!(count_newlines("a\nb\n\nc"), 3);
    assert_eq!(count_newlines("▣\n"), 1);
}

#[test]
fn string_renderer_keeps_the_text() {
    let mut r = Renderer::new();
    let m = Message::wait("Hello");
    m.draw(&mut r);
    let cmds = r.take();
    let mut s = StringRenderer::default();
    s.render(&cmds);
    assert_eq!(s.string, "Hello\n");
    assert_eq!(s.line_count, 1);
}

#[test]
fn draw_time_goes_forward() {
    let mut s = StringRenderer::default();
    assert_eq!(s.draw_time(), DrawTime::First);
    s.update_draw_time();
    assert_eq!(s.draw_time(), DrawTime::Update);
    s.update_draw_time();
    assert_eq!(s.draw_time(), DrawTime::Last);
    s.update_draw_time();
    assert_eq!(s.draw_time(), DrawTime::Last);
}

#[test]
fn message_without_wait_is_done_at_once() {
    let mut r = Renderer::new();
    Message::new("Bye").draw(&mut r);
    assert_eq!(r.draw_time, DrawTime::Last);
    assert_eq!(text_of(&r), "Bye\n");
}

#[test]
fn query_sections_in_ascii() {
    let style = DefaultStyle { ascii: true };
    let mut r = Renderer::new();
    style.begin(&mut r, Section::Query(false));
    style.end(&mut r, Section::Query(false));
    style.begin(&mut r, Section::Query(true));
    style.end(&mut r, Section::Query(true));
    assert_eq!(text_of(&r), "[ ] \n[x]  ");
}

#[test]
fn page_section_shows_dots() {
    let style = DefaultStyle { ascii: true };
    let mut r = Renderer::new();
    style.begin(&mut r, Section::Page(1, 3));
    assert_eq!(text_of(&r), "\n    ***\n");
    let mut r = Renderer::new();
    style.begin(&mut r, Section::Page(0, 1));
    assert_eq!(text_of(&r), "");
    let mut r = Renderer::new();
    style.begin(&mut r, Section::Page(255, 1));
    assert_eq!(text_of(&r), "");
}

#[test]
fn flags_combine() {
    let f = Flags::empty().union(Flags::focused()).union(Flags::disabled());
    assert!(f.contains(Flags::focused()));
    assert!(f.contains(Flags::disabled()));
    assert!(!f.contains(Flags::selected()));
}

#[test]
fn select_draws_its_page_in_ascii() {
    let p = Select::new("Pick", vec!["a", "b"]);
    let mut r = Renderer::new();
    p.draw(&mut r);
    assert_eq!(text_of(&r), "[ ] Pick\n(x) a\n( ) b\n");
    let mut r2 = Renderer { draw_time: DrawTime::Last, cmds: Vec::new() };
    p.draw(&mut r2);
    assert_eq!(text_of(&r2), "[x] Pick a\n");
}

#[test]
fn multi_select_answer_lists_the_selection() {
    let mut p = MultiSelect::new("Pets", vec!["dog", "cat", "fish"]);
    p.selected(&[0, 2]);
    let mut r = Renderer { draw_time: DrawTime::Last, cmds: Vec::new() };
    p.draw(&mut r);
    assert_eq!(text_of(&r), "■ Pets [dog, fish]\n");
}

#[test]
fn password_draws_stars() {
    let mut p = Password::new("Secret");
    p.initial("abc");
    let mut r = Renderer::new();
    p.draw(&mut r);
    assert_eq!(text_of(&r), "▣ Secret\n› ***");
    assert!(matches!(r.cmds.last(), Some(Cmd::SetCursor(5, 1))));
}

#[test]
fn confirm_theme() {
    let mut c = Confirm::new("Sure?");
    let mut out = ColoredStrings::new();
    fmt_confirm(&c, DrawTime::First, &mut out);
    assert_eq!(pieces_text(&out), "▣ Sure?\n No   Yes ");
    c.handle_key(&KeyCode::Char('y'));
    let mut out = ColoredStrings::new();
    fmt_confirm(&c, DrawTime::Last, &mut out);
    assert_eq!(pieces_text(&out), "■ Sure? Yes");
}

#[test]
fn text_theme_places_the_cursor() {
    let mut t = Text::new("Name");
    t.default("Ann");
    t.initial("Bo");
    let mut out = ColoredStrings::new();
    let cursor = fmt_text2(&t, DrawTime::Update, &mut out);
    assert_eq!(cursor, [4, 1]);
    assert_eq!(pieces_text(&out), "▣ Name Default: Ann\n› Bo\n");
}

#[test]
fn multi_select_theme() {
    let mut p = MultiSelect::new("Pets", vec!["dog", "cat"]);
    p.min(1).max(2);
    let out = fmt_multi_select(&p, DrawTime::First);
    assert_eq!(pieces_text(&out), "▣ Pets Min: 1 · Max: 2\n○ dog \n○ cat \n");
    p.selected(&[1]);
    let out = fmt_multi_select(&p, DrawTime::Last);
    assert_eq!(pieces_text(&out), "■ Pets [cat]");
}

#[test]
fn theme_pieces_as_values() {
    assert_eq!(pieces_text(&fmt_message("Hi")), "▣ Hi");
    assert_eq!(pieces_text(&fmt_last_message("Hi", "yes")), "■ Hi yes");
    assert_eq!(pieces_text(&fmt_line_message("Hi", Some("x"))), "▣ Hi Default: x");
    let input = fmt_line_input("", Some("type"), &Err("bad"), false);
    assert_eq!(pieces_text(&input), "› type");
    assert_eq!(input.0[0].fgcolor, Some(AnsiColor::Red.dark()));
    let number = fmt_line_input("12", None, &Ok(()), true);
    assert_eq!(number.0[2].fgcolor, Some(AnsiColor::Yellow.dark()));
    assert_eq!(pieces_text(&fmt_line_validator(&Err("bad"))), "bad");
    assert_eq!(fmt_line_validator(&Ok(())).0.len(), 0);
    assert_eq!(pieces_text(&fmt_multi_select_message("Pick", None, Some(3))), "▣ Pick Max: 3");
    assert_eq!(pieces_text(&fmt_select_pagination(1, 3)), "\n  •••");
    assert_eq!(fmt_select_pagination(0, 1).0.len(), 0);
    let o = asky::SelectOption::new("a").description("first");
    assert_eq!(pieces_text(&fmt_select_option(&o, true, false)), "● a  · first");
}

#[test]
fn line_themes_with_cursor() {
    let mut t = Text::new("Name");
    t.initial("Al");
    let (out, cursor) = fmt_text(&t, DrawTime::First);
    assert_eq!(pieces_text(&out), "▣ Name \n› Al\n");
    assert_eq!(cursor, [4, 1]);
    let mut p = Password::new("Pin");
    p.initial("12");
    p.hidden(true);
    let (out, cursor) = fmt_password(&p, DrawTime::Update);
    assert_eq!(pieces_text(&out), "▣ Pin \n› \n");
    assert_eq!(cursor, [2, 1]);
    let (out, cursor) = fmt_password(&p, DrawTime::Last);
    assert_eq!(pieces_text(&out), "■ Pin …");
    assert_eq!(cursor, [0, 0]);
    let mut n: Number<u8> = Number::new("Age");
    n.initial(7);
    let (out, _) = fmt_number(&n, DrawTime::First);
    assert_eq!(pieces_text(&out), "▣ Age \n› 7\n");
}

#[test]
fn empty_lists_can_be_drawn() {
    let p = MultiSelect::<&str>::new("Pets", vec![]);
    let mut r = Renderer::new();
    p.draw(&mut r);
    assert!(text_of(&r).starts_with("▣ Pets"));
    let s = Select::<&str>::new("Pick", vec![]);
    let mut r = Renderer::new();
    s.draw(&mut r);
    assert!(text_of(&r).starts_with("[ ] Pick"));
    let out = fmt_multi_select(&p, DrawTime::First);
    assert!(pieces_text(&out).starts_with("▣ Pets"));
}

#[test]
fn password_drawing_hides_the_value() {
    let mut a = Password::new("Secret");
    a.initial("abc");
    let mut b = Password::new("Secret");
    b.initial("xyz");
    let mut ra = Renderer::new();
    a.draw(&mut ra);
    let mut rb = Renderer::new();
    b.draw(&mut rb);
    assert_eq!(text_of(&ra), text_of(&rb));
    assert!(!text_of(&ra).contains("abc"));
}

#[test]
fn hidden_password_text_ignores_length_and_cursor() {
    let mut a = Password::new("Pin");
    a.initial("ab");
    a.hidden(true);
    let mut b = Password::new("Pin");
    b.initial("wxyz");
    b.hidden(true);
    b.input.col = 1;
    let mut ra = Renderer::new();
    a.draw(&mut ra);
    let mut rb = Renderer::new();
    b.draw(&mut rb);
    assert_eq!(text_of(&ra), text_of(&rb));
}
