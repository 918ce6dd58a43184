use asky::text_style_adapter::{cursorify, StyledString, StyledStringWriter, TextStyle};
use asky::utils::renderer::AnsiColor;

fn white() -> asky::utils::renderer::Color {
    AnsiColor::White.dark()
}

#[test]
fn text_style_adapter_test_cursorify() {
    let mut w = StyledStringWriter::default();
    let v = w.drain_with_styled_cursor(white());
    assert_eq!(v.len(), 2);
}

#[test]
fn text_style_adapter_test_cursorify2() {
    let mut w = StyledStringWriter::default();
    w.write_str("what the fuck");
    w.set_foreground(AnsiColor::Black.light());
    w.write_str("huh");
    let v = w.drain_with_styled_cursor(white());
    assert_eq!(v.len(), 3);
}

#[test]
fn text_style_adapter_test_cursorify3() {
    let s = StyledString::new(" ".into(), None);
    let v = cursorify(s, 0, white());
    assert_eq!(v.len(), 2);
    assert_eq!(&v[0].s, "");
    assert_eq!(v[0].style, None);
    assert_eq!(&v[1].s, " ");
    assert_ne!(v[1].style, None);
}

#[test]
fn test_cursorify5() {
    let s = StyledString::new("a".into(), None);
    let v = cursorify(s, 1, white());
    assert_eq!(v.len(), 2);
    assert_eq!(&v[0].s, "a");
    assert_eq!(v[0].style, None);
    assert_eq!(&v[1].s, " ");
    assert_ne!(v[1].style, None);
}

#[test]
fn text_style_adapter_test_cursorify4() {
    let s = StyledString::new("".into(), None);
    let v = cursorify(s, 0, white());
    assert_eq!(v.len(), 2);
    assert_eq!(v[0].style, None);
    assert_ne!(v[1].style, None);
}

#[test]
fn unicode_test_cursorify2() {
    let mut w = StyledStringWriter::default();
    w.write_str("▣what the fuck");
    w.set_foreground(AnsiColor::Black.light());
    w.write_str("▣huh");
    let v = w.drain_with_styled_cursor(white());
    assert_eq!(v.len(), 3);
}

#[test]
fn unicode_test_cursorify3() {
    let s = StyledString::new("▣".into(), None);
    let v = cursorify(s, 0, white());
    assert_eq!(v.len(), 2);
    assert_eq!(&v[0].s, "");
    assert_eq!(v[0].style, None);
    assert_eq!(&v[1].s, "▣");
    assert_ne!(v[1].style, None);
}

#[test]
fn test_unicode_cursorify5() {
    let s = StyledString::new("▣".into(), None);
    let v: Vec<StyledString> = cursorify(s, 1, white());
    assert_eq!(v.len(), 2);
    assert_eq!(&v[0].s, "▣");
    assert_eq!(v[0].style, None);
    assert_eq!(&v[1].s, " ");
    assert_ne!(v[1].style, None);
}

#[test]
fn cursor_in_the_middle_splits_in_three() {
    let s = StyledString::new("abc".into(), None);
    let v = cursorify(s, 1, white());
    assert_eq!(v.len(), 3);
    assert_eq!(&v[0].s, "a");
    assert_eq!(&v[1].s, "b");
    assert_eq!(v[1].style, Some(TextStyle { fg: None, bg: Some(white()) }));
    assert_eq!(&v[2].s, "c");
}

#[test]
fn writes_in_one_style_extend_the_last_run() {
    let mut w = StyledStringWriter::default();
    w.write_str("ab");
    w.write_str("cd");
    assert_eq!(w.strings.len(), 1);
    assert_eq!(w.strings[0].s, "abcd");
    w.set_foreground(AnsiColor::Red.dark());
    w.write_str("e");
    assert_eq!(w.strings.len(), 2);
    w.reset_color();
    w.write_str("f");
    assert_eq!(w.strings.len(), 3);
    let all: String = w.strings.iter().map(|s| s.s.as_str()).collect();
    assert_eq!(all, "abcdef");
}
