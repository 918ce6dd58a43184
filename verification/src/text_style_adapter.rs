//! Drawing into styled strings: a writer that keeps runs of text with their
//! colors, and shows the cursor as a highlighted character.
use vstd::prelude::*;

use crate::strings::{char_count, push_str, substring};
use crate::utils::renderer::{next_draw_time, Color, DrawTime};

verus! {

/// The colors of a run of text.
#[derive(Debug, Clone, Copy, PartialEq, Eq, Structural, Default)]
pub struct TextStyle {
    pub fg: Option<Color>,
    pub bg: Option<Color>,
}

/// A run of text with its style.
#[derive(Debug)]
pub struct StyledString {
    pub s: String,
    pub style: Option<TextStyle>,
}

impl View for StyledString {
    type V = (Seq<char>, Option<TextStyle>);

    open spec fn view(&self) -> (Seq<char>, Option<TextStyle>) {
        (self.s@, self.style)
    }
}

/// The styles as values, one per run.
pub open spec fn runs(v: Seq<StyledString>) -> Seq<(Seq<char>, Option<TextStyle>)> {
    v.map_values(|x: StyledString| x@)
}

/// `style` with the background set to `color`; no style counts as the default one.
pub open spec fn with_background(style: Option<TextStyle>, color: Color) -> Option<TextStyle> {
    match style {
        Some(st) => Some(TextStyle { bg: Some(color), ..st }),
        None => Some(TextStyle { fg: None, bg: Some(color) }),
    }
}

impl StyledString {
    /// A run of `s` in `style`.
    pub fn new(s: String, style: Option<TextStyle>) -> (r: Self)
        ensures
            r.s == s,
            r.style == style,
    {
        StyledString { s, style }
    }

    /// The run with its background set to `color`.
    pub fn on(self, color: Color) -> (r: Self)
        ensures
            r.s == self.s,
            r.style == with_background(self.style, color),
    {
        let style = match self.style {
            Some(st) => TextStyle { fg: st.fg, bg: Some(color) },
            None => TextStyle { fg: None, bg: Some(color) },
        };
        StyledString { s: self.s, style: Some(style) }
    }
}

/// Whether two styles are the same.
pub fn same_style(a: &Option<TextStyle>, b: &Option<TextStyle>) -> (r: bool)
    ensures
        r == (*a == *b),
{
    match (a, b) {
        (None, None) => true,
        (Some(x), Some(y)) => same_color(&x.fg, &y.fg) && same_color(&x.bg, &y.bg),
        _ => false,
    }
}

/// Whether two colors (or their absence) are the same.
fn same_color(a: &Option<Color>, b: &Option<Color>) -> (r: bool)
    ensures
        r == (*a == *b),
{
    match (a, b) {
        (None, None) => true,
        (Some(x), Some(y)) => *x == *y,
        _ => false,
    }
}

/// The pieces that show a cursor at character `i` of the run `(s, style)`:
/// the text before it, the character under it (a space past the end) on the
/// cursor color, and the text after it, if any.
pub open spec fn spec_cursorify(s: Seq<char>, style: Option<TextStyle>, i: nat, color: Color) -> Seq<(Seq<char>, Option<TextStyle>)> {
    let under = if i < s.len() { seq![s[i as int]] } else { seq![' '] };
    let front = seq![(s.take(i as int), style), (under, with_background(style, color))];
    if i + 1 < s.len() {
        front.push((s.skip(i + 1int), style))
    } else {
        front
    }
}

/// Splits a run into the text before the cursor, the character under the
/// cursor on `cursor_color`, and the text after it.
pub fn cursorify(cs: StyledString, i: usize, cursor_color: Color) -> (r: Vec<StyledString>)
    requires
        i <= cs.s@.len(),
    ensures
        runs(r@) == spec_cursorify(cs.s@, cs.style, i as nat, cursor_color),
{
    let n = char_count(cs.s.as_str());
    let left = substring(cs.s.as_str(), 0, i);
    let under = if i < n {
        substring(cs.s.as_str(), i, i + 1)
    } else {
        crate::strings::owned(" ")
    };
    proof {
        reveal_strlit(" ");
        if i < n {
            assert(cs.s@.subrange(i as int, i + 1) == seq![cs.s@[i as int]]);
        }
        assert(cs.s@.subrange(0, i as int) == cs.s@.take(i as int));
    }
    let style = cs.style;
    let mut out: Vec<StyledString> = Vec::new();
    out.push(StyledString::new(left, style));
    out.push(StyledString::new(under, style).on(cursor_color));
    if i < n && i + 1 < n {
        let right = substring(cs.s.as_str(), i + 1, n);
        proof {
            assert(cs.s@.subrange(i + 1, n as int) == cs.s@.skip(i + 1));
        }
        out.push(StyledString::new(right, style));
    }
    proof {
        let under_v = if i < cs.s@.len() { seq![cs.s@[i as int]] } else { seq![' '] };
        assert(out@[0]@ == (cs.s@.take(i as int), cs.style));
        assert(out@[1]@ == (under_v, with_background(cs.style, cursor_color)));
        if i + 1 < n {
            assert(out@[2]@ == (cs.s@.skip(i + 1), cs.style));
            assert(runs(out@) =~= seq![out@[0]@, out@[1]@, out@[2]@]);
        } else {
            assert(runs(out@) =~= seq![out@[0]@, out@[1]@]);
        }
    }
    out
}

/// Moves the runs of `pieces` to the end of `out`, in order.
fn append_runs(out: &mut Vec<StyledString>, pieces: Vec<StyledString>)
    ensures
        runs(final(out)@) == runs(old(out)@) + runs(pieces@),
{
    let mut rest = pieces;
    let ghost all = rest@;
    let ghost base = out@;
    let mut m: usize = 0;
    let n = rest.len();
    while rest.len() > 0
        invariant
            m + rest@.len() == n,
            n == all.len(),
            rest@ == all.skip(m as int),
            out@ == base + all.take(m as int),
        decreases rest@.len(),
    {
        let piece = rest.remove(0);
        proof {
            assert(piece == all[m as int]);
            assert(rest@ == all.skip(m + 1));
            assert(all.take(m + 1) == all.take(m as int).push(piece));
        }
        out.push(piece);
        m = m + 1;
    }
    proof {
        assert(all.take(n as int) == all);
        assert(runs(base + all) == runs(base) + runs(all));
    }
}

/// The drawing state of a writer.
#[derive(Debug, Default, Clone, Copy)]
pub struct RendererState {
    pub draw_time: DrawTime,
    pub cursor_visible: bool,
    pub newline_count: u16,
}

/// A cursor position: character `len` of run `index`.
#[derive(Debug, Clone, Copy, Default, PartialEq, Eq, Structural)]
pub struct CursorPos {
    pub index: usize,
    pub len: usize,
}

/// A writer of styled runs: text in the same style as the last run extends it.
#[derive(Debug, Default)]
pub struct StyledStringWriter {
    pub style: Option<TextStyle>,
    pub strings: Vec<StyledString>,
    pub state: RendererState,
    pub cursor_pos: Option<CursorPos>,
    pub cursor_pos_save: Option<CursorPos>,
}

/// The runs after writing `s` in `style`: the last run grows if it has that style.
pub open spec fn spec_write(v: Seq<(Seq<char>, Option<TextStyle>)>, s: Seq<char>, style: Option<TextStyle>) -> Seq<(Seq<char>, Option<TextStyle>)> {
    if v.len() > 0 && v.last().1 == style {
        v.drop_last().push((v.last().0 + s, style))
    } else {
        v.push((s, style))
    }
}

/// The style after setting the foreground to `color`.
pub open spec fn with_foreground(style: Option<TextStyle>, color: Color) -> Option<TextStyle> {
    match style {
        Some(st) => Some(TextStyle { fg: Some(color), ..st }),
        None => Some(TextStyle { fg: Some(color), bg: None }),
    }
}

impl StyledStringWriter {
    /// The runs written so far, as values.
    pub open spec fn view_runs(&self) -> Seq<(Seq<char>, Option<TextStyle>)> {
        runs(self.strings@)
    }

    /// Forgets the drawing state and the cursor positions; the runs stay.
    pub fn clear(&mut self)
        ensures
            final(self).state.draw_time == DrawTime::First,
            !final(self).state.cursor_visible,
            final(self).state.newline_count == 0,
            final(self).cursor_pos is None,
            final(self).cursor_pos_save is None,
            final(self).view_runs() == old(self).view_runs(),
            final(self).style == old(self).style,
    {
        self.state = RendererState { draw_time: DrawTime::First, cursor_visible: false, newline_count: 0 };
        self.cursor_pos = None;
        self.cursor_pos_save = None;
    }

    /// Writes `s` in the current style.
    pub fn write_str(&mut self, s: &str)
        ensures
            final(self).view_runs() == spec_write(old(self).view_runs(), s@, old(self).style),
            final(self).style == old(self).style,
            final(self).state == old(self).state,
            final(self).cursor_pos == old(self).cursor_pos,
            final(self).cursor_pos_save == old(self).cursor_pos_save,
    {
        let ghost before = self.strings@;
        match self.strings.pop() {
            None => {
                self.strings.push(StyledString::new(s.to_owned(), self.style));
                proof {
                    assert(runs(self.strings@) == runs(before).push((s@, old(self).style)));
                }
            },
            Some(mut text) => {
                if same_style(&text.style, &self.style) {
                    push_str(&mut text.s, s);
                    self.strings.push(text);
                    proof {
                        assert(runs(self.strings@) == runs(before).drop_last().push((before.last().s@ + s@, old(self).style)));
                    }
                } else {
                    self.strings.push(text);
                    self.strings.push(StyledString::new(s.to_owned(), self.style));
                    proof {
                        assert(self.strings@.drop_last() == before);
                        assert(runs(self.strings@) == runs(before).push((s@, old(self).style)));
                    }
                }
            },
        }
    }

    /// The current draw time.
    pub fn draw_time(&self) -> (t: DrawTime)
        ensures
            t == self.state.draw_time,
    {
        self.state.draw_time
    }

    /// Goes to the next draw time.
    pub fn update_draw_time(&mut self)
        ensures
            final(self).state.draw_time == next_draw_time(old(self).state.draw_time),
            final(self).state.cursor_visible == old(self).state.cursor_visible,
            final(self).state.newline_count == old(self).state.newline_count,
            final(self).view_runs() == old(self).view_runs(),
            final(self).style == old(self).style,
            final(self).cursor_pos == old(self).cursor_pos,
            final(self).cursor_pos_save == old(self).cursor_pos_save,
    {
        self.state.draw_time = match self.state.draw_time {
            DrawTime::First => DrawTime::Update,
            _ => DrawTime::Last,
        };
    }

    /// Sets the text color of what follows.
    pub fn set_foreground(&mut self, color: Color)
        ensures
            final(self).style == with_foreground(old(self).style, color),
            final(self).view_runs() == old(self).view_runs(),
            final(self).state == old(self).state,
            final(self).cursor_pos == old(self).cursor_pos,
            final(self).cursor_pos_save == old(self).cursor_pos_save,
    {
        let st = match self.style {
            Some(st) => TextStyle { fg: Some(color), bg: st.bg },
            None => TextStyle { fg: Some(color), bg: None },
        };
        self.style = Some(st);
    }

    /// Sets the background color of what follows.
    pub fn set_background(&mut self, color: Color)
        ensures
            final(self).style == with_background(old(self).style, color),
            final(self).view_runs() == old(self).view_runs(),
            final(self).state == old(self).state,
            final(self).cursor_pos == old(self).cursor_pos,
            final(self).cursor_pos_save == old(self).cursor_pos_save,
    {
        let st = match self.style {
            Some(st) => TextStyle { fg: st.fg, bg: Some(color) },
            None => TextStyle { fg: None, bg: Some(color) },
        };
        self.style = Some(st);
    }

    /// Clears both colors of what follows.
    pub fn reset_color(&mut self)
        ensures
            final(self).style == Some(TextStyle { fg: None, bg: None }),
            final(self).view_runs() == old(self).view_runs(),
            final(self).state == old(self).state,
            final(self).cursor_pos == old(self).cursor_pos,
            final(self).cursor_pos_save == old(self).cursor_pos_save,
    {
        self.style = Some(TextStyle { fg: None, bg: None });
    }

    /// Hides the cursor.
    pub fn hide_cursor(&mut self)
        ensures
            !final(self).state.cursor_visible,
            final(self).state.draw_time == old(self).state.draw_time,
            final(self).state.newline_count == old(self).state.newline_count,
            final(self).view_runs() == old(self).view_runs(),
            final(self).style == old(self).style,
            final(self).cursor_pos == old(self).cursor_pos,
            final(self).cursor_pos_save == old(self).cursor_pos_save,
    {
        self.state.cursor_visible = false;
    }

    /// Shows the cursor.
    pub fn show_cursor(&mut self)
        ensures
            final(self).state.cursor_visible,
            final(self).state.draw_time == old(self).state.draw_time,
            final(self).state.newline_count == old(self).state.newline_count,
            final(self).view_runs() == old(self).view_runs(),
            final(self).style == old(self).style,
            final(self).cursor_pos == old(self).cursor_pos,
            final(self).cursor_pos_save == old(self).cursor_pos_save,
    {
        self.state.cursor_visible = true;
    }

    /// The cursor position: the one set, or the end of the last run (an empty
    /// run in the current style is added when there is none).
    pub fn get_cursor_pos(&mut self) -> (c: CursorPos)
        ensures
            old(self).strings@.len() == 0 ==> final(self).view_runs() == seq![(Seq::<char>::empty(), old(self).style)],
            old(self).strings@.len() > 0 ==> final(self).strings@ == old(self).strings@,
            old(self).strings@.len() == 0 ==> final(self).strings@.len() == 1 && final(self).strings@[0].s@.len() == 0,
            final(self).strings@.len() > 0,
            c == match old(self).cursor_pos {
                Some(p) => p,
                None => CursorPos {
                    index: (final(self).strings@.len() - 1) as usize,
                    len: final(self).strings@.last().s@.len() as usize,
                },
            },
            final(self).style == old(self).style,
            final(self).state == old(self).state,
            final(self).cursor_pos == old(self).cursor_pos,
            final(self).cursor_pos_save == old(self).cursor_pos_save,
    {
        if self.strings.len() == 0 {
            self.strings.push(StyledString::new(String::new(), self.style));
            proof {
                assert(runs(self.strings@) == seq![(Seq::<char>::empty(), old(self).style)]);
            }
        }
        match self.cursor_pos {
            None => {
                let last = self.strings.len() - 1;
                CursorPos { index: last, len: char_count(self.strings[last].s.as_str()) }
            },
            Some(c) => c,
        }
    }

    /// Moves the cursor `x` characters right (not on the last draw).
    pub fn move_cursor(&mut self, x: usize, y: usize)
        requires
            old(self).cursor_pos matches Some(p) ==> p.len + x <= usize::MAX,
            old(self).cursor_pos is None && old(self).strings@.len() > 0 ==> old(self).strings@.last().s@.len() + x <= usize::MAX,
            old(self).cursor_pos is None ==> x <= usize::MAX,
        ensures
            old(self).state.draw_time == DrawTime::Last ==> final(self).cursor_pos == old(self).cursor_pos
                && final(self).view_runs() == old(self).view_runs(),
            old(self).state.draw_time != DrawTime::Last ==> {
                &&& old(self).cursor_pos matches Some(p) ==> final(self).cursor_pos == Some(CursorPos { index: p.index, len: (p.len + x) as usize })
                &&& old(self).cursor_pos is None ==> final(self).cursor_pos == Some(CursorPos {
                    index: (final(self).strings@.len() - 1) as usize,
                    len: (final(self).strings@.last().s@.len() + x) as usize,
                })
            },
            final(self).style == old(self).style,
            final(self).state == old(self).state,
            final(self).cursor_pos_save == old(self).cursor_pos_save,
    {
        if let DrawTime::Last = self.state.draw_time {
            return;
        }
        let c = self.get_cursor_pos();
        self.cursor_pos = Some(CursorPos { index: c.index, len: c.len + x });
    }

    /// Remembers the cursor position.
    pub fn save_cursor(&mut self)
        ensures
            final(self).cursor_pos_save == Some(match old(self).cursor_pos {
                Some(p) => p,
                None => CursorPos {
                    index: (final(self).strings@.len() - 1) as usize,
                    len: final(self).strings@.last().s@.len() as usize,
                },
            }),
            final(self).strings@.len() > 0,
            final(self).style == old(self).style,
            final(self).state == old(self).state,
            final(self).cursor_pos == old(self).cursor_pos,
    {
        let c = self.get_cursor_pos();
        self.cursor_pos_save = Some(c);
    }

    /// Goes back to the remembered cursor position.
    pub fn restore_cursor(&mut self)
        ensures
            final(self).cursor_pos == old(self).cursor_pos_save,
            final(self).cursor_pos_save == old(self).cursor_pos_save,
            final(self).view_runs() == old(self).view_runs(),
            final(self).style == old(self).style,
            final(self).state == old(self).state,
    {
        self.cursor_pos = self.cursor_pos_save;
    }

    /// Takes the runs, the run under the cursor split to highlight the cursor
    /// on `color`.
    pub fn drain_with_styled_cursor(&mut self, color: Color) -> (r: Vec<StyledString>)
        requires
            old(self).cursor_pos matches Some(p) ==> p.index < old(self).strings@.len() && p.len <= old(self).strings@[p.index as int].s@.len(),
        ensures
            ({
                let v = if old(self).strings@.len() == 0 {
                    seq![(Seq::<char>::empty(), old(self).style)]
                } else {
                    old(self).view_runs()
                };
                let p = match old(self).cursor_pos {
                    Some(p) => p,
                    None => CursorPos { index: (v.len() - 1) as usize, len: v.last().0.len() as usize },
                };
                runs(r@) == v.take(p.index as int) + spec_cursorify(v[p.index as int].0, v[p.index as int].1, p.len as nat, color)
                    + v.skip(p.index + 1)
            }),
            final(self).strings@.len() == 0,
            final(self).style == old(self).style,
            final(self).state == old(self).state,
            final(self).cursor_pos == old(self).cursor_pos,
            final(self).cursor_pos_save == old(self).cursor_pos_save,
    {
        let cursor_pos = self.get_cursor_pos();
        let ghost v = self.view_runs();
        let mut strings = Vec::new();
        std::mem::swap(&mut strings, &mut self.strings);
        let ghost all = strings@;
        let n = strings.len();
        let mut out: Vec<StyledString> = Vec::new();
        let mut k: usize = 0;
        let idx = cursor_pos.index;
        proof {
            assert(runs(all) == v);
            assert(v[idx as int] == all[idx as int]@);
        }
        while strings.len() > 0
            invariant
                runs(all) == v,
                n == all.len(),
                idx < n,
                cursor_pos.len <= all[idx as int].s@.len(),
                k + strings@.len() == n,
                strings@ == all.skip(k as int),
                runs(out@) == if k <= idx {
                    v.take(k as int)
                } else {
                    v.take(idx as int) + spec_cursorify(v[idx as int].0, v[idx as int].1, cursor_pos.len as nat, color)
                        + v.subrange(idx + 1, k as int)
                },
                self.strings@.len() == 0,
                self.style == old(self).style,
                self.state == old(self).state,
                self.cursor_pos == old(self).cursor_pos,
                self.cursor_pos_save == old(self).cursor_pos_save,
            decreases strings@.len(),
        {
            let item = strings.remove(0);
            let ghost before = out@;
            proof {
                assert(item == all[k as int]);
                assert(strings@ == all.skip(k + 1));
                assert(v[k as int] == item@);
                assert(v.take(k + 1) == v.take(k as int).push(v[k as int]));
            }
            if k == idx {
                let pieces = cursorify(item, cursor_pos.len, color);
                append_runs(&mut out, pieces);
            } else {
                out.push(item);
                proof {
                    assert(runs(out@) == runs(before).push(item@));
                    if k > idx {
                        assert(v.subrange(idx + 1, k + 1) == v.subrange(idx + 1, k as int).push(v[k as int]));
                    }
                }
            }
            k = k + 1;
        }
        proof {
            assert(v.subrange(idx + 1, n as int) == v.skip(idx + 1));
        }
        out
    }
}

} // verus!
