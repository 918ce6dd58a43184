//! Drawing: what a prompt draws is recorded as a list of commands, which a
//! terminal (or any other front end) then carries out.
use vstd::prelude::*;

use crate::strings::{newlines_in, push_str};

verus! {

/// Enum that indicates the current draw time to format closures.
#[derive(Debug, Clone, Copy, PartialEq, Eq, Structural, Default)]
pub enum DrawTime {
    /// First time that a prompt is displayed.
    #[default]
    First,
    /// The prompt state has been updated.
    Update,
    /// The last time that a prompt is displayed.
    Last,
}

/// The draw time that follows `t`: `First` is followed by `Update`, the rest by `Last`.
pub open spec fn next_draw_time(t: DrawTime) -> DrawTime {
    match t {
        DrawTime::First => DrawTime::Update,
        _ => DrawTime::Last,
    }
}

/// The eight basic terminal colors.
#[derive(Debug, Clone, Copy, PartialEq, Eq, Structural)]
pub enum AnsiColor {
    Black,
    Red,
    Green,
    Yellow,
    Blue,
    Magenta,
    Cyan,
    White,
}

/// The dark or the light variant of a basic color.
#[derive(Debug, Clone, Copy, PartialEq, Eq, Structural)]
pub enum AnsiMode {
    Dark,
    Light,
}

/// A color of text or background.
#[derive(Debug, Clone, Copy, PartialEq, Eq, Structural)]
pub enum Color {
    Ansi { color: AnsiColor, mode: AnsiMode },
    Rgb { r: u8, g: u8, b: u8 },
}

impl AnsiColor {
    /// The dark variant of the color.
    pub fn dark(self) -> (c: Color)
        ensures
            c == (Color::Ansi { color: self, mode: AnsiMode::Dark }),
    {
        Color::Ansi { color: self, mode: AnsiMode::Dark }
    }

    /// The light variant of the color.
    pub fn light(self) -> (c: Color)
        ensures
            c == (Color::Ansi { color: self, mode: AnsiMode::Light }),
    {
        Color::Ansi { color: self, mode: AnsiMode::Light }
    }
}

/// The dark variant of `c`.
pub open spec fn dark(c: AnsiColor) -> Color {
    Color::Ansi { color: c, mode: AnsiMode::Dark }
}

/// The light variant of `c`.
pub open spec fn light(c: AnsiColor) -> Color {
    Color::Ansi { color: c, mode: AnsiMode::Light }
}

/// A drawing command.
#[derive(Debug)]
pub enum Cmd {
    /// Writes text.
    Print(String),
    /// Sets the text color.
    Foreground(Color),
    /// Sets the background color.
    Background(Color),
    /// Goes back to the default colors.
    ResetColor,
    /// Prepares the area of the prompt before it is drawn again.
    PrePrompt,
    /// Finishes drawing the prompt.
    PostPrompt,
    /// Places the cursor at a column and a line, counted from the prompt's start.
    SetCursor(usize, usize),
}

/// A drawing command as a mathematical value.
pub enum Mark {
    Print(Seq<char>),
    Foreground(Color),
    Background(Color),
    ResetColor,
    PrePrompt,
    PostPrompt,
    SetCursor(nat, nat),
}

impl View for Cmd {
    type V = Mark;

    open spec fn view(&self) -> Mark {
        match self {
            Cmd::Print(s) => Mark::Print(s@),
            Cmd::Foreground(c) => Mark::Foreground(*c),
            Cmd::Background(c) => Mark::Background(*c),
            Cmd::ResetColor => Mark::ResetColor,
            Cmd::PrePrompt => Mark::PrePrompt,
            Cmd::PostPrompt => Mark::PostPrompt,
            Cmd::SetCursor(x, y) => Mark::SetCursor(*x as nat, *y as nat),
        }
    }
}

/// The text that a sequence of commands writes.
pub open spec fn printed(marks: Seq<Mark>) -> Seq<char>
    decreases marks.len(),
{
    if marks.len() == 0 {
        Seq::empty()
    } else {
        printed(marks.drop_last()) + match marks.last() {
            Mark::Print(s) => s,
            _ => Seq::empty(),
        }
    }
}

/// Where prompts draw: the draw time, and the commands drawn so far.
pub struct Renderer {
    pub draw_time: DrawTime,
    pub cmds: Vec<Cmd>,
}

impl Renderer {
    /// The commands drawn so far, as values.
    pub open spec fn log(&self) -> Seq<Mark> {
        self.cmds@.map_values(|c: Cmd| c@)
    }

    /// A renderer for a first draw, with nothing drawn.
    pub fn new() -> (r: Self)
        ensures
            r.draw_time == DrawTime::First,
            r.log() == Seq::<Mark>::empty(),
    {
        Renderer { draw_time: DrawTime::First, cmds: Vec::new() }
    }

    /// The current draw time.
    pub fn draw_time(&self) -> (t: DrawTime)
        ensures
            t == self.draw_time,
    {
        self.draw_time
    }

    /// Goes to the next draw time.
    pub fn update_draw_time(&mut self)
        ensures
            final(self).draw_time == next_draw_time(old(self).draw_time),
            final(self).log() == old(self).log(),
    {
        self.draw_time = match self.draw_time {
            DrawTime::First => DrawTime::Update,
            _ => DrawTime::Last,
        };
    }

    /// Takes the commands drawn so far, leaving none.
    pub fn take(&mut self) -> (r: Vec<Cmd>)
        ensures
            r@.map_values(|c: Cmd| c@) == old(self).log(),
            final(self).log() == Seq::<Mark>::empty(),
            final(self).draw_time == old(self).draw_time,
    {
        let mut r = Vec::new();
        std::mem::swap(&mut r, &mut self.cmds);
        r
    }

    /// Records a command.
    pub fn emit(&mut self, cmd: Cmd)
        ensures
            final(self).log() == old(self).log().push(cmd@),
            final(self).draw_time == old(self).draw_time,
    {
        self.cmds.push(cmd);
        proof {
            assert(self.cmds@.map_values(|c: Cmd| c@) == old(self).cmds@.map_values(|c: Cmd| c@).push(cmd@));
        }
    }

    /// Writes text.
    pub fn print(&mut self, s: &str)
        ensures
            final(self).log() == old(self).log().push(Mark::Print(s@)),
            final(self).draw_time == old(self).draw_time,
    {
        self.emit(Cmd::Print(s.to_owned()));
    }

    /// Sets the text color.
    pub fn set_foreground(&mut self, color: Color)
        ensures
            final(self).log() == old(self).log().push(Mark::Foreground(color)),
            final(self).draw_time == old(self).draw_time,
    {
        self.emit(Cmd::Foreground(color));
    }

    /// Sets the background color.
    pub fn set_background(&mut self, color: Color)
        ensures
            final(self).log() == old(self).log().push(Mark::Background(color)),
            final(self).draw_time == old(self).draw_time,
    {
        self.emit(Cmd::Background(color));
    }

    /// Goes back to the default colors.
    pub fn reset_color(&mut self)
        ensures
            final(self).log() == old(self).log().push(Mark::ResetColor),
            final(self).draw_time == old(self).draw_time,
    {
        self.emit(Cmd::ResetColor);
    }

    /// Prepares the area of the prompt before it is drawn.
    pub fn pre_prompt(&mut self)
        ensures
            final(self).log() == old(self).log().push(Mark::PrePrompt),
            final(self).draw_time == old(self).draw_time,
    {
        self.emit(Cmd::PrePrompt);
    }

    /// Finishes drawing the prompt.
    pub fn post_prompt(&mut self)
        ensures
            final(self).log() == old(self).log().push(Mark::PostPrompt),
            final(self).draw_time == old(self).draw_time,
    {
        self.emit(Cmd::PostPrompt);
    }

    /// Places the cursor, relative to the start of the prompt.
    pub fn set_cursor(&mut self, x: usize, y: usize)
        ensures
            final(self).log() == old(self).log().push(Mark::SetCursor(x as nat, y as nat)),
            final(self).draw_time == old(self).draw_time,
    {
        self.emit(Cmd::SetCursor(x, y));
    }
}

/// The number of `'\n'` characters in `input`.
pub fn count_newlines(input: &str) -> (n: usize)
    ensures
        n == newlines_in(input@),
{
    let total = crate::strings::char_count(input);
    let mut n: usize = 0;
    let mut i: usize = 0;
    while i < total
        invariant
            total == input@.len(),
            i <= total,
            n == newlines_in(input@.take(i as int)),
            n <= i,
        decreases total - i,
    {
        let c = input.get_char(i);
        proof {
            assert(input@.take(i + 1).drop_last() == input@.take(i as int));
            assert(input@.take(i + 1).last() == c);
        }
        if c == '\n' {
            n = n + 1;
        }
        i = i + 1;
    }
    proof {
        assert(input@.take(i as int) == input@);
    }
    n
}

/// A renderer that keeps only the text: colors and cursor moves are dropped.
#[derive(Clone, Default)]
pub struct StringRenderer {
    pub string: String,
    pub draw_time: DrawTime,
    pub line_count: u16,
}

impl StringRenderer {
    /// The current draw time.
    pub fn draw_time(&self) -> (t: DrawTime)
        ensures
            t == self.draw_time,
    {
        self.draw_time
    }

    /// Goes to the next draw time.
    pub fn update_draw_time(&mut self)
        ensures
            final(self).draw_time == next_draw_time(old(self).draw_time),
            final(self).string == old(self).string,
            final(self).line_count == old(self).line_count,
    {
        self.draw_time = match self.draw_time {
            DrawTime::First => DrawTime::Update,
            _ => DrawTime::Last,
        };
    }

    /// Appends text, counting its newlines.
    pub fn write_str(&mut self, s: &str)
        requires
            old(self).line_count + newlines_in(s@) <= u16::MAX,
        ensures
            final(self).string@ == old(self).string@ + s@,
            final(self).line_count == old(self).line_count + newlines_in(s@),
            final(self).draw_time == old(self).draw_time,
    {
        let n = count_newlines(s);
        self.line_count = self.line_count + n as u16;
        push_str(&mut self.string, s);
    }

    /// Writes the text of the given commands, in order.
    pub fn render(&mut self, cmds: &Vec<Cmd>)
        requires
            old(self).line_count + newlines_in(printed(cmds@.map_values(|c: Cmd| c@))) <= u16::MAX,
        ensures
            final(self).string@ == old(self).string@ + printed(cmds@.map_values(|c: Cmd| c@)),
            final(self).line_count == old(self).line_count + newlines_in(printed(cmds@.map_values(|c: Cmd| c@))),
            final(self).draw_time == old(self).draw_time,
    {
        let n = cmds.len();
        let mut i: usize = 0;
        let ghost marks = cmds@.map_values(|c: Cmd| c@);
        while i < n
            invariant
                n == cmds@.len(),
                i <= n,
                marks == cmds@.map_values(|c: Cmd| c@),
                old(self).line_count + newlines_in(printed(marks)) <= u16::MAX,
                self.string@ == old(self).string@ + printed(marks.take(i as int)),
                self.line_count == old(self).line_count + newlines_in(printed(marks.take(i as int))),
                self.draw_time == old(self).draw_time,
            decreases n - i,
        {
            proof {
                assert(marks.take(i + 1).drop_last() == marks.take(i as int));
                assert(marks.take(i + 1).last() == cmds@[i as int]@);
                lemma_newlines_concat(printed(marks.take(i as int)), printed(marks.take(i + 1)).skip(printed(marks.take(i as int)).len() as int));
                lemma_printed_prefix_monotone(marks, i + 1);
            }
            match &cmds[i] {
                Cmd::Print(s) => {
                    proof {
                        assert(printed(marks.take(i + 1)) == printed(marks.take(i as int)) + s@);
                        lemma_newlines_concat(printed(marks.take(i as int)), s@);
                    }
                    self.write_str(s.as_str());
                },
                _ => {
                    proof {
                        assert(printed(marks.take(i + 1)) == printed(marks.take(i as int)) + Seq::<char>::empty());
                        assert(printed(marks.take(i as int)) + Seq::<char>::empty() == printed(marks.take(i as int)));
                    }
                },
            }
            i = i + 1;
        }
        proof {
            assert(marks.take(n as int) == marks);
        }
    }
}

/// Newlines add up over concatenation.
pub proof fn lemma_newlines_concat(a: Seq<char>, b: Seq<char>)
    ensures
        newlines_in(a + b) == newlines_in(a) + newlines_in(b),
    decreases b.len(),
{
    if b.len() == 0 {
        assert(a + b == a);
    } else {
        lemma_newlines_concat(a, b.drop_last());
        assert((a + b).drop_last() == a + b.drop_last());
    }
}

/// The text of a prefix of commands is a prefix of their text, so it has no more newlines.
pub proof fn lemma_printed_prefix_monotone(marks: Seq<Mark>, k: int)
    requires
        0 <= k <= marks.len(),
    ensures
        newlines_in(printed(marks.take(k))) <= newlines_in(printed(marks)),
    decreases marks.len() - k,
{
    if k < marks.len() {
        lemma_printed_prefix_monotone(marks, k + 1);
        assert(marks.take(k + 1).drop_last() == marks.take(k));
        let tail = match marks.take(k + 1).last() {
            Mark::Print(s) => s,
            _ => Seq::empty(),
        };
        lemma_newlines_concat(printed(marks.take(k)), tail);
    } else {
        assert(marks.take(k) == marks);
    }
}

} // verus!
