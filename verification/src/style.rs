//! Styles: what is drawn at the beginning and at the end of each section of a prompt.
use vstd::prelude::*;

use crate::strings::{repeat, repeat_seq};
use crate::utils::renderer::{dark, light, AnsiColor, Mark, Renderer};

verus! {

/// State flags of an option of a list.
#[derive(Debug, Clone, Copy, PartialEq, Eq, Structural)]
pub struct Flags {
    pub bits: u8,
}

impl Flags {
    /// The option is focused.
    pub open spec fn spec_focused() -> Flags {
        Flags { bits: 1 }
    }

    /// The option is selected.
    pub open spec fn spec_selected() -> Flags {
        Flags { bits: 2 }
    }

    /// The option is disabled.
    pub open spec fn spec_disabled() -> Flags {
        Flags { bits: 4 }
    }

    /// No flag.
    pub fn empty() -> (r: Flags)
        ensures
            r.bits == 0,
    {
        Flags { bits: 0 }
    }

    /// The flag of a focused option.
    pub fn focused() -> (r: Flags)
        ensures
            r == Self::spec_focused(),
    {
        Flags { bits: 1 }
    }

    /// The flag of a selected option.
    pub fn selected() -> (r: Flags)
        ensures
            r == Self::spec_selected(),
    {
        Flags { bits: 2 }
    }

    /// The flag of a disabled option.
    pub fn disabled() -> (r: Flags)
        ensures
            r == Self::spec_disabled(),
    {
        Flags { bits: 4 }
    }

    /// Whether all flags of `other` are set in `self`.
    pub open spec fn spec_contains(self, other: Flags) -> bool {
        self.bits & other.bits == other.bits
    }

    /// Whether all flags of `other` are set in `self`.
    pub fn contains(self, other: Flags) -> (r: bool)
        ensures
            r == self.spec_contains(other),
    {
        self.bits & other.bits == other.bits
    }

    /// The flags of both.
    pub fn union(self, other: Flags) -> (r: Flags)
        ensures
            r.bits == self.bits | other.bits,
    {
        Flags { bits: self.bits | other.bits }
    }
}

/// The parts of a prompt that a style decorates.
#[derive(Clone, Copy, Debug)]
pub enum Section {
    /// The question; `true` once answered.
    Query(bool),
    /// The answer; `true` if it is shown.
    Answer(bool),
    DefaultAnswer,
    Message,
    /// The call to action of a message.
    Action,
    /// An option of a toggle; `true` if selected.
    Toggle(bool),
    Option(Flags),
    OptionExclusive(Flags),
    List,
    /// An item of a list; `true` for the first one.
    ListItem(bool),
    Placeholder,
    /// The validation message; `true` if valid.
    Validator(bool),
    Input,
    /// Page `i` of `count`.
    Page(u8, u8),
    Custom(&'static str),
}

/// How a prompt is decorated, section by section.
pub trait Style {
    /// The style can begin `section`.
    spec fn supports(&self, section: Section) -> bool;

    /// What the style draws at the beginning of `section`.
    spec fn begin_marks(&self, section: Section) -> Seq<Mark>;

    /// What the style draws at the end of `section`.
    spec fn end_marks(&self, section: Section) -> Seq<Mark>;

    fn begin(&self, r: &mut Renderer, section: Section)
        requires
            self.supports(section),
        ensures
            final(r).log() == old(r).log() + self.begin_marks(section),
            final(r).draw_time == old(r).draw_time,
    ;

    fn end(&self, r: &mut Renderer, section: Section)
        ensures
            final(r).log() == old(r).log() + self.end_marks(section),
            final(r).draw_time == old(r).draw_time,
    ;
}

/// The style of the prompts, with Unicode symbols or, if `ascii`, plain ASCII.
#[derive(Clone, Copy, Debug, Default)]
pub struct DefaultStyle {
    pub ascii: bool,
}

/// `a` if ASCII is asked for, else `u`.
pub open spec fn pick(ascii: bool, a: &str, u: &str) -> Seq<char> {
    if ascii { a@ } else { u@ }
}

/// The symbol and color of an exclusive option, then a space, then the title color.
pub open spec fn option_exclusive_marks(ascii: bool, flags: Flags) -> Seq<Mark> {
    let focused = flags.spec_contains(Flags::spec_focused());
    let disabled = flags.spec_contains(Flags::spec_disabled());
    let symbol = if !focused {
        seq![Mark::Foreground(light(AnsiColor::Black)), Mark::Print(pick(ascii, "( )", "○")), Mark::ResetColor]
    } else if disabled {
        seq![Mark::Foreground(dark(AnsiColor::Red)), Mark::Print(pick(ascii, "( )", "○")), Mark::ResetColor]
    } else {
        seq![Mark::Foreground(dark(AnsiColor::Blue)), Mark::Print(pick(ascii, "(x)", "●")), Mark::ResetColor]
    };
    symbol + seq![Mark::Print(" "@)] + title_marks(flags)
}

/// The color of an option's title: grey when disabled, blue when focused.
pub open spec fn title_marks(flags: Flags) -> Seq<Mark> {
    let focused = flags.spec_contains(Flags::spec_focused());
    let disabled = flags.spec_contains(Flags::spec_disabled());
    if disabled {
        seq![Mark::Foreground(light(AnsiColor::Black))]
    } else if focused {
        seq![Mark::Foreground(dark(AnsiColor::Blue))]
    } else {
        Seq::empty()
    }
}

/// The symbol and color of an option of a multiple choice, then a space, then the title color.
pub open spec fn option_marks(ascii: bool, flags: Flags) -> Seq<Mark> {
    let focused = flags.spec_contains(Flags::spec_focused());
    let selected = flags.spec_contains(Flags::spec_selected());
    let disabled = flags.spec_contains(Flags::spec_disabled());
    let prefix = if selected && focused {
        pick(ascii, "(o)", "◉")
    } else if selected {
        pick(ascii, "(x)", "●")
    } else {
        pick(ascii, "( )", "○")
    };
    let color = if focused && disabled {
        Mark::Foreground(dark(AnsiColor::Red))
    } else if focused {
        Mark::Foreground(dark(AnsiColor::Blue))
    } else if selected {
        Mark::ResetColor
    } else {
        Mark::Foreground(light(AnsiColor::Black))
    };
    seq![color, Mark::Print(prefix), Mark::ResetColor, Mark::Print(" "@)] + title_marks(flags)
}

/// The page indicator: one icon per page, the current one highlighted; nothing for a single page.
pub open spec fn page_marks(ascii: bool, i: u8, count: u8) -> Seq<Mark> {
    if count != 1 {
        let icon = pick(ascii, "*", "•");
        let after: nat = if count >= i + 1 { (count - (i + 1)) as nat } else { 0 };
        seq![
            Mark::Print("\n"@),
            Mark::Print(repeat_seq(" "@, if ascii { 4 } else { 2 })),
            Mark::Foreground(light(AnsiColor::Black)),
            Mark::Print(repeat_seq(icon, i as nat)),
            Mark::ResetColor,
            Mark::Print(icon),
            Mark::Foreground(light(AnsiColor::Black)),
            Mark::Print(repeat_seq(icon, after)),
            Mark::ResetColor,
            Mark::Print("\n"@),
        ]
    } else {
        Seq::empty()
    }
}

impl Style for DefaultStyle {
    open spec fn supports(&self, section: Section) -> bool {
        match section {
            Section::DefaultAnswer | Section::Action | Section::Custom(_) => false,
            Section::Page(i, count) => count == 1 || i < 255,
            _ => true,
        }
    }

    open spec fn begin_marks(&self, section: Section) -> Seq<Mark> {
        let a = self.ascii;
        match section {
            Section::Query(answered) => if answered {
                seq![Mark::Foreground(dark(AnsiColor::Green)), Mark::Print(pick(a, "[x]", "■")), Mark::ResetColor, Mark::Print(" "@)]
            } else {
                seq![Mark::Foreground(dark(AnsiColor::Blue)), Mark::Print(pick(a, "[ ]", "▣")), Mark::ResetColor, Mark::Print(" "@)]
            },
            Section::Answer(show) => if show {
                seq![Mark::Foreground(dark(AnsiColor::Magenta))]
            } else {
                seq![Mark::Foreground(dark(AnsiColor::Magenta)), Mark::Print(pick(a, "...", "…"))]
            },
            Section::Toggle(selected) => if selected {
                seq![Mark::Foreground(dark(AnsiColor::Black)), Mark::Background(dark(AnsiColor::Blue)), Mark::Print(" "@)]
            } else {
                seq![Mark::Foreground(dark(AnsiColor::White)), Mark::Background(light(AnsiColor::Black)), Mark::Print(" "@)]
            },
            Section::OptionExclusive(flags) => option_exclusive_marks(a, flags),
            Section::Option(flags) => option_marks(a, flags),
            Section::Message => Seq::empty(),
            Section::Validator(valid) => seq![Mark::Foreground(if valid { dark(AnsiColor::Blue) } else { dark(AnsiColor::Red) })],
            Section::Placeholder => seq![Mark::Foreground(light(AnsiColor::Black)), Mark::Print("Default: "@)],
            Section::Input => seq![Mark::Foreground(dark(AnsiColor::Blue)), Mark::Print(pick(a, ">", "›")), Mark::ResetColor, Mark::Print(" "@)],
            Section::List => seq![Mark::Print("["@)],
            Section::ListItem(first) => if first { Seq::empty() } else { seq![Mark::Print(", "@)] },
            Section::Page(i, count) => page_marks(a, i, count),
            _ => Seq::empty(),
        }
    }

    open spec fn end_marks(&self, section: Section) -> Seq<Mark> {
        match section {
            Section::Query(answered) => if answered { seq![Mark::Print(" "@)] } else { seq![Mark::Print("\n"@)] },
            Section::Answer(_) => seq![Mark::ResetColor, Mark::Print("\n"@)],
            Section::Toggle(_) => seq![Mark::Print(" "@), Mark::ResetColor, Mark::Print("  "@)],
            Section::OptionExclusive(_) | Section::Option(_) => seq![Mark::Print("\n"@), Mark::ResetColor],
            Section::List => seq![Mark::Print("]"@)],
            Section::ListItem(_) => Seq::empty(),
            Section::Message => seq![Mark::Print("\n"@)],
            _ => seq![Mark::ResetColor],
        }
    }

    fn begin(&self, r: &mut Renderer, section: Section) {
        let a = self.ascii;
        match section {
            Section::Query(answered) => {
                if answered {
                    r.set_foreground(AnsiColor::Green.dark());
                    r.print(if a { "[x]" } else { "■" });
                    r.reset_color();
                    r.print(" ");
                } else {
                    r.set_foreground(AnsiColor::Blue.dark());
                    r.print(if a { "[ ]" } else { "▣" });
                    r.reset_color();
                    r.print(" ");
                }
            },
            Section::Answer(show) => {
                r.set_foreground(AnsiColor::Magenta.dark());
                if !show {
                    r.print(if a { "..." } else { "…" });
                }
            },
            Section::Toggle(selected) => {
                if selected {
                    r.set_foreground(AnsiColor::Black.dark());
                    r.set_background(AnsiColor::Blue.dark());
                    r.print(" ");
                } else {
                    r.set_foreground(AnsiColor::White.dark());
                    r.set_background(AnsiColor::Black.light());
                    r.print(" ");
                }
            },
            Section::OptionExclusive(flags) => {
                let focused = flags.contains(Flags::focused());
                let disabled = flags.contains(Flags::disabled());
                if !focused {
                    r.set_foreground(AnsiColor::Black.light());
                    r.print(if a { "( )" } else { "○" });
                    r.reset_color();
                } else if disabled {
                    r.set_foreground(AnsiColor::Red.dark());
                    r.print(if a { "( )" } else { "○" });
                    r.reset_color();
                } else {
                    r.set_foreground(AnsiColor::Blue.dark());
                    r.print(if a { "(x)" } else { "●" });
                    r.reset_color();
                }
                r.print(" ");
                begin_title(r, flags);
            },
            Section::Option(flags) => {
                let focused = flags.contains(Flags::focused());
                let selected = flags.contains(Flags::selected());
                let disabled = flags.contains(Flags::disabled());
                let prefix = if selected && focused {
                    if a { "(o)" } else { "◉" }
                } else if selected {
                    if a { "(x)" } else { "●" }
                } else {
                    if a { "( )" } else { "○" }
                };
                if focused && disabled {
                    r.set_foreground(AnsiColor::Red.dark());
                } else if focused {
                    r.set_foreground(AnsiColor::Blue.dark());
                } else if selected {
                    r.reset_color();
                } else {
                    r.set_foreground(AnsiColor::Black.light());
                }
                r.print(prefix);
                r.reset_color();
                r.print(" ");
                begin_title(r, flags);
            },
            Section::Message => {},
            Section::Validator(valid) => {
                r.set_foreground(if valid { AnsiColor::Blue.dark() } else { AnsiColor::Red.dark() });
            },
            Section::Placeholder => {
                r.set_foreground(AnsiColor::Black.light());
                r.print("Default: ");
            },
            Section::Input => {
                r.set_foreground(AnsiColor::Blue.dark());
                r.print(if a { ">" } else { "›" });
                r.reset_color();
                r.print(" ");
            },
            Section::List => r.print("["),
            Section::ListItem(first) => {
                if !first {
                    r.print(", ");
                }
            },
            Section::Page(i, count) => {
                if count != 1 {
                    let icon = if a { "*" } else { "•" };
                    let after: u8 = if count >= i + 1 { count - (i + 1) } else { 0 };
                    r.print("\n");
                    r.print(repeat(" ", if a { 4 } else { 2 }).as_str());
                    r.set_foreground(AnsiColor::Black.light());
                    r.print(repeat(icon, i as usize).as_str());
                    r.reset_color();
                    r.print(icon);
                    r.set_foreground(AnsiColor::Black.light());
                    r.print(repeat(icon, after as usize).as_str());
                    r.reset_color();
                    r.print("\n");
                }
            },
            _ => {},
        }
    }

    fn end(&self, r: &mut Renderer, section: Section) {
        match section {
            Section::Query(answered) => {
                if answered {
                    r.print(" ");
                } else {
                    r.print("\n");
                }
            },
            Section::Answer(_) => {
                r.reset_color();
                r.print("\n");
            },
            Section::Toggle(_) => {
                r.print(" ");
                r.reset_color();
                r.print("  ");
            },
            Section::OptionExclusive(_) | Section::Option(_) => {
                r.print("\n");
                r.reset_color();
            },
            Section::List => r.print("]"),
            Section::ListItem(_) => {},
            Section::Message => r.print("\n"),
            _ => r.reset_color(),
        }
    }
}

/// Sets the color of an option's title.
fn begin_title(r: &mut Renderer, flags: Flags)
    ensures
        final(r).log() == old(r).log() + title_marks(flags),
        final(r).draw_time == old(r).draw_time,
{
    let focused = flags.contains(Flags::focused());
    let disabled = flags.contains(Flags::disabled());
    if disabled {
        r.set_foreground(AnsiColor::Black.light());
    } else if focused {
        r.set_foreground(AnsiColor::Blue.dark());
    }
}

} // verus!
