//! The default theme: each prompt as colored pieces of text.
use vstd::prelude::*;

use crate::prompts::confirm::Confirm;
use crate::prompts::message::{cow_str, Message};
use crate::prompts::number::Number;
use crate::prompts::multi_select::MultiSelect;
use crate::prompts::password::Password;
use crate::prompts::select::{page_bounds, spec_count_pages, spec_page_end, spec_page_focused, spec_page_start, Select, SelectInput, SelectOption};
use crate::prompts::text::Text;
use crate::prompts::toggle::Toggle;
use crate::prompts::validator::Validator;
use crate::strings::{char_count, decimal, owned, push_str, repeat, repeat_seq, spec_decimal};
use crate::utils::colored_strings::{piece, ColoredString, ColoredStrings, Piece};
use crate::utils::num_like::NumLike;
use crate::utils::renderer::{dark, light, AnsiColor, Color, DrawTime};

verus! {

/// Blue.
pub open spec fn blue() -> Option<Color> { Some(dark(AnsiColor::Blue)) }
/// Green.
pub open spec fn green() -> Option<Color> { Some(dark(AnsiColor::Green)) }
/// Purple.
pub open spec fn purple() -> Option<Color> { Some(dark(AnsiColor::Magenta)) }
/// Red.
pub open spec fn red() -> Option<Color> { Some(dark(AnsiColor::Red)) }
/// Yellow.
pub open spec fn yellow() -> Option<Color> { Some(dark(AnsiColor::Yellow)) }
/// Grey.
pub open spec fn bright_black() -> Option<Color> { Some(light(AnsiColor::Black)) }

// region: general

/// The message of an active prompt: a blue mark, then the message.
pub open spec fn spec_msg(message: Seq<char>) -> Seq<Piece> {
    seq![piece("▣"@, blue()), piece(" "@, None), piece(message, None)]
}

/// Adds the message of an active prompt.
pub fn fmt_msg2(message: &str, out: &mut ColoredStrings)
    ensures
        final(out).pieces() == old(out).pieces() + spec_msg(message@),
{
    out.push_str("▣", Some(AnsiColor::Blue.dark()));
    out.push_str(" ", None);
    out.push_str(message, None);
}

/// Adds `message` as it is.
pub fn fmt_echo(message: &str, out: &mut ColoredStrings)
    ensures
        final(out).pieces() == old(out).pieces().push(piece(message@, None)),
{
    out.push_str(message, None);
}

/// The message of an answered prompt: a green mark, the message, the answer in purple.
pub open spec fn spec_last_message(message: Seq<char>, answer: Seq<char>) -> Seq<Piece> {
    seq![piece("■"@, green()), piece(" "@, None), piece(message, None), piece(" "@, None), piece(answer, purple())]
}

/// Adds the message of an answered prompt with its answer.
pub fn fmt_last_message2(message: &str, answer: &str, out: &mut ColoredStrings)
    ensures
        final(out).pieces() == old(out).pieces() + spec_last_message(message@, answer@),
{
    out.push_str("■", Some(AnsiColor::Green.dark()));
    out.push_str(" ", None);
    out.push_str(message, None);
    out.push_str(" ", None);
    out.push_str(answer, Some(AnsiColor::Magenta.dark()));
}

/// A message prompt is its message.
pub fn fmt_message2(prompt: &Message, _draw_time: DrawTime, out: &mut ColoredStrings)
    ensures
        final(out).pieces() == old(out).pieces().push(piece(prompt.message@, None)),
{
    out.push_str(cow_str(&prompt.message), None);
}

// endregion: general

// region: toggle

/// An option of a toggle, padded with a space on both sides: black on blue
/// when active, white on grey otherwise.
pub open spec fn spec_toggle_option(opt: Seq<char>, active: bool) -> Piece {
    let text = " "@ + opt + " "@;
    if active {
        (text, Some(dark(AnsiColor::Black)), Some(dark(AnsiColor::Blue)), false)
    } else {
        (text, Some(dark(AnsiColor::White)), Some(light(AnsiColor::Black)), false)
    }
}

fn toggle_option(opt: &str, active: bool) -> (r: ColoredString)
    ensures
        r@ == spec_toggle_option(opt@, active),
{
    let mut text = owned(" ");
    push_str(&mut text, opt);
    push_str(&mut text, " ");
    if active {
        ColoredString { input: text, fgcolor: Some(AnsiColor::Black.dark()), bgcolor: Some(AnsiColor::Blue.dark()), strikethrough: false }
    } else {
        ColoredString { input: text, fgcolor: Some(AnsiColor::White.dark()), bgcolor: Some(AnsiColor::Black.light()), strikethrough: false }
    }
}

/// The two options of a toggle, the second one active if `active`.
pub open spec fn spec_toggle_options(o0: Seq<char>, o1: Seq<char>, active: bool) -> Seq<Piece> {
    seq![spec_toggle_option(o0, !active), piece(" "@, None), spec_toggle_option(o1, active)]
}

/// Adds the two options of a toggle.
pub fn fmt_toggle_options3(options: [&str; 2], active: bool, out: &mut ColoredStrings)
    ensures
        final(out).pieces() == old(out).pieces() + spec_toggle_options(options[0]@, options[1]@, active),
{
    out.push(toggle_option(options[0], !active));
    out.push_str(" ", None);
    out.push(toggle_option(options[1], active));
}

/// Options of a toggle, the one at `active` highlighted, separated by spaces.
pub open spec fn spec_toggle_options_n(options: Seq<&str>, active: nat) -> Seq<Piece>
    decreases options.len(),
{
    if options.len() == 0 {
        Seq::empty()
    } else {
        let i = (options.len() - 1) as nat;
        let sep = if options.len() > 1 { seq![piece(" "@, None)] } else { Seq::empty() };
        spec_toggle_options_n(options.drop_last(), active) + sep + seq![spec_toggle_option(options.last()@, i == active)]
    }
}

/// Adds any number of options, the one at `active` highlighted.
pub fn fmt_toggle_options4(options: &[&str], active: usize, out: &mut ColoredStrings)
    ensures
        final(out).pieces() == old(out).pieces() + spec_toggle_options_n(options@, active as nat),
{
    let n = options.len();
    let mut i: usize = 0;
    let ghost base = out.pieces();
    while i < n
        invariant
            n == options@.len(),
            i <= n,
            out.pieces() == base + spec_toggle_options_n(options@.take(i as int), active as nat),
        decreases n - i,
    {
        proof {
            assert(options@.take(i + 1).drop_last() == options@.take(i as int));
            assert(options@.take(i + 1).last() == options@[i as int]);
        }
        if i > 0 {
            out.push_str(" ", None);
        }
        out.push(toggle_option(options[i], i == active));
        i = i + 1;
    }
    proof {
        assert(options@.take(n as int) == options@);
    }
}

/// The confirm prompt: answered, the message and `Yes` or `No`; else the message over the two options.
pub open spec fn spec_confirm(message: Seq<char>, active: bool, t: DrawTime) -> Seq<Piece> {
    if t == DrawTime::Last {
        spec_last_message(message, if active { "Yes"@ } else { "No"@ })
    } else {
        spec_msg(message) + seq![piece("\n"@, None)] + spec_toggle_options("No"@, "Yes"@, active)
    }
}

/// Adds the confirm prompt.
pub fn fmt_confirm(prompt: &Confirm, draw_time: DrawTime, out: &mut ColoredStrings)
    ensures
        final(out).pieces() == old(out).pieces() + spec_confirm(prompt.message@, prompt.active, draw_time),
{
    let options: [&str; 2] = ["No", "Yes"];
    if let DrawTime::Last = draw_time {
        fmt_last_message2(prompt.message, if prompt.active { options[1] } else { options[0] }, out);
        return;
    }
    fmt_msg2(prompt.message, out);
    out.push_str("\n", None);
    fmt_toggle_options3(options, prompt.active, out);
}

/// Adds the confirm prompt (the same drawing as [`fmt_confirm`]).
pub fn fmt_confirm2(prompt: &Confirm, draw_time: DrawTime, out: &mut ColoredStrings)
    ensures
        final(out).pieces() == old(out).pieces() + spec_confirm(prompt.message@, prompt.active, draw_time),
{
    fmt_confirm(prompt, draw_time, out)
}

/// The toggle prompt: answered, the message and the chosen option; else the message over the options.
pub open spec fn spec_toggle(message: Seq<char>, o0: Seq<char>, o1: Seq<char>, active: bool, t: DrawTime) -> Seq<Piece> {
    if t == DrawTime::Last {
        spec_last_message(message, if active { o1 } else { o0 })
    } else {
        spec_msg(message) + seq![piece("\n"@, None)] + spec_toggle_options(o0, o1, active)
    }
}

/// Adds the toggle prompt.
pub fn fmt_toggle2(prompt: &Toggle, draw_time: DrawTime, out: &mut ColoredStrings)
    ensures
        final(out).pieces() == old(out).pieces() + spec_toggle(
            prompt.message@,
            prompt.options[0]@,
            prompt.options[1]@,
            prompt.active,
            draw_time,
        ),
{
    if let DrawTime::Last = draw_time {
        fmt_last_message2(prompt.message, prompt.get_value(), out);
        return;
    }
    fmt_msg2(prompt.message, out);
    out.push_str("\n", None);
    fmt_toggle_options3(prompt.options, prompt.active, out);
}

// endregion: toggle

// region: line

/// The first line of a read-line prompt: the message and, if any, the default value in grey.
pub open spec fn spec_line_message(message: Seq<char>, default_value: Option<Seq<char>>) -> Seq<Piece> {
    let value = match default_value {
        Some(v) => piece("Default: "@ + v, bright_black()),
        None => piece(Seq::empty(), None),
    };
    spec_msg(message) + seq![piece(" "@, None), value]
}

/// Adds the first line of a read-line prompt.
pub fn fmt_line_message2(msg: &str, default_value: Option<&str>, out: &mut ColoredStrings)
    ensures
        final(out).pieces() == old(out).pieces() + spec_line_message(msg@, match default_value {
            Some(v) => Some(v@),
            None => None,
        }),
{
    let value = match default_value {
        Some(v) => {
            let mut text = owned("Default: ");
            push_str(&mut text, v);
            ColoredString::paint_string(text, Some(AnsiColor::Black.light()))
        },
        None => ColoredString::paint_string(String::new(), None),
    };
    fmt_msg2(msg, out);
    out.push_str(" ", None);
    out.push(value);
}

/// The input line: a prompt sign, blue when valid and red otherwise, then the
/// input; an empty input shows the placeholder in grey.
pub open spec fn spec_line_input(input: Seq<char>, placeholder: Option<&str>, valid: bool, is_number: bool) -> Seq<Piece> {
    let prefix = piece("›"@, if valid { blue() } else { red() });
    let shown = if input.len() == 0 {
        piece(match placeholder { Some(p) => p@, None => Seq::empty() }, bright_black())
    } else if is_number {
        piece(input, yellow())
    } else {
        piece(input, None)
    };
    seq![prefix, piece(" "@, None), shown]
}

/// Adds the input line.
pub fn fmt_line_input2(input: &str, placeholder: Option<&str>, validator_result: &Result<(), &str>, is_number: bool, out: &mut ColoredStrings)
    ensures
        final(out).pieces() == old(out).pieces() + spec_line_input(input@, placeholder, validator_result is Ok, is_number),
{
    let prefix = match validator_result {
        Ok(_) => ColoredString::paint("›", Some(AnsiColor::Blue.dark())),
        Err(_) => ColoredString::paint("›", Some(AnsiColor::Red.dark())),
    };
    let shown = if input.is_empty() {
        match placeholder {
            Some(p) => ColoredString::paint(p, Some(AnsiColor::Black.light())),
            None => ColoredString::paint_string(String::new(), Some(AnsiColor::Black.light())),
        }
    } else if is_number {
        ColoredString::paint(input, Some(AnsiColor::Yellow.dark()))
    } else {
        ColoredString::paint(input, None)
    };
    out.push(prefix);
    out.push_str(" ", None);
    out.push(shown);
}

/// The validation error in red, if any.
pub open spec fn spec_line_validator(validator_result: Result<(), &str>) -> Seq<Piece> {
    match validator_result {
        Err(e) => seq![piece(e@, red())],
        Ok(_) => Seq::empty(),
    }
}

/// Adds the validation error, if any.
pub fn fmt_line_validator2(validator_result: &Result<(), &str>, out: &mut ColoredStrings)
    ensures
        final(out).pieces() == old(out).pieces() + spec_line_validator(*validator_result),
{
    if let Err(e) = validator_result {
        out.push_str(e, Some(AnsiColor::Red.dark()));
    }
}

/// Where the cursor of a read-line prompt goes: after the prompt sign, on the second line.
pub fn get_cursor_position(cursor_col: usize) -> (r: [usize; 2])
    requires
        cursor_col + 2 <= usize::MAX,
    ensures
        r@ == seq![(cursor_col + 2) as usize, 1usize],
{
    let x = 2 + cursor_col;
    let y: usize = 1;
    [x, y]
}

/// A read-line prompt: answered, the message and `answer`; else the message
/// line, the input line and the validation error.
pub open spec fn spec_line_prompt(
    message: Seq<char>,
    answer: Seq<char>,
    default_value: Option<Seq<char>>,
    shown: Seq<char>,
    placeholder: Option<&str>,
    validator_result: Result<(), &str>,
    is_number: bool,
    t: DrawTime,
) -> Seq<Piece> {
    if t == DrawTime::Last {
        spec_last_message(message, answer)
    } else {
        spec_line_message(message, default_value) + seq![piece("\n"@, None)]
            + spec_line_input(shown, placeholder, validator_result is Ok, is_number) + seq![piece("\n"@, None)]
            + spec_line_validator(validator_result)
    }
}

/// Adds the text prompt; returns where the cursor goes.
pub fn fmt_text2<'a, V: Validator<'a>>(prompt: &Text<'a, V>, draw_time: DrawTime, out: &mut ColoredStrings) -> (r: [usize; 2])
    requires
        prompt.input.col + 2 <= usize::MAX,
    ensures
        final(out).pieces() == old(out).pieces() + spec_line_prompt(
            prompt.message@,
            prompt.input.value@,
            match prompt.default_value { Some(v) => Some(v@), None => None },
            prompt.input.value@,
            prompt.placeholder,
            prompt.validator_result,
            false,
            draw_time,
        ),
        r@ == if draw_time == DrawTime::Last { seq![0usize, 0usize] } else { seq![(prompt.input.col + 2) as usize, 1usize] },
{
    if let DrawTime::Last = draw_time {
        fmt_last_message2(prompt.message, prompt.input.value.as_str(), out);
        return [0, 0];
    }
    fmt_line_message2(prompt.message, prompt.default_value, out);
    out.push_str("\n", None);
    fmt_line_input2(prompt.input.value.as_str(), prompt.placeholder, &prompt.validator_result, false, out);
    out.push_str("\n", None);
    fmt_line_validator2(&prompt.validator_result, out);
    get_cursor_position(prompt.input.col)
}

/// Adds the password prompt: the input shows as `*` (or nothing if hidden) and
/// the answer as `…`; returns where the cursor goes.
pub fn fmt_password2<'a, V: Validator<'a>>(prompt: &Password<'a, V>, draw_time: DrawTime, out: &mut ColoredStrings) -> (r: [usize; 2])
    requires
        prompt.input.col + 2 <= usize::MAX,
    ensures
        final(out).pieces() == old(out).pieces() + spec_line_prompt(
            prompt.message@,
            "…"@,
            match prompt.default_value { Some(v) => Some(v@), None => None },
            if prompt.hidden { Seq::<char>::empty() } else { repeat_seq("*"@, prompt.input.value@.len()) },
            prompt.placeholder,
            prompt.validator_result,
            false,
            draw_time,
        ),
        r@ == if draw_time == DrawTime::Last {
            seq![0usize, 0usize]
        } else {
            seq![(if prompt.hidden { 2 } else { prompt.input.col + 2 }) as usize, 1usize]
        },
{
    if let DrawTime::Last = draw_time {
        fmt_last_message2(cow_str(&prompt.message), "…", out);
        return [0, 0];
    }
    let text = if prompt.hidden { String::new() } else { repeat("*", char_count(prompt.input.value.as_str())) };
    let cursor_col = if prompt.hidden { 0 } else { prompt.input.col };
    fmt_line_message2(cow_str(&prompt.message), prompt.default_value, out);
    out.push_str("\n", None);
    fmt_line_input2(text.as_str(), prompt.placeholder, &prompt.validator_result, false, out);
    out.push_str("\n", None);
    fmt_line_validator2(&prompt.validator_result, out);
    get_cursor_position(cursor_col)
}

/// Adds the number prompt; returns where the cursor goes.
pub fn fmt_number2<'a, T: NumLike, V: Validator<'a>>(prompt: &Number<'a, T, V>, draw_time: DrawTime, out: &mut ColoredStrings) -> (r: [usize; 2])
    requires
        prompt.input.col + 2 <= usize::MAX,
    ensures
        final(out).pieces() == old(out).pieces() + spec_line_prompt(
            prompt.message@,
            prompt.input.value@,
            match prompt.default_value { Some(v) => Some(v@), None => None },
            prompt.input.value@,
            prompt.placeholder,
            prompt.validator_result,
            false,
            draw_time,
        ),
        r@ == if draw_time == DrawTime::Last { seq![0usize, 0usize] } else { seq![(prompt.input.col + 2) as usize, 1usize] },
{
    if let DrawTime::Last = draw_time {
        fmt_last_message2(prompt.message, prompt.input.value.as_str(), out);
        return [0, 0];
    }
    let default_value = match &prompt.default_value {
        Some(v) => Some(v.as_str()),
        None => None,
    };
    fmt_line_message2(prompt.message, default_value, out);
    out.push_str("\n", None);
    fmt_line_input2(prompt.input.value.as_str(), prompt.placeholder, &prompt.validator_result, false, out);
    out.push_str("\n", None);
    fmt_line_validator2(&prompt.validator_result, out);
    get_cursor_position(prompt.input.col)
}

// endregion: line


// region: select

/// The first line of a multi-select prompt: the message and its limits in grey.
pub open spec fn spec_multi_select_message(msg: Seq<char>, min: Option<usize>, max: Option<usize>) -> Seq<Piece> {
    let min_max = match (min, max) {
        (None, None) => Seq::<char>::empty(),
        (None, Some(m)) => "Max: "@ + spec_decimal(m as nat),
        (Some(m), None) => "Min: "@ + spec_decimal(m as nat),
        (Some(a), Some(b)) => "Min: "@ + spec_decimal(a as nat) + " · Max: "@ + spec_decimal(b as nat),
    };
    spec_msg(msg) + seq![piece(" "@, None), piece(min_max, bright_black())]
}

/// Adds the first line of a multi-select prompt.
pub fn fmt_multi_select_message2(msg: &str, min: Option<usize>, max: Option<usize>, out: &mut ColoredStrings)
    ensures
        final(out).pieces() == old(out).pieces() + spec_multi_select_message(msg@, min, max),
{
    let mut text = String::new();
    match (min, max) {
        (None, None) => {},
        (None, Some(m)) => {
            push_str(&mut text, "Max: ");
            push_str(&mut text, decimal(m).as_str());
        },
        (Some(m), None) => {
            push_str(&mut text, "Min: ");
            push_str(&mut text, decimal(m).as_str());
        },
        (Some(a), Some(b)) => {
            push_str(&mut text, "Min: ");
            push_str(&mut text, decimal(a).as_str());
            push_str(&mut text, " · Max: ");
            push_str(&mut text, decimal(b).as_str());
        },
    }
    fmt_msg2(msg, out);
    out.push_str(" ", None);
    out.push(ColoredString::paint_string(text, Some(AnsiColor::Black.light())));
}

/// The symbol in front of an option.
pub open spec fn spec_option_prefix(active: bool, disabled: bool, focused: bool, multiple: bool) -> Piece {
    if multiple {
        let symbol = if active && focused { "◉"@ } else if active { "●"@ } else { "○"@ };
        let color = if focused && disabled {
            red()
        } else if focused {
            blue()
        } else if active {
            None
        } else {
            bright_black()
        };
        piece(symbol, color)
    } else {
        if !focused {
            piece("○"@, bright_black())
        } else if disabled {
            piece("○"@, red())
        } else {
            piece("●"@, blue())
        }
    }
}

/// An option: its symbol, its title (struck through and grey when disabled,
/// blue when focused) and, when focused, its description or `(Disabled)`.
pub open spec fn spec_select_option<'a, T>(o: SelectOption<'a, T>, focused: bool, multiple: bool) -> Seq<Piece> {
    let title = if o.disabled {
        (o.title@, bright_black(), None, true)
    } else if focused {
        piece(o.title@, blue())
    } else {
        piece(o.title@, None)
    };
    let description = if focused && o.disabled {
        piece(" · "@ + "(Disabled)"@, bright_black())
    } else if focused && o.description is Some {
        piece(" · "@ + o.description.unwrap()@, bright_black())
    } else {
        piece(Seq::empty(), None)
    };
    seq![spec_option_prefix(o.active, o.disabled, focused, multiple), piece(" "@, None), title, piece(" "@, None), description]
}

/// Adds an option.
pub fn fmt_select_option2<'a, T>(option: &SelectOption<'a, T>, focused: bool, multiple: bool, out: &mut ColoredStrings)
    ensures
        final(out).pieces() == old(out).pieces() + spec_select_option(*option, focused, multiple),
{
    let prefix = if multiple {
        let symbol = if option.active && focused {
            "◉"
        } else if option.active {
            "●"
        } else {
            "○"
        };
        let color = if focused && option.disabled {
            Some(AnsiColor::Red.dark())
        } else if focused {
            Some(AnsiColor::Blue.dark())
        } else if option.active {
            None
        } else {
            Some(AnsiColor::Black.light())
        };
        ColoredString::paint(symbol, color)
    } else {
        if !focused {
            ColoredString::paint("○", Some(AnsiColor::Black.light()))
        } else if option.disabled {
            ColoredString::paint("○", Some(AnsiColor::Red.dark()))
        } else {
            ColoredString::paint("●", Some(AnsiColor::Blue.dark()))
        }
    };
    let title = if option.disabled {
        ColoredString {
            input: option.title.clone(),
            fgcolor: Some(AnsiColor::Black.light()),
            bgcolor: None,
            strikethrough: true,
        }
    } else if focused {
        ColoredString::paint(option.title.as_str(), Some(AnsiColor::Blue.dark()))
    } else {
        ColoredString::paint(option.title.as_str(), None)
    };
    let description = if focused && option.disabled {
        let mut text = owned(" · ");
        push_str(&mut text, "(Disabled)");
        ColoredString::paint_string(text, Some(AnsiColor::Black.light()))
    } else if focused && option.description.is_some() {
        let mut text = owned(" · ");
        match option.description {
            Some(d) => push_str(&mut text, d),
            None => {},
        }
        ColoredString::paint_string(text, Some(AnsiColor::Black.light()))
    } else {
        ColoredString::paint_string(String::new(), None)
    };
    out.push(prefix);
    out.push_str(" ", None);
    out.push(title);
    out.push_str(" ", None);
    out.push(description);
}

/// The options of the focused page, each on a new line; a short last page is
/// padded with empty lines up to the page length.
pub open spec fn spec_page_options<'a, T>(options: Seq<SelectOption<'a, T>>, input: SelectInput, multiple: bool, k: nat) -> Seq<Piece>
    decreases k,
{
    if k == 0 {
        Seq::empty()
    } else {
        let i = (k - 1) as nat;
        let start = spec_page_start(input);
        let count = (spec_page_end(input) - start) as nat;
        spec_page_options(options, input, multiple, i) + seq![piece("\n"@, None)] + if i < count {
            spec_select_option(options[(start + i) as int], spec_page_focused(input) == i, multiple)
        } else {
            Seq::empty()
        }
    }
}

/// The length of a page: the items per page, at most the number of items.
pub open spec fn spec_page_len(input: SelectInput) -> nat {
    (if input.items_per_page <= input.total_items { input.items_per_page } else { input.total_items }) as nat
}

/// Adds the options of the focused page.
pub fn fmt_select_page_options2<'a, T>(options: &Vec<SelectOption<'a, T>>, input: &SelectInput, multiple: bool, out: &mut ColoredStrings)
    requires
        input.items_per_page > 0,
        input.focused < input.total_items || input.focused == 0,
        input.total_items == options@.len(),
        input.focused + input.items_per_page <= usize::MAX,
    ensures
        final(out).pieces() == old(out).pieces() + spec_page_options(options@, *input, multiple, spec_page_len(*input)),
{
    let (page_start, page_end, page_focused) = page_bounds(input);
    let page_len = if input.items_per_page <= input.total_items { input.items_per_page } else { input.total_items };
    let mut i: usize = 0;
    let ghost base = out.pieces();
    while i < page_len
        invariant
            i <= page_len,
            page_len == spec_page_len(*input),
            page_start == spec_page_start(*input),
            page_end == spec_page_end(*input),
            page_focused == spec_page_focused(*input),
            page_start <= page_end <= options@.len(),
            input.total_items == options@.len(),
            out.pieces() == base + spec_page_options(options@, *input, multiple, i as nat),
        decreases page_len - i,
    {
        out.push_str("\n", None);
        if i < page_end - page_start {
            fmt_select_option2(&options[page_start + i], page_focused == i, multiple, out);
        }
        i = i + 1;
    }
}

/// The page indicator: one dot per page, the current one highlighted; nothing for one page.
pub open spec fn spec_pagination(page: nat, pages: nat) -> Seq<Piece> {
    if pages == 1 {
        Seq::empty()
    } else {
        let after: nat = if pages >= page + 1 { (pages - (page + 1)) as nat } else { 0 };
        seq![
            piece("\n  "@, None),
            piece(repeat_seq("•"@, page), bright_black()),
            piece("•"@, None),
            piece(repeat_seq("•"@, after), bright_black()),
        ]
    }
}

/// Adds the page indicator.
pub fn fmt_select_pagination2(page: usize, pages: usize, out: &mut ColoredStrings)
    requires
        page < usize::MAX,
    ensures
        final(out).pieces() == old(out).pieces() + spec_pagination(page as nat, pages as nat),
{
    if pages == 1 {
        return;
    }
    let icon = "•";
    let after = if pages >= page + 1 { pages - (page + 1) } else { 0 };
    out.push_str("\n  ", None);
    out.push(ColoredString::paint_string(repeat(icon, page), Some(AnsiColor::Black.light())));
    out.push_str(icon, None);
    out.push(ColoredString::paint_string(repeat(icon, after), Some(AnsiColor::Black.light())));
}

/// A list prompt can be drawn as pages.
pub open spec fn pages_ok(input: SelectInput, len: nat) -> bool {
    &&& input.items_per_page > 0
    &&& (input.focused < input.total_items || input.focused == 0)
    &&& input.total_items == len
    &&& input.focused + input.items_per_page <= usize::MAX
    &&& input.focused / input.items_per_page < usize::MAX
}

/// The select prompt: answered, the message and the focused title; else the
/// message, the page of options and the page indicator.
pub open spec fn spec_select<'a, T>(p: &Select<'a, T>, t: DrawTime) -> Seq<Piece> {
    if t == DrawTime::Last {
        spec_last_message(p.message@, p.options@[p.input.focused as int].title@)
    } else {
        spec_msg(p.message@) + seq![piece("\n"@, None)]
            + spec_page_options(p.options@, p.input, false, spec_page_len(p.input)) + seq![piece("\n"@, None)]
            + spec_pagination((p.input.focused / p.input.items_per_page) as nat, spec_count_pages(p.input.total_items as nat, p.input.items_per_page as nat))
    }
}

/// Adds the select prompt.
pub fn fmt_select2<'a, T>(prompt: &Select<'a, T>, draw_time: DrawTime, out: &mut ColoredStrings)
    requires
        draw_time == DrawTime::Last ==> prompt.input.focused < prompt.options@.len(),
        draw_time != DrawTime::Last ==> pages_ok(prompt.input, prompt.options@.len()),
    ensures
        final(out).pieces() == old(out).pieces() + spec_select(prompt, draw_time),
{
    if let DrawTime::Last = draw_time {
        fmt_last_message2(cow_str(&prompt.message), prompt.options[prompt.input.focused].title.as_str(), out);
        return;
    }
    fmt_msg2(cow_str(&prompt.message), out);
    out.push_str("\n", None);
    fmt_select_page_options2(&prompt.options, &prompt.input, false, out);
    out.push_str("\n", None);
    fmt_select_pagination2(prompt.input.get_page(), prompt.input.count_pages(), out);
}

/// The titles of the active options joined by `, `; `first` tells whether none was written before.
pub open spec fn spec_active_titles<'a, T>(opts: Seq<SelectOption<'a, T>>, first: bool) -> Seq<char>
    decreases opts.len(),
{
    if opts.len() == 0 {
        Seq::empty()
    } else if opts[0].active {
        (if first { Seq::empty() } else { ", "@ }) + opts[0].title@ + spec_active_titles(opts.drop_first(), false)
    } else {
        spec_active_titles(opts.drop_first(), first)
    }
}

/// The titles of the active options, joined by `, ` and put in brackets.
pub fn selected_titles<'a, T>(options: &Vec<SelectOption<'a, T>>) -> (r: String)
    ensures
        r@ == "["@ + spec_active_titles(options@, true) + "]"@,
{
    let mut text = owned("[");
    let n = options.len();
    let mut i: usize = 0;
    let mut first = true;
    proof {
        assert(options@.skip(0) == options@);
    }
    while i < n
        invariant
            n == options@.len(),
            i <= n,
            "["@ + spec_active_titles(options@, true) == text@ + spec_active_titles(options@.skip(i as int), first),
        decreases n - i,
    {
        let ghost rest = options@.skip(i as int);
        proof {
            assert(rest.drop_first() == options@.skip(i + 1));
            assert(rest[0] == options@[i as int]);
        }
        if options[i].active {
            let ghost before = text@;
            if !first {
                push_str(&mut text, ", ");
            }
            push_str(&mut text, options[i].title.as_str());
            proof {
                assert(text@ == before + (if first { Seq::<char>::empty() } else { ", "@ }) + options@[i as int].title@);
            }
            first = false;
        }
        i = i + 1;
    }
    proof {
        assert(options@.skip(n as int) == Seq::<SelectOption<'a, T>>::empty());
    }
    push_str(&mut text, "]");
    text
}

/// The multi-select prompt: answered, the message and the selected titles;
/// else the message with its limits, the page of options and the page indicator.
pub open spec fn spec_multi_select<'a, T>(p: &MultiSelect<'a, T>, t: DrawTime) -> Seq<Piece> {
    if t == DrawTime::Last {
        spec_last_message(p.message@, "["@ + spec_active_titles(p.options@, true) + "]"@)
    } else {
        spec_multi_select_message(p.message@, p.min, p.max) + seq![piece("\n"@, None)]
            + spec_page_options(p.options@, p.input, true, spec_page_len(p.input)) + seq![piece("\n"@, None)]
            + spec_pagination((p.input.focused / p.input.items_per_page) as nat, spec_count_pages(p.input.total_items as nat, p.input.items_per_page as nat))
    }
}

/// Adds the multi-select prompt.
pub fn fmt_multi_select2<'a, T>(prompt: &MultiSelect<'a, T>, draw_time: DrawTime, out: &mut ColoredStrings)
    requires
        draw_time != DrawTime::Last ==> pages_ok(prompt.input, prompt.options@.len()),
    ensures
        final(out).pieces() == old(out).pieces() + spec_multi_select(prompt, draw_time),
{
    if let DrawTime::Last = draw_time {
        let answer = selected_titles(&prompt.options);
        fmt_last_message2(cow_str(&prompt.message), answer.as_str(), out);
        return;
    }
    fmt_multi_select_message2(cow_str(&prompt.message), prompt.min, prompt.max, out);
    out.push_str("\n", None);
    fmt_select_page_options2(&prompt.options, &prompt.input, true, out);
    out.push_str("\n", None);
    fmt_select_pagination2(prompt.input.get_page(), prompt.input.count_pages(), out);
}


/// The options of the focused page joined by newlines; a short last page is
/// padded with empty entries up to the page length.
pub open spec fn spec_page_options_joined<'a, T>(options: Seq<SelectOption<'a, T>>, input: SelectInput, multiple: bool, k: nat) -> Seq<Piece>
    decreases k,
{
    if k == 0 {
        Seq::empty()
    } else {
        let i = (k - 1) as nat;
        let start = spec_page_start(input);
        let count = (spec_page_end(input) - start) as nat;
        let sep = if i > 0 { seq![piece("\n"@, None)] } else { Seq::empty() };
        spec_page_options_joined(options, input, multiple, i) + sep + if i < count {
            spec_select_option(options[(start + i) as int], spec_page_focused(input) == i, multiple)
        } else {
            Seq::empty()
        }
    }
}

/// Adds the options of the focused page, joined by newlines.
pub fn fmt_select_page_options<'a, T>(options: &Vec<SelectOption<'a, T>>, input: &SelectInput, is_multiple: bool, out: &mut ColoredStrings)
    requires
        input.items_per_page > 0,
        input.focused < input.total_items || input.focused == 0,
        input.total_items == options@.len(),
        input.focused + input.items_per_page <= usize::MAX,
    ensures
        final(out).pieces() == old(out).pieces() + spec_page_options_joined(options@, *input, is_multiple, spec_page_len(*input)),
{
    let (page_start, page_end, page_focused) = page_bounds(input);
    let page_len = if input.items_per_page <= input.total_items { input.items_per_page } else { input.total_items };
    let mut i: usize = 0;
    let ghost base = out.pieces();
    while i < page_len
        invariant
            i <= page_len,
            page_len == spec_page_len(*input),
            page_start == spec_page_start(*input),
            page_end == spec_page_end(*input),
            page_focused == spec_page_focused(*input),
            page_start <= page_end <= options@.len(),
            input.total_items == options@.len(),
            out.pieces() == base + spec_page_options_joined(options@, *input, is_multiple, i as nat),
        decreases page_len - i,
    {
        if i > 0 {
            out.push_str("\n", None);
        }
        if i < page_end - page_start {
            fmt_select_option2(&options[page_start + i], page_focused == i, is_multiple, out);
        }
        i = i + 1;
    }
}

/// The multi-select prompt, its lines joined: answered, the message and the
/// selected titles; else the message with its limits, the options of the page
/// and the page indicator.
pub open spec fn spec_multi_select_joined<'a, T>(p: &MultiSelect<'a, T>, t: DrawTime) -> Seq<Piece> {
    if t == DrawTime::Last {
        spec_last_message(p.message@, "["@ + spec_active_titles(p.options@, true) + "]"@)
    } else {
        spec_multi_select_message(p.message@, p.min, p.max) + seq![piece("\n"@, None)]
            + spec_page_options_joined(p.options@, p.input, true, spec_page_len(p.input)) + seq![piece("\n"@, None)]
            + spec_pagination((p.input.focused / p.input.items_per_page) as nat, spec_count_pages(p.input.total_items as nat, p.input.items_per_page as nat))
    }
}

/// The multi-select prompt as colored pieces.
pub fn fmt_multi_select<'a, T>(prompt: &MultiSelect<'a, T>, draw_time: DrawTime) -> (r: ColoredStrings)
    requires
        draw_time != DrawTime::Last ==> pages_ok(prompt.input, prompt.options@.len()),
    ensures
        r.pieces() == spec_multi_select_joined(prompt, draw_time),
{
    let mut out = ColoredStrings::new();
    if let DrawTime::Last = draw_time {
        let answer = selected_titles(&prompt.options);
        fmt_last_message2(cow_str(&prompt.message), answer.as_str(), &mut out);
        return out;
    }
    fmt_multi_select_message2(cow_str(&prompt.message), prompt.min, prompt.max, &mut out);
    out.push_str("\n", None);
    fmt_select_page_options(&prompt.options, &prompt.input, true, &mut out);
    out.push_str("\n", None);
    fmt_select_pagination2(prompt.input.get_page(), prompt.input.count_pages(), &mut out);
    out
}

/// The message of an active prompt, as colored pieces.
pub fn fmt_message(message: &str) -> (r: ColoredStrings)
    ensures
        r.pieces() == spec_msg(message@),
{
    let mut out = ColoredStrings::new();
    fmt_msg2(message, &mut out);
    out
}

/// The message of an answered prompt with its answer, as colored pieces.
pub fn fmt_last_message(message: &str, answer: &str) -> (r: ColoredStrings)
    ensures
        r.pieces() == spec_last_message(message@, answer@),
{
    let mut out = ColoredStrings::new();
    fmt_last_message2(message, answer, &mut out);
    out
}

/// The first line of a read-line prompt, as colored pieces.
pub fn fmt_line_message(msg: &str, default_value: Option<&str>) -> (r: ColoredStrings)
    ensures
        r.pieces() == spec_line_message(msg@, match default_value {
            Some(v) => Some(v@),
            None => None,
        }),
{
    let mut out = ColoredStrings::new();
    fmt_line_message2(msg, default_value, &mut out);
    out
}

/// The input line, as colored pieces.
pub fn fmt_line_input(input: &str, placeholder: Option<&str>, validator_result: &Result<(), &str>, is_number: bool) -> (r: ColoredStrings)
    ensures
        r.pieces() == spec_line_input(input@, placeholder, validator_result is Ok, is_number),
{
    let mut out = ColoredStrings::new();
    fmt_line_input2(input, placeholder, validator_result, is_number, &mut out);
    out
}

/// The validation error, if any, as colored pieces.
pub fn fmt_line_validator(validator_result: &Result<(), &str>) -> (r: ColoredStrings)
    ensures
        r.pieces() == spec_line_validator(*validator_result),
{
    let mut out = ColoredStrings::new();
    fmt_line_validator2(validator_result, &mut out);
    out
}

/// The first line of a multi-select prompt, as colored pieces.
pub fn fmt_multi_select_message(msg: &str, min: Option<usize>, max: Option<usize>) -> (r: ColoredStrings)
    ensures
        r.pieces() == spec_multi_select_message(msg@, min, max),
{
    let mut out = ColoredStrings::new();
    fmt_multi_select_message2(msg, min, max, &mut out);
    out
}

/// The page indicator, as colored pieces.
pub fn fmt_select_pagination(page: usize, pages: usize) -> (r: ColoredStrings)
    requires
        page < usize::MAX,
    ensures
        r.pieces() == spec_pagination(page as nat, pages as nat),
{
    let mut out = ColoredStrings::new();
    fmt_select_pagination2(page, pages, &mut out);
    out
}

/// An option of a list, as colored pieces.
pub fn fmt_select_option<'a, T>(option: &SelectOption<'a, T>, focused: bool, multiple: bool) -> (r: ColoredStrings)
    ensures
        r.pieces() == spec_select_option(*option, focused, multiple),
{
    let mut out = ColoredStrings::new();
    fmt_select_option2(option, focused, multiple, &mut out);
    out
}

/// The text prompt as colored pieces, and where the cursor goes.
pub fn fmt_text<'a, V: Validator<'a>>(prompt: &Text<'a, V>, draw_time: DrawTime) -> (r: (ColoredStrings, [usize; 2]))
    requires
        prompt.input.col + 2 <= usize::MAX,
    ensures
        r.0.pieces() == spec_line_prompt(
            prompt.message@,
            prompt.input.value@,
            match prompt.default_value { Some(v) => Some(v@), None => None },
            prompt.input.value@,
            prompt.placeholder,
            prompt.validator_result,
            false,
            draw_time,
        ),
        r.1@ == if draw_time == DrawTime::Last { seq![0usize, 0usize] } else { seq![(prompt.input.col + 2) as usize, 1usize] },
{
    let mut out = ColoredStrings::new();
    let cursor = fmt_text2(prompt, draw_time, &mut out);
    (out, cursor)
}

/// The password prompt as colored pieces, and where the cursor goes.
pub fn fmt_password<'a, V: Validator<'a>>(prompt: &Password<'a, V>, draw_time: DrawTime) -> (r: (ColoredStrings, [usize; 2]))
    requires
        prompt.input.col + 2 <= usize::MAX,
    ensures
        r.0.pieces() == spec_line_prompt(
            prompt.message@,
            "…"@,
            match prompt.default_value { Some(v) => Some(v@), None => None },
            if prompt.hidden { Seq::<char>::empty() } else { repeat_seq("*"@, prompt.input.value@.len()) },
            prompt.placeholder,
            prompt.validator_result,
            false,
            draw_time,
        ),
        r.1@ == if draw_time == DrawTime::Last {
            seq![0usize, 0usize]
        } else {
            seq![(if prompt.hidden { 2 } else { prompt.input.col + 2 }) as usize, 1usize]
        },
{
    let mut out = ColoredStrings::new();
    let cursor = fmt_password2(prompt, draw_time, &mut out);
    (out, cursor)
}

/// The number prompt as colored pieces, its input in yellow, and where the cursor goes.
pub fn fmt_number<'a, T: NumLike, V: Validator<'a>>(prompt: &Number<'a, T, V>, draw_time: DrawTime) -> (r: (ColoredStrings, [usize; 2]))
    requires
        prompt.input.col + 2 <= usize::MAX,
    ensures
        r.0.pieces() == spec_line_prompt(
            prompt.message@,
            prompt.input.value@,
            match prompt.default_value { Some(v) => Some(v@), None => None },
            prompt.input.value@,
            prompt.placeholder,
            prompt.validator_result,
            true,
            draw_time,
        ),
        r.1@ == if draw_time == DrawTime::Last { seq![0usize, 0usize] } else { seq![(prompt.input.col + 2) as usize, 1usize] },
{
    let mut out = ColoredStrings::new();
    if let DrawTime::Last = draw_time {
        fmt_last_message2(prompt.message, prompt.input.value.as_str(), &mut out);
        return (out, [0, 0]);
    }
    let default_value = match &prompt.default_value {
        Some(v) => Some(v.as_str()),
        None => None,
    };
    fmt_line_message2(prompt.message, default_value, &mut out);
    out.push_str("\n", None);
    fmt_line_input2(prompt.input.value.as_str(), prompt.placeholder, &prompt.validator_result, true, &mut out);
    out.push_str("\n", None);
    fmt_line_validator2(&prompt.validator_result, &mut out);
    let cursor = get_cursor_position(prompt.input.col);
    (out, cursor)
}

// endregion: select

} // verus!
