//! Lists of options: the option type, the cursor over a paged list, and the
//! [`Select`] prompt.
use std::borrow::Cow;
use vstd::prelude::*;

use crate::error::{Error, Valuable};
use crate::key::{KeyCode, KeyEvent};
use crate::prompts::message::cow_str;
use crate::style::{DefaultStyle, Flags, Section, Style};
use crate::utils::renderer::{DrawTime, Mark, Renderer};
use crate::formatted::Formatted;
use crate::utils::colored_strings::ColoredStrings;

verus! {

/// Where the cursor of a list moves.
#[derive(Clone, Copy, Debug, PartialEq, Eq)]
pub enum Direction {
    /// The previous item.
    Up,
    /// The next item.
    Down,
    /// One page up: the previous page.
    Left,
    /// One page down: the next page.
    Right,
}

/// An item of a select-like prompt.
#[derive(Debug, Clone, PartialEq, Eq, Default)]
pub struct SelectOption<'a, T> {
    /// Value that will be returned by the prompt when the user selects the option.
    pub value: T,
    /// String that will be displayed in the prompt.
    pub title: String,
    /// Description text to show in the prompt when focus the option.
    pub description: Option<&'a str>,
    /// Indicate if the option is disabled.
    pub disabled: bool,
    /// Indicate if the option is active (used by multi-select prompts only).
    pub active: bool,
}

impl<'a, T: core::fmt::Display> SelectOption<'a, T> {
    /// Create a new option whose title is the value as displayed.
    pub fn new(value: T) -> (r: Self)
        ensures
            r.value == value,
            vstd::string::to_string_from_display_ensures::<T>(&value, r.title),
            r.description is None,
            !r.disabled,
            !r.active,
    {
        let title = value.to_string();
        SelectOption { value, title, description: None, disabled: false, active: false }
    }
}

impl<'a, T> SelectOption<'a, T> {
    /// The option with a custom title.
    pub fn title(self, title: &'a str) -> (r: Self)
        ensures
            r.title@ == title@,
            r.value == self.value,
            r.description == self.description,
            r.disabled == self.disabled,
            r.active == self.active,
    {
        let mut o = self;
        o.title = title.to_owned();
        o
    }

    /// The option with a description text shown when it is focused.
    pub fn description(self, description: &'a str) -> (r: Self)
        ensures
            r.description == Some(description),
            r.value == self.value,
            r.title == self.title,
            r.disabled == self.disabled,
            r.active == self.active,
    {
        let mut o = self;
        o.description = Some(description);
        o
    }

    /// The option, that the user can or cannot choose.
    pub fn disabled(self, disabled: bool) -> (r: Self)
        ensures
            r.disabled == disabled,
            r.value == self.value,
            r.title == self.title,
            r.description == self.description,
            r.active == self.active,
    {
        let mut o = self;
        o.disabled = disabled;
        o
    }
}

/// The focus after `prev_item`: one up, wrapping to the last in loop mode.
pub open spec fn spec_prev_item(focused: nat, total: nat, loop_mode: bool) -> nat {
    if focused == 0 {
        if loop_mode { (total - 1) as nat } else { 0 }
    } else {
        (focused - 1) as nat
    }
}

/// The focus after `next_item`: one down, wrapping to the first in loop mode.
pub open spec fn spec_next_item(focused: nat, total: nat, loop_mode: bool) -> nat {
    if focused + 1 > total - 1 {
        if loop_mode { 0 } else { (total - 1) as nat }
    } else {
        focused + 1
    }
}

/// The focus after `prev_page`: one page up, stopping at the first item.
pub open spec fn spec_prev_page(focused: nat, per_page: nat) -> nat {
    if focused >= per_page { (focused - per_page) as nat } else { 0 }
}

/// The focus after `next_page`: one page down, stopping at the last item.
pub open spec fn spec_next_page(focused: nat, total: nat, per_page: nat) -> nat {
    if focused + per_page <= total - 1 { focused + per_page } else { (total - 1) as nat }
}

/// The number of pages of `total` items, `per_page` on each.
pub open spec fn spec_count_pages(total: nat, per_page: nat) -> nat {
    total / per_page + (if total % per_page != 0 { 1nat } else { 0nat })
}

/// State of the input for select-like prompts (like [`Select`]).
#[derive(Debug)]
pub struct SelectInput {
    /// Focused index of the list.
    pub focused: usize,
    /// Number of items that must be displayed per page.
    pub items_per_page: usize,
    /// Indicate if the loop mode is enabled in the prompt.
    pub loop_mode: bool,
    /// Number of total items in the prompt.
    pub total_items: usize,
}

impl SelectInput {
    /// The focus is on an item of the list.
    pub open spec fn wf(&self) -> bool {
        self.focused < self.total_items
    }

    /// The focus after moving it in `direction`.
    pub open spec fn spec_moved(&self, direction: Direction) -> nat {
        match direction {
            Direction::Up => spec_prev_item(self.focused as nat, self.total_items as nat, self.loop_mode),
            Direction::Down => spec_next_item(self.focused as nat, self.total_items as nat, self.loop_mode),
            Direction::Left => spec_prev_page(self.focused as nat, self.items_per_page as nat),
            Direction::Right => spec_next_page(self.focused as nat, self.total_items as nat, self.items_per_page as nat),
        }
    }

    /// Moving the focus in `direction` is possible: the list is not empty
    /// (but for going a page up, which always is) and the move cannot overflow.
    pub open spec fn can_move_to(&self, direction: Direction) -> bool {
        match direction {
            Direction::Up => self.total_items > 0,
            Direction::Down => self.total_items > 0 && self.focused < usize::MAX,
            Direction::Left => true,
            Direction::Right => self.total_items > 0 && self.focused + self.items_per_page <= usize::MAX,
        }
    }


    /// Returns the number of pages in the list.
    pub fn count_pages(&self) -> (n: usize)
        requires
            self.items_per_page > 0,
        ensures
            n == spec_count_pages(self.total_items as nat, self.items_per_page as nat),
    {
        let total = self.total_items;
        let per_page = self.items_per_page;
        let rem = total % per_page;
        proof {
            assert(total / per_page <= total) by (nonlinear_arith)
                requires per_page > 0;
            assert(total / per_page * per_page + rem == total) by (nonlinear_arith)
                requires per_page > 0, rem == total % per_page;
            if rem != 0 {
                assert(total / per_page < total) by (nonlinear_arith)
                    requires per_page > 0, rem == total % per_page, rem != 0,
                        total / per_page * per_page + rem == total;
            }
        }
        total / per_page + (if rem != 0 { 1 } else { 0 })
    }

    /// Returns the index of the current page.
    pub fn get_page(&self) -> (n: usize)
        requires
            self.items_per_page > 0,
        ensures
            n == self.focused / self.items_per_page,
    {
        self.focused / self.items_per_page
    }

    /// A cursor over `total_items` items, on the first, ten per page, in loop mode.
    pub fn new(total_items: usize) -> (r: Self)
        ensures
            r.total_items == total_items,
            r.focused == 0,
            r.items_per_page == 10,
            r.loop_mode,
    {
        SelectInput { total_items, focused: 0, items_per_page: 10, loop_mode: true }
    }

    /// Sets whether the cursor wraps around the ends of the list.
    pub fn set_loop_mode(&mut self, loop_mode: bool)
        ensures
            final(self).loop_mode == loop_mode,
            final(self).focused == old(self).focused,
            final(self).items_per_page == old(self).items_per_page,
            final(self).total_items == old(self).total_items,
    {
        self.loop_mode = loop_mode;
    }

    /// Moves the focus in `direction`.
    pub fn move_cursor(&mut self, direction: Direction)
        requires
            old(self).can_move_to(direction),
        ensures
            final(self).focused == old(self).spec_moved(direction),
            final(self).items_per_page == old(self).items_per_page,
            final(self).loop_mode == old(self).loop_mode,
            final(self).total_items == old(self).total_items,
            old(self).wf() ==> final(self).wf(),
    {
        match direction {
            Direction::Up => self.prev_item(),
            Direction::Down => self.next_item(),
            Direction::Left => self.prev_page(),
            Direction::Right => self.next_page(),
        };
    }

    /// Sets the number of items per page, at most the number of items.
    pub fn set_items_per_page(&mut self, item_per_page: usize)
        ensures
            final(self).items_per_page == if item_per_page <= old(self).total_items {
                item_per_page
            } else {
                old(self).total_items
            },
            final(self).focused == old(self).focused,
            final(self).loop_mode == old(self).loop_mode,
            final(self).total_items == old(self).total_items,
    {
        self.items_per_page = if item_per_page <= self.total_items { item_per_page } else { self.total_items };
    }

    /// Focuses the previous item.
    pub fn prev_item(&mut self)
        requires
            old(self).total_items > 0,
        ensures
            final(self).focused == spec_prev_item(old(self).focused as nat, old(self).total_items as nat, old(self).loop_mode),
            final(self).items_per_page == old(self).items_per_page,
            final(self).loop_mode == old(self).loop_mode,
            final(self).total_items == old(self).total_items,
    {
        let max = self.total_items - 1;
        self.focused = if self.loop_mode {
            if self.focused == 0 { max } else { self.focused - 1 }
        } else {
            if self.focused == 0 { 0 } else { self.focused - 1 }
        };
    }

    /// Focuses the next item.
    pub fn next_item(&mut self)
        requires
            old(self).total_items > 0,
            old(self).focused < usize::MAX,
        ensures
            final(self).focused == spec_next_item(old(self).focused as nat, old(self).total_items as nat, old(self).loop_mode),
            final(self).items_per_page == old(self).items_per_page,
            final(self).loop_mode == old(self).loop_mode,
            final(self).total_items == old(self).total_items,
    {
        let max = self.total_items - 1;
        let new_value = self.focused + 1;
        self.focused = if new_value > max {
            if self.loop_mode { 0 } else { max }
        } else {
            new_value
        };
    }

    /// Focuses the item one page up, or the first.
    pub fn prev_page(&mut self)
        ensures
            final(self).focused == spec_prev_page(old(self).focused as nat, old(self).items_per_page as nat),
            final(self).items_per_page == old(self).items_per_page,
            final(self).loop_mode == old(self).loop_mode,
            final(self).total_items == old(self).total_items,
    {
        self.focused = if self.focused >= self.items_per_page { self.focused - self.items_per_page } else { 0 };
    }

    /// Focuses the item one page down, or the last.
    pub fn next_page(&mut self)
        requires
            old(self).total_items > 0,
            old(self).focused + old(self).items_per_page <= usize::MAX,
        ensures
            final(self).focused == spec_next_page(old(self).focused as nat, old(self).total_items as nat, old(self).items_per_page as nat),
            final(self).items_per_page == old(self).items_per_page,
            final(self).loop_mode == old(self).loop_mode,
            final(self).total_items == old(self).total_items,
    {
        let max = self.total_items - 1;
        let new_value = self.focused + self.items_per_page;
        self.focused = if new_value <= max { new_value } else { max };
    }
}


/// The first index of the focused page.
pub open spec fn spec_page_start(input: SelectInput) -> nat {
    ((input.focused / input.items_per_page) * input.items_per_page) as nat
}

/// The end (exclusive) of the focused page.
pub open spec fn spec_page_end(input: SelectInput) -> nat {
    let page_len = if input.items_per_page <= input.total_items { input.items_per_page } else { input.total_items };
    let end = spec_page_start(input) + page_len;
    if end <= input.total_items { end as nat } else { input.total_items as nat }
}

/// The position of the focused item in its page.
pub open spec fn spec_page_focused(input: SelectInput) -> nat {
    (input.focused % input.items_per_page) as nat
}

/// The bounds of the focused page: `(start, end, focused position)`.
pub fn page_bounds(input: &SelectInput) -> (r: (usize, usize, usize))
    requires
        input.items_per_page > 0,
        input.focused < input.total_items || input.focused == 0,
        input.focused + input.items_per_page <= usize::MAX,
    ensures
        r.0 == spec_page_start(*input),
        r.1 == spec_page_end(*input),
        r.2 == spec_page_focused(*input),
        r.0 <= r.1 <= input.total_items,
        input.focused < input.total_items ==> r.0 <= input.focused < r.1,
{
    let items_per_page = input.items_per_page;
    let total = input.total_items;
    let page_len = if items_per_page <= total { items_per_page } else { total };
    let page = input.get_page();
    proof {
        assert(page * items_per_page <= input.focused) by (nonlinear_arith)
            requires page == input.focused / items_per_page, items_per_page > 0;
        assert(input.focused < page * items_per_page + items_per_page) by (nonlinear_arith)
            requires page == input.focused / items_per_page, items_per_page > 0;
    }
    let page_start = page * items_per_page;
    let page_end = if page_start + page_len <= total { page_start + page_len } else { total };
    let page_focused = input.focused % items_per_page;
    (page_start, page_end, page_focused)
}

/// The move that a key asks of a list, if any: `Up`/`k` and `Down`/`j` move
/// by one item; `Left`/`h` focuses the next page and `Right`/`l` the
/// previous one (a `Right` move goes a page down, a `Left` move a page up).
pub open spec fn key_direction(key: KeyCode) -> Option<Direction> {
    match key {
        KeyCode::Up | KeyCode::Char('k') | KeyCode::Char('K') => Some(Direction::Up),
        KeyCode::Down | KeyCode::Char('j') | KeyCode::Char('J') => Some(Direction::Down),
        KeyCode::Left | KeyCode::Char('h') | KeyCode::Char('H') => Some(Direction::Right),
        KeyCode::Right | KeyCode::Char('l') | KeyCode::Char('L') => Some(Direction::Left),
        _ => None,
    }
}

/// The move that a key asks of a list, if any.
pub fn direction_of(key: &KeyCode) -> (r: Option<Direction>)
    ensures
        r == key_direction(*key),
{
    match key {
        KeyCode::Up => Some(Direction::Up),
        KeyCode::Down => Some(Direction::Down),
        KeyCode::Left => Some(Direction::Right),
        KeyCode::Right => Some(Direction::Left),
        KeyCode::Char(c) => {
            let c = *c;
            if c == 'k' || c == 'K' {
                Some(Direction::Up)
            } else if c == 'j' || c == 'J' {
                Some(Direction::Down)
            } else if c == 'h' || c == 'H' {
                Some(Direction::Right)
            } else if c == 'l' || c == 'L' {
                Some(Direction::Left)
            } else {
                None
            }
        },
        _ => None,
    }
}

/// Whether a key submits a list prompt: `Enter` or `Backspace`.
pub open spec fn is_submit_key(key: KeyCode) -> bool {
    key == KeyCode::Enter || key == KeyCode::Backspace
}

/// The focus after a key: moved in the direction that the key asks, if any.
pub open spec fn focus_after(input: SelectInput, key: KeyCode) -> nat {
    match key_direction(key) {
        Some(d) => input.spec_moved(d),
        None => input.focused as nat,
    }
}

/// The input with its focus on `focused`.
pub open spec fn focused_on(input: SelectInput, focused: nat) -> SelectInput {
    SelectInput {
        focused: focused as usize,
        items_per_page: input.items_per_page,
        loop_mode: input.loop_mode,
        total_items: input.total_items,
    }
}

/// The input after the key codes of `codes`, in order, and whether any of
/// them submitted: a submit key on an option that is not disabled.
pub open spec fn select_run<'a, T>(input: SelectInput, options: Seq<SelectOption<'a, T>>, codes: Seq<KeyCode>) -> (SelectInput, bool)
    decreases codes.len(),
{
    if codes.len() == 0 {
        (input, false)
    } else {
        let before = select_run(input, options, codes.drop_last());
        let key = codes.last();
        let submit = is_submit_key(key) && !options[before.0.focused as int].disabled;
        (focused_on(before.0, focus_after(before.0, key)), before.1 || submit)
    }
}

/// Prompt to select an item from a list.
///
/// | Key                  | Action                       |
/// | -------------------- | ---------------------------- |
/// | `Enter`, `Backspace` | Submit current/initial value |
/// | `Up`, `k`, `K`       | Focus previous item          |
/// | `Down`, `j`, `J`     | Focus next item              |
/// | `Left`, `h`, `H`     | Focus next page              |
/// | `Right`, `l`, `L`    | Focus previous page          |
pub struct Select<'a, T> {
    /// Message used to display in the prompt.
    pub message: Cow<'a, str>,
    /// List of options.
    pub options: Vec<SelectOption<'a, T>>,
    /// Input state.
    pub input: SelectInput,
}

impl<'a, T> Select<'a, T> {
    /// The prompt drawn by `formatter` in place of its default look.
    pub fn format<F>(self, formatter: F) -> (r: Formatted<Self, F>)
        where
            F: Fn(&Select<'a, T>, DrawTime, &mut ColoredStrings),
        ensures
            r.prompt == self,
            r.formatter == formatter,
    {
        Formatted { prompt: self, formatter }
    }

    /// Create a new select prompt with custom [`SelectOption`] items.
    pub fn new_complex(message: &'a str, options: Vec<SelectOption<'a, T>>) -> (r: Self)
        ensures
            r.message@ == message@,
            r.options@ == options@,
            r.input.total_items == options@.len(),
            r.input.focused == 0,
            r.input.items_per_page == 10,
            r.input.loop_mode,
    {
        let options_len = options.len();
        Select { message: Cow::Borrowed(message), options, input: SelectInput::new(options_len) }
    }

    /// Set initial selected index, at most the last.
    pub fn selected(&mut self, index: usize) -> (r: &mut Self)
        requires
            old(self).options@.len() > 0,
        ensures
            r.input.focused == if index < old(self).options@.len() { index as int } else { old(self).options@.len() - 1 },
            r.input.items_per_page == old(self).input.items_per_page,
            r.input.loop_mode == old(self).input.loop_mode,
            r.input.total_items == old(self).input.total_items,
            r.options == old(self).options,
            r.message == old(self).message,
            *final(self) == *final(r),
    {
        let last = self.options.len() - 1;
        self.input.focused = if index <= last { index } else { last };
        self
    }

    /// Set whether the cursor goes to the first option after the last one and vice-versa.
    pub fn in_loop(&mut self, loop_mode: bool) -> (r: &mut Self)
        ensures
            r.input.loop_mode == loop_mode,
            r.input.focused == old(self).input.focused,
            r.input.items_per_page == old(self).input.items_per_page,
            r.input.total_items == old(self).input.total_items,
            r.options == old(self).options,
            r.message == old(self).message,
            *final(self) == *final(r),
    {
        self.input.set_loop_mode(loop_mode);
        self
    }

    /// Set number of items per page to display, at most the number of items.
    pub fn items_per_page(&mut self, item_per_page: usize) -> (r: &mut Self)
        ensures
            r.input.items_per_page == if item_per_page <= old(self).input.total_items {
                item_per_page
            } else {
                old(self).input.total_items
            },
            r.input.focused == old(self).input.focused,
            r.input.loop_mode == old(self).input.loop_mode,
            r.input.total_items == old(self).input.total_items,
            r.options == old(self).options,
            r.message == old(self).message,
            *final(self) == *final(r),
    {
        self.input.set_items_per_page(item_per_page);
        self
    }

    /// Only submit if the focused option isn't disabled.
    pub fn validate_to_submit(&self) -> (r: bool)
        requires
            self.input.focused < self.options@.len(),
        ensures
            r == !self.options@[self.input.focused as int].disabled,
    {
        !self.options[self.input.focused].disabled
    }


    /// Handles a key; returns whether the prompt is submitted.
    pub fn handle_key(&mut self, key: &KeyCode) -> (submit: bool)
        requires
            is_submit_key(*key) ==> old(self).input.focused < old(self).options@.len(),
            key_direction(*key) matches Some(d) ==> old(self).input.can_move_to(d),
        ensures
            submit == (is_submit_key(*key) && !old(self).options@[old(self).input.focused as int].disabled),
            final(self).input.focused == match key_direction(*key) {
                Some(d) => old(self).input.spec_moved(d),
                None => old(self).input.focused as nat,
            },
            final(self).input.items_per_page == old(self).input.items_per_page,
            final(self).input.loop_mode == old(self).input.loop_mode,
            final(self).input.total_items == old(self).input.total_items,
            final(self).options == old(self).options,
            final(self).message == old(self).message,
            old(self).input.wf() ==> final(self).input.wf(),
    {
        match key {
            KeyCode::Enter | KeyCode::Backspace => self.validate_to_submit(),
            _ => {
                if let Some(d) = direction_of(key) {
                    self.input.move_cursor(d);
                }
                false
            },
        }
    }

    /// Handles the key codes of a batch of keys, in order; returns whether any submitted.
    pub fn handle_key_event(&mut self, key: &KeyEvent) -> (submit: bool)
        requires
            old(self).input.wf(),
            old(self).input.total_items == old(self).options@.len(),
            old(self).input.total_items + old(self).input.items_per_page <= usize::MAX,
        ensures
            (final(self).input, submit) == select_run(old(self).input, old(self).options@, key.codes@),
            final(self).options == old(self).options,
            final(self).message == old(self).message,
            final(self).input.wf(),
    {
        let n = key.codes.len();
        let mut i: usize = 0;
        let mut submit = false;
        while i < n
            invariant
                n == key.codes@.len(),
                i <= n,
                (self.input, submit) == select_run(old(self).input, old(self).options@, key.codes@.take(i as int)),
                self.input.wf(),
                self.input.total_items == old(self).input.total_items,
                self.input.items_per_page == old(self).input.items_per_page,
                self.options == old(self).options,
                self.message == old(self).message,
                old(self).input.total_items == old(self).options@.len(),
                old(self).input.total_items + old(self).input.items_per_page <= usize::MAX,
            decreases n - i,
        {
            proof {
                assert(key.codes@.take(i + 1).drop_last() == key.codes@.take(i as int));
            }
            let s = self.handle_key(&key.codes[i]);
            submit = submit || s;
            i = i + 1;
        }
        proof {
            assert(key.codes@.take(n as int) == key.codes@);
        }
        submit
    }
}

impl<'a, T: core::fmt::Display> Select<'a, T> {
    /// Create a new select prompt whose options are the given values.
    pub fn new(message: &'a str, items: Vec<T>) -> (r: Self)
        ensures
            r.message@ == message@,
            r.options@.len() == items@.len(),
            forall|i: int| 0 <= i < items@.len() ==> {
                &&& #[trigger] r.options@[i].value == items@[i]
                &&& vstd::string::to_string_from_display_ensures::<T>(&items@[i], r.options@[i].title)
                &&& r.options@[i].description is None
                &&& !r.options@[i].disabled
                &&& !r.options@[i].active
            },
            r.input.total_items == items@.len(),
            r.input.focused == 0,
            r.input.items_per_page == 10,
            r.input.loop_mode,
    {
        let options = options_of(items);
        Self::new_complex(message, options)
    }
}

/// The options made from `items`, in order, each titled by its value as displayed.
pub fn options_of<'a, T: core::fmt::Display>(items: Vec<T>) -> (r: Vec<SelectOption<'a, T>>)
    ensures
        r@.len() == items@.len(),
        forall|i: int| 0 <= i < items@.len() ==> {
            &&& #[trigger] r@[i].value == items@[i]
            &&& vstd::string::to_string_from_display_ensures::<T>(&items@[i], r@[i].title)
            &&& r@[i].description is None
            &&& !r@[i].disabled
            &&& !r@[i].active
        },
{
    let mut rest = items;
    let ghost all = rest@;
    let mut out: Vec<SelectOption<'a, T>> = Vec::new();
    while rest.len() > 0
        invariant
            all == out@.map_values(|o: SelectOption<'a, T>| o.value) + rest@,
            forall|i: int| 0 <= i < out@.len() ==> {
                &&& vstd::string::to_string_from_display_ensures::<T>(&#[trigger] out@[i].value, out@[i].title)
                &&& out@[i].description is None
                &&& !out@[i].disabled
                &&& !out@[i].active
            },
        decreases rest@.len(),
    {
        let item = rest.remove(0);
        let o = SelectOption::new(item);
        let ghost before = out@;
        out.push(o);
        proof {
            assert(out@.map_values(|o: SelectOption<'a, T>| o.value) == before.map_values(|o: SelectOption<'a, T>| o.value).push(item));
        }
    }
    proof {
        assert(all == out@.map_values(|o: SelectOption<'a, T>| o.value));
        assert forall|i: int| 0 <= i < all.len() implies out@[i].value == all[i] by {
            assert(out@.map_values(|o: SelectOption<'a, T>| o.value)[i] == out@[i].value);
        }
    }
    out
}


/// The page indicator of a list: the focused page and the number of pages,
/// kept to their lowest eight bits.
pub open spec fn page_section(input: SelectInput) -> Section {
    Section::Page(
        (input.focused / input.items_per_page) as u8,
        spec_count_pages(input.total_items as nat, input.items_per_page as nat) as u8,
    )
}

/// The flags of an option of a single choice.
pub open spec fn exclusive_flags(focused: bool, disabled: bool) -> Flags {
    let b0: u8 = 0;
    let b1: u8 = if focused { b0 | 1u8 } else { b0 };
    let b2: u8 = if disabled { b1 | 4u8 } else { b1 };
    Flags { bits: b2 }
}

/// What one option of a single choice draws: its section, framing its title.
pub open spec fn exclusive_option_marks<'a, T, S: Style>(style: &S, o: SelectOption<'a, T>, focused: bool) -> Seq<Mark> {
    let flags = exclusive_flags(focused, o.disabled);
    style.begin_marks(Section::OptionExclusive(flags)) + seq![Mark::Print(o.title@)]
        + style.end_marks(Section::OptionExclusive(flags))
}

/// What the options `opts` of a page draw, the first being at position `n`
/// of the page and the focused one at position `pf`.
pub open spec fn exclusive_page_marks<'a, T, S: Style>(style: &S, opts: Seq<SelectOption<'a, T>>, n: nat, pf: nat) -> Seq<Mark>
    decreases opts.len(),
{
    if opts.len() == 0 {
        Seq::empty()
    } else {
        exclusive_option_marks(style, opts[0], n == pf) + exclusive_page_marks(style, opts.drop_first(), n + 1, pf)
    }
}

/// What a select prompt draws once answered: the message and the focused title.
pub open spec fn select_answered_marks<'a, T, S: Style>(p: &Select<'a, T>, style: &S) -> Seq<Mark> {
    style.begin_marks(Section::Query(true)) + seq![Mark::Print(p.message@)] + style.end_marks(Section::Query(true))
        + style.begin_marks(Section::Answer(true)) + seq![Mark::Print(p.options@[p.input.focused as int].title@)]
        + style.end_marks(Section::Answer(true))
}

/// What a select prompt draws before it is answered: the message, the options
/// of the focused page, and the page indicator.
pub open spec fn select_active_marks<'a, T, S: Style>(p: &Select<'a, T>, style: &S) -> Seq<Mark> {
    style.begin_marks(Section::Query(false)) + seq![Mark::Print(p.message@)] + style.end_marks(Section::Query(false))
        + exclusive_page_marks(style, p.options@.subrange(spec_page_start(p.input) as int, spec_page_end(p.input) as int), 0, spec_page_focused(p.input))
        + style.begin_marks(page_section(p.input)) + style.end_marks(page_section(p.input))
}

/// What a select prompt draws at draw time `t`.
pub open spec fn select_marks<'a, T, S: Style>(p: &Select<'a, T>, style: &S, t: DrawTime) -> Seq<Mark> {
    let body = if t == DrawTime::Last { select_answered_marks(p, style) } else { select_active_marks(p, style) };
    seq![Mark::PrePrompt] + body + seq![Mark::PostPrompt]
}

impl<'a, T> Select<'a, T> {
    /// The style can draw the prompt at draw time `t`.
    pub open spec fn can_draw<S: Style>(&self, style: &S, t: DrawTime) -> bool {
        &&& style.supports(Section::Query(true))
        &&& style.supports(Section::Query(false))
        &&& style.supports(Section::Answer(true))
        &&& forall|f: Flags| #[trigger] style.supports(Section::OptionExclusive(f))
        &&& t == DrawTime::Last ==> self.input.focused < self.options@.len()
        &&& t != DrawTime::Last ==> {
            &&& self.input.items_per_page > 0
            &&& (self.input.wf() || self.input.focused == 0)
            &&& self.input.total_items == self.options@.len()
            &&& self.input.focused + self.input.items_per_page <= usize::MAX
            &&& style.supports(page_section(self.input))
        }
    }

    fn draw_answered<S: Style>(&self, r: &mut Renderer, style: &S)
        requires
            self.can_draw(style, DrawTime::Last),
        ensures
            final(r).log() == old(r).log() + select_answered_marks(self, style),
            final(r).draw_time == old(r).draw_time,
    {
        style.begin(r, Section::Query(true));
        r.print(cow_str(&self.message));
        style.end(r, Section::Query(true));
        style.begin(r, Section::Answer(true));
        r.print(self.options[self.input.focused].title.as_str());
        style.end(r, Section::Answer(true));
    }

    fn draw_page<S: Style>(&self, r: &mut Renderer, style: &S)
        requires
            self.can_draw(style, DrawTime::Update),
        ensures
            final(r).log() == old(r).log() + exclusive_page_marks(
                style,
                self.options@.subrange(spec_page_start(self.input) as int, spec_page_end(self.input) as int),
                0,
                spec_page_focused(self.input),
            ),
            final(r).draw_time == old(r).draw_time,
    {
        let (page_start, page_end, page_focused) = page_bounds(&self.input);
        let ghost page = self.options@.subrange(page_start as int, page_end as int);
        let mut i: usize = page_start;
        proof {
            assert(page.skip(0) == page);
        }
        while i < page_end
            invariant
                page_start <= i <= page_end <= self.options@.len(),
                page == self.options@.subrange(page_start as int, page_end as int),
                self.can_draw(style, DrawTime::Update),
                old(r).log() + exclusive_page_marks(style, page, 0, page_focused as nat)
                    == r.log() + exclusive_page_marks(style, page.skip(i - page_start), (i - page_start) as nat, page_focused as nat),
                r.draw_time == old(r).draw_time,
            decreases page_end - i,
        {
            let ghost rest = page.skip(i - page_start);
            proof {
                assert(rest.drop_first() == page.skip(i + 1 - page_start));
                assert(rest[0] == self.options@[i as int]);
            }
            let option = &self.options[i];
            let n = i - page_start;
            let mut flags = Flags::empty();
            if n == page_focused {
                flags = flags.union(Flags::focused());
            }
            if option.disabled {
                flags = flags.union(Flags::disabled());
            }
            proof {
                assert(flags == exclusive_flags(n == page_focused, option.disabled));
            }
            let ghost before = r.log();
            style.begin(r, Section::OptionExclusive(flags));
            r.print(option.title.as_str());
            style.end(r, Section::OptionExclusive(flags));
            proof {
                assert(r.log() == before + exclusive_option_marks(style, self.options@[i as int], n == page_focused));
            }
            i = i + 1;
        }
        proof {
            assert(page.skip(page_end - page_start) == Seq::<SelectOption<'a, T>>::empty());
        }
    }

    fn draw_active<S: Style>(&self, r: &mut Renderer, style: &S)
        requires
            self.can_draw(style, DrawTime::Update),
        ensures
            final(r).log() == old(r).log() + select_active_marks(self, style),
            final(r).draw_time == old(r).draw_time,
    {
        style.begin(r, Section::Query(false));
        r.print(cow_str(&self.message));
        style.end(r, Section::Query(false));
        self.draw_page(r, style);
        let page_i = self.input.get_page() as u8;
        let page_count = self.input.count_pages() as u8;
        style.begin(r, Section::Page(page_i, page_count));
        style.end(r, Section::Page(page_i, page_count));
    }

    /// Draws the prompt: the focused page while it is active, the chosen title once answered.
    pub fn draw_with_style<S: Style>(&self, r: &mut Renderer, style: &S)
        requires
            self.can_draw(style, old(r).draw_time),
        ensures
            final(r).log() == old(r).log() + select_marks(self, style, old(r).draw_time),
            final(r).draw_time == old(r).draw_time,
    {
        let draw_time = r.draw_time();
        r.pre_prompt();
        if let DrawTime::Last = draw_time {
            self.draw_answered(r, style);
        } else {
            self.draw_active(r, style);
        }
        r.post_prompt();
    }

    /// Draws the prompt in the default style, with ASCII symbols.
    pub fn draw(&self, r: &mut Renderer)
        requires
            self.can_draw(&DefaultStyle { ascii: true }, old(r).draw_time),
        ensures
            final(r).log() == old(r).log() + select_marks(self, &DefaultStyle { ascii: true }, old(r).draw_time),
            final(r).draw_time == old(r).draw_time,
    {
        let style = DefaultStyle { ascii: true };
        self.draw_with_style(r, &style);
    }
}

impl<'a, T> Valuable for Select<'a, T> {
    type Output = usize;

    open spec fn can_value(&self) -> bool {
        self.input.focused < self.options@.len()
    }

    /// The focused index, unless that option is disabled.
    fn value(&self) -> (r: Result<usize, Error>)
        ensures
            !self.options@[self.input.focused as int].disabled ==> r == Ok::<usize, Error>(self.input.focused),
            self.options@[self.input.focused as int].disabled ==> r matches Err(Error::InvalidCount { expected: 1, actual: 0 }),
    {
        if !self.options[self.input.focused].disabled {
            Ok(self.input.focused)
        } else {
            Err(Error::InvalidCount { expected: 1, actual: 0 })
        }
    }
}

} // verus!
