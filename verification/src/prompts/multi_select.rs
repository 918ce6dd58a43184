//! The [`MultiSelect`] prompt: choose any number of items from a list.
use std::borrow::Cow;
use vstd::prelude::*;

use crate::error::{Error, Valuable};
use crate::key::{KeyCode, KeyEvent};
use crate::laws::{lemma_count_active_bounds, lemma_toggle_keeps_surplus};
use crate::prompts::message::cow_str;
use crate::prompts::select::{
    direction_of, focus_after, focused_on, is_submit_key, key_direction, options_of, page_bounds, page_section, spec_page_end,
    spec_page_focused, spec_page_start, SelectInput, SelectOption,
};
use crate::style::{DefaultStyle, Flags, Section, Style};
use crate::utils::renderer::{DrawTime, Mark, Renderer};

verus! {

/// How many of the options are active.
pub open spec fn count_active<'a, T>(options: Seq<SelectOption<'a, T>>) -> nat
    decreases options.len(),
{
    if options.len() == 0 {
        0
    } else {
        count_active(options.drop_last()) + (if options.last().active { 1nat } else { 0nat })
    }
}

/// The values of the active options, in order.
pub open spec fn active_values<'a, T>(options: Seq<SelectOption<'a, T>>) -> Seq<T>
    decreases options.len(),
{
    if options.len() == 0 {
        Seq::empty()
    } else {
        (if options[0].active { seq![options[0].value] } else { Seq::empty() })
            + active_values(options.drop_first())
    }
}

/// The option `o` with its `active` flag set to `b`.
pub open spec fn with_active<'a, T>(o: SelectOption<'a, T>, b: bool) -> SelectOption<'a, T> {
    SelectOption { active: b, ..o }
}

/// The options after toggling the focused one, and the count after it: a
/// disabled option stays, an active one is released, an inactive one is
/// taken if the count is under `max`.
pub open spec fn spec_toggle<'a, T>(
    options: Seq<SelectOption<'a, T>>,
    focused: int,
    count: nat,
    max: Option<usize>,
) -> (Seq<SelectOption<'a, T>>, nat) {
    let o = options[focused];
    if o.disabled {
        (options, count)
    } else if o.active {
        (options.update(focused, with_active(o, false)), (count - 1) as nat)
    } else if under_limit(count, max) {
        (options.update(focused, with_active(o, true)), count + 1)
    } else {
        (options, count)
    }
}

/// How many of `indices` point into a list of `len` items.
pub open spec fn count_in_range(indices: Seq<usize>, len: nat) -> nat
    decreases indices.len(),
{
    if indices.len() == 0 {
        0
    } else {
        count_in_range(indices.drop_last(), len) + (if indices.last() < len { 1nat } else { 0nat })
    }
}

/// Whether `n` is within the limit `bound` (no limit when `None`).
pub open spec fn under_limit(n: nat, bound: Option<usize>) -> bool {
    match bound {
        None => true,
        Some(m) => n < m,
    }
}

/// Whether `n` reaches the minimum `bound` (always, when `None`).
pub open spec fn reaches_min(n: nat, bound: Option<usize>) -> bool {
    match bound {
        None => true,
        Some(m) => n >= m,
    }
}

/// The state after the key codes of `codes`, in order: the options, the count
/// of selections, the input, and whether any key submitted (a submit key
/// with the minimum reached).
pub open spec fn multi_run<'a, T>(
    options: Seq<SelectOption<'a, T>>,
    count: nat,
    input: SelectInput,
    min: Option<usize>,
    max: Option<usize>,
    codes: Seq<KeyCode>,
) -> (Seq<SelectOption<'a, T>>, nat, SelectInput, bool)
    decreases codes.len(),
{
    if codes.len() == 0 {
        (options, count, input, false)
    } else {
        let b = multi_run(options, count, input, min, max, codes.drop_last());
        let key = codes.last();
        let submit = is_submit_key(key) && reaches_min(b.1, min);
        let toggled = if key == KeyCode::Char(' ') { spec_toggle(b.0, b.2.focused as int, b.1, max) } else { (b.0, b.1) };
        (toggled.0, toggled.1, focused_on(b.2, focus_after(b.2, key)), b.3 || submit)
    }
}

/// Prompt to select multiple items from a list.
///
/// | Key                  | Action                          |
/// | -------------------- | ------------------------------- |
/// | `Enter`, `Backspace` | Submit current/initial value    |
/// | `Space`              | Toggle selected in focused item |
/// | `Up`, `k`, `K`       | Focus previous item             |
/// | `Down`, `j`, `J`     | Focus next item                 |
/// | `Left`, `h`, `H`     | Focus next page                 |
/// | `Right`, `l`, `L`    | Focus previous page             |
pub struct MultiSelect<'a, T> {
    /// Message used to display in the prompt.
    pub message: Cow<'a, str>,
    /// List of options.
    pub options: Vec<SelectOption<'a, T>>,
    /// Minimum number of items required to be selected.
    pub min: Option<usize>,
    /// Maximum number of items allowed to be selected.
    pub max: Option<usize>,
    /// Input state.
    pub input: SelectInput,
    /// Number of selections made through the prompt.
    pub selected_count: usize,
}

impl<'a, T> MultiSelect<'a, T> {
    /// The kept count is the number of active options.
    pub open spec fn consistent(&self) -> bool {
        self.selected_count == count_active(self.options@)
    }

    /// Create a new multi-select prompt with custom [`SelectOption`] items.
    pub fn new_complex(message: &'a str, options: Vec<SelectOption<'a, T>>) -> (r: Self)
        ensures
            r.message@ == message@,
            r.options@ == options@,
            r.min is None,
            r.max is None,
            r.selected_count == 0,
            r.input.total_items == options@.len(),
            r.input.focused == 0,
            r.input.items_per_page == 10,
            r.input.loop_mode,
    {
        let options_len = options.len();
        MultiSelect {
            message: Cow::Borrowed(message),
            options,
            min: None,
            max: None,
            selected_count: 0,
            input: SelectInput::new(options_len),
        }
    }

    /// Set initial selected indices; those out of the list are ignored.
    #[verifier::spinoff_prover]
    #[verifier::rlimit(30)]
    pub fn selected(&mut self, indices: &[usize]) -> (r: &mut Self)
        requires
            old(self).selected_count + indices@.len() <= usize::MAX,
        ensures
            r.options@.len() == old(self).options@.len(),
            forall|j: int| 0 <= j < r.options@.len() ==> {
                &&& #[trigger] r.options@[j].active == (old(self).options@[j].active || indices@.contains(j as usize))
                &&& r.options@[j].value == old(self).options@[j].value
                &&& r.options@[j].title == old(self).options@[j].title
                &&& r.options@[j].description == old(self).options@[j].description
                &&& r.options@[j].disabled == old(self).options@[j].disabled
            },
            r.selected_count == old(self).selected_count + count_in_range(indices@, old(self).options@.len()),
            r.message == old(self).message,
            r.min == old(self).min,
            r.max == old(self).max,
            r.input == old(self).input,
            *final(self) == *final(r),
    {
        let n = indices.len();
        let len = self.options.len();
        let mut k: usize = 0;
        while k < n
            invariant
                n == indices@.len(),
                k <= n,
                len == self.options@.len(),
                len == old(self).options@.len(),
                old(self).selected_count + n <= usize::MAX,
                self.selected_count == old(self).selected_count + count_in_range(indices@.take(k as int), len as nat),
                count_in_range(indices@.take(k as int), len as nat) <= k,
                forall|j: int| 0 <= j < len ==> {
                    &&& #[trigger] self.options@[j].active == (old(self).options@[j].active || indices@.take(k as int).contains(j as usize))
                    &&& self.options@[j].value == old(self).options@[j].value
                    &&& self.options@[j].title == old(self).options@[j].title
                    &&& self.options@[j].description == old(self).options@[j].description
                    &&& self.options@[j].disabled == old(self).options@[j].disabled
                },
                self.message == old(self).message,
                self.min == old(self).min,
                self.max == old(self).max,
                self.input == old(self).input,
            decreases n - k,
        {
            let i = indices[k];
            proof {
                let t0 = indices@.take(k as int);
                let t1 = indices@.take(k + 1);
                assert(t1.drop_last() == t0);
                assert(t1.last() == i);
                assert forall|x: usize| t1.contains(x) <==> (t0.contains(x) || x == i) by {
                    if t1.contains(x) {
                        let w = choose|w: int| 0 <= w < t1.len() && #[trigger] t1[w] == x;
                        if w < k {
                            assert(t0[w] == x);
                        }
                    }
                    if t0.contains(x) {
                        let w = choose|w: int| 0 <= w < t0.len() && #[trigger] t0[w] == x;
                        assert(t1[w] == x);
                    }
                    if x == i {
                        assert(t1[k as int] == x);
                    }
                }
            }
            let ghost before = self.options@;
            if i < len {
                self.options[i].active = true;
                self.selected_count = self.selected_count + 1;
            }
            proof {
                let t0 = indices@.take(k as int);
                let t1 = indices@.take(k + 1);
                assert forall|j: int| 0 <= j < len implies {
                    &&& #[trigger] self.options@[j].active == (old(self).options@[j].active || t1.contains(j as usize))
                    &&& self.options@[j].value == old(self).options@[j].value
                    &&& self.options@[j].title == old(self).options@[j].title
                    &&& self.options@[j].description == old(self).options@[j].description
                    &&& self.options@[j].disabled == old(self).options@[j].disabled
                } by {
                    assert(t1.contains(j as usize) == (t0.contains(j as usize) || j as usize == i));
                    assert(before[j].active == (old(self).options@[j].active || t0.contains(j as usize)));
                    assert(before[j].value == old(self).options@[j].value);
                    if j == i {
                        assert(self.options@[j].value == before[j].value);
                    } else {
                        assert(self.options@[j] == before[j]);
                    }
                }
            }
            k = k + 1;
        }
        proof {
            assert(indices@.take(n as int) == indices@);
        }
        self
    }

    /// Set whether the cursor goes to the first option after the last one and vice-versa.
    pub fn in_loop(&mut self, is_loop: bool) -> (r: &mut Self)
        ensures
            r.input.loop_mode == is_loop,
            r.input.focused == old(self).input.focused,
            r.input.items_per_page == old(self).input.items_per_page,
            r.input.total_items == old(self).input.total_items,
            r.options == old(self).options,
            r.message == old(self).message,
            r.min == old(self).min,
            r.max == old(self).max,
            r.selected_count == old(self).selected_count,
            *final(self) == *final(r),
    {
        self.input.set_loop_mode(is_loop);
        self
    }

    /// Set number of items per page to display, at most the number of items.
    pub fn items_per_page(&mut self, items_per_page: usize) -> (r: &mut Self)
        ensures
            r.input.items_per_page == if items_per_page <= old(self).input.total_items {
                items_per_page
            } else {
                old(self).input.total_items
            },
            r.input.focused == old(self).input.focused,
            r.input.loop_mode == old(self).input.loop_mode,
            r.input.total_items == old(self).input.total_items,
            r.options == old(self).options,
            r.message == old(self).message,
            r.min == old(self).min,
            r.max == old(self).max,
            r.selected_count == old(self).selected_count,
            *final(self) == *final(r),
    {
        self.input.set_items_per_page(items_per_page);
        self
    }

    /// Set minimum number of items required to be selected.
    pub fn min(&mut self, min: usize) -> (r: &mut Self)
        ensures
            r.min == Some(min),
            r.max == old(self).max,
            r.input == old(self).input,
            r.options == old(self).options,
            r.message == old(self).message,
            r.selected_count == old(self).selected_count,
            *final(self) == *final(r),
    {
        self.min = Some(min);
        self
    }

    /// Set maximum number of items allowed to be selected.
    pub fn max(&mut self, max: usize) -> (r: &mut Self)
        ensures
            r.max == Some(max),
            r.min == old(self).min,
            r.input == old(self).input,
            r.options == old(self).options,
            r.message == old(self).message,
            r.selected_count == old(self).selected_count,
            *final(self) == *final(r),
    {
        self.max = Some(max);
        self
    }

    /// The focused option can be toggled without a counter running over.
    pub open spec fn can_toggle(&self) -> bool {
        &&& self.input.focused < self.options@.len()
        &&& self.options@[self.input.focused as int].active ==> self.selected_count > 0
        &&& {
            let o = self.options@[self.input.focused as int];
            !o.disabled && !o.active && self.max is None ==> self.selected_count < usize::MAX
        }
    }

    /// Selects the focused option, or releases it if it was selected.
    pub fn toggle_focused(&mut self)
        requires
            old(self).can_toggle(),
        ensures
            (final(self).options@, final(self).selected_count as nat) == spec_toggle(
                old(self).options@,
                old(self).input.focused as int,
                old(self).selected_count as nat,
                old(self).max,
            ),
            final(self).message == old(self).message,
            final(self).min == old(self).min,
            final(self).max == old(self).max,
            final(self).input == old(self).input,
    {
        let selected = self.input.focused;
        if self.options[selected].disabled {
            return;
        }
        let under_limit = match self.max {
            None => true,
            Some(max) => self.selected_count < max,
        };
        if self.options[selected].active {
            self.options[selected].active = false;
            self.selected_count = self.selected_count - 1;
        } else if under_limit {
            self.options[selected].active = true;
            self.selected_count = self.selected_count + 1;
        }
    }

    /// Only submit if the minimum are selected.
    pub fn validate_to_submit(&self) -> (r: bool)
        ensures
            r == reaches_min(self.selected_count as nat, self.min),
    {
        match self.min {
            None => true,
            Some(min) => self.selected_count >= min,
        }
    }


    /// Handles a key; returns whether the prompt is submitted.
    pub fn handle_key(&mut self, key: &KeyCode) -> (submit: bool)
        requires
            *key == KeyCode::Char(' ') ==> old(self).can_toggle(),
            key_direction(*key) matches Some(d) ==> old(self).input.can_move_to(d),
        ensures
            submit == (is_submit_key(*key) && reaches_min(old(self).selected_count as nat, old(self).min)),
            *key == KeyCode::Char(' ') ==> (final(self).options@, final(self).selected_count as nat)
                == spec_toggle(old(self).options@, old(self).input.focused as int, old(self).selected_count as nat, old(self).max),
            *key != KeyCode::Char(' ') ==> final(self).options == old(self).options
                && final(self).selected_count == old(self).selected_count,
            final(self).input.focused == match key_direction(*key) {
                Some(d) => old(self).input.spec_moved(d),
                None => old(self).input.focused as nat,
            },
            final(self).input.items_per_page == old(self).input.items_per_page,
            final(self).input.loop_mode == old(self).input.loop_mode,
            final(self).input.total_items == old(self).input.total_items,
            final(self).message == old(self).message,
            final(self).min == old(self).min,
            final(self).max == old(self).max,
            old(self).input.wf() ==> final(self).input.wf(),
    {
        match key {
            KeyCode::Enter | KeyCode::Backspace => self.validate_to_submit(),
            KeyCode::Char(' ') => {
                self.toggle_focused();
                false
            },
            _ => {
                if let Some(d) = direction_of(key) {
                    self.input.move_cursor(d);
                }
                false
            },
        }
    }

    /// Handles the key codes of a batch of keys, in order; returns whether any submitted.
    pub fn handle_key_event(&mut self, key: &KeyEvent) -> (submit: bool)
        requires
            old(self).selected_count >= count_active(old(self).options@),
            old(self).selected_count + key.codes@.len() < usize::MAX,
            old(self).input.wf(),
            old(self).input.total_items == old(self).options@.len(),
            old(self).input.total_items + old(self).input.items_per_page <= usize::MAX,
        ensures
            (final(self).options@, final(self).selected_count as nat, final(self).input, submit) == multi_run(
                old(self).options@,
                old(self).selected_count as nat,
                old(self).input,
                old(self).min,
                old(self).max,
                key.codes@,
            ),
            final(self).selected_count - count_active(final(self).options@)
                == old(self).selected_count - count_active(old(self).options@),
            final(self).message == old(self).message,
            final(self).min == old(self).min,
            final(self).max == old(self).max,
            final(self).input.wf(),
    {
        let n = key.codes.len();
        let mut i: usize = 0;
        let mut submit = false;
        while i < n
            invariant
                n == key.codes@.len(),
                i <= n,
                (self.options@, self.selected_count as nat, self.input, submit) == multi_run(
                    old(self).options@,
                    old(self).selected_count as nat,
                    old(self).input,
                    old(self).min,
                    old(self).max,
                    key.codes@.take(i as int),
                ),
                self.selected_count - count_active(self.options@)
                    == old(self).selected_count - count_active(old(self).options@),
                old(self).selected_count >= count_active(old(self).options@),
                self.selected_count <= old(self).selected_count + i,
                old(self).selected_count + n < usize::MAX,
                self.input.wf(),
                self.input.total_items == old(self).input.total_items,
                self.input.items_per_page == old(self).input.items_per_page,
                self.input.total_items == self.options@.len(),
                self.message == old(self).message,
                self.min == old(self).min,
                self.max == old(self).max,
                old(self).input.total_items + old(self).input.items_per_page <= usize::MAX,
            decreases n - i,
        {
            proof {
                assert(key.codes@.take(i + 1).drop_last() == key.codes@.take(i as int));
                lemma_count_active_bounds(self.options@, self.input.focused as int);
                lemma_toggle_keeps_surplus(self.options@, self.input.focused as int, self.selected_count as nat, self.max);
            }
            let s = self.handle_key(&key.codes[i]);
            submit = submit || s;
            i = i + 1;
        }
        proof {
            assert(key.codes@.take(n as int) == key.codes@);
        }
        submit
    }

    /// Takes the values of the selected options, in order; the list of options is emptied.
    pub fn get_value(&mut self) -> (r: Vec<T>)
        ensures
            r@ == active_values(old(self).options@),
            final(self).options@.len() == 0,
            final(self).message == old(self).message,
            final(self).min == old(self).min,
            final(self).max == old(self).max,
            final(self).input == old(self).input,
            final(self).selected_count == old(self).selected_count,
    {
        let mut rest = Vec::new();
        std::mem::swap(&mut rest, &mut self.options);
        let ghost all = rest@;
        let mut out: Vec<T> = Vec::new();
        while rest.len() > 0
            invariant
                out@ + active_values(rest@) == active_values(all),
                self.options@.len() == 0,
                self.message == old(self).message,
                self.min == old(self).min,
                self.max == old(self).max,
                self.input == old(self).input,
                self.selected_count == old(self).selected_count,
            decreases rest@.len(),
        {
            let ghost before = rest@;
            let o = rest.remove(0);
            proof {
                assert(before.drop_first() == rest@);
                assert(before[0] == o);
            }
            if o.active {
                out.push(o.value);
                proof {
                    assert(active_values(before) == seq![before[0].value] + active_values(rest@));
                }
            } else {
                proof {
                    assert(active_values(before) == Seq::<T>::empty() + active_values(rest@));
                }
            }
        }
        proof {
            assert(out@ + Seq::<T>::empty() == out@);
        }
        out
    }
}

impl<'a, T: core::fmt::Display> MultiSelect<'a, T> {
    /// Create a new multi-select prompt whose options are the given values.
    pub fn new(message: &'a str, items: Vec<T>) -> (r: Self)
        ensures
            r.message@ == message@,
            r.options@.len() == items@.len(),
            forall|i: int| 0 <= i < items@.len() ==> {
                &&& #[trigger] r.options@[i].value == items@[i]
                &&& vstd::string::to_string_from_display_ensures::<T>(&items@[i], r.options@[i].title)
                &&& r.options@[i].description is None
                &&& !r.options@[i].disabled
                &&& !r.options@[i].active
            },
            r.min is None,
            r.max is None,
            r.selected_count == 0,
            r.input.total_items == items@.len(),
            r.input.focused == 0,
            r.input.items_per_page == 10,
            r.input.loop_mode,
    {
        let options = options_of(items);
        Self::new_complex(message, options)
    }
}



/// The flags of an option of a multiple choice.
pub open spec fn multi_flags(focused: bool, disabled: bool, active: bool) -> Flags {
    let b0: u8 = 0;
    let b1: u8 = if focused { b0 | 1u8 } else { b0 };
    let b2: u8 = if disabled { b1 | 4u8 } else { b1 };
    let b3: u8 = if active { b2 | 2u8 } else { b2 };
    Flags { bits: b3 }
}

/// What one option draws: its section, framing its title.
pub open spec fn multi_option_marks<'a, T, S: Style>(style: &S, o: SelectOption<'a, T>, focused: bool) -> Seq<Mark> {
    let flags = multi_flags(focused, o.disabled, o.active);
    style.begin_marks(Section::Option(flags)) + seq![Mark::Print(o.title@)] + style.end_marks(Section::Option(flags))
}

/// What the options `opts` of a page draw, the first being at position `n`
/// of the page and the focused one at position `pf`.
pub open spec fn multi_page_marks<'a, T, S: Style>(style: &S, opts: Seq<SelectOption<'a, T>>, n: nat, pf: nat) -> Seq<Mark>
    decreases opts.len(),
{
    if opts.len() == 0 {
        Seq::empty()
    } else {
        multi_option_marks(style, opts[0], n == pf) + multi_page_marks(style, opts.drop_first(), n + 1, pf)
    }
}

/// What the active options of `opts` draw as items of a list; `first` tells
/// whether no item was drawn before.
pub open spec fn list_marks<'a, T, S: Style>(style: &S, opts: Seq<SelectOption<'a, T>>, first: bool) -> Seq<Mark>
    decreases opts.len(),
{
    if opts.len() == 0 {
        Seq::empty()
    } else if opts[0].active {
        style.begin_marks(Section::ListItem(first)) + seq![Mark::Print(opts[0].title@)]
            + style.end_marks(Section::ListItem(first)) + list_marks(style, opts.drop_first(), false)
    } else {
        list_marks(style, opts.drop_first(), first)
    }
}

/// What a multi-select prompt draws once answered: the message and the list
/// of the selected titles.
pub open spec fn multi_answered_marks<'a, T, S: Style>(m: &MultiSelect<'a, T>, style: &S) -> Seq<Mark> {
    style.begin_marks(Section::Query(true)) + seq![Mark::Print(m.message@)] + style.end_marks(Section::Query(true))
        + style.begin_marks(Section::Answer(true)) + style.begin_marks(Section::List)
        + list_marks(style, m.options@, true) + style.end_marks(Section::List) + style.end_marks(Section::Answer(true))
}

/// What a multi-select prompt draws before it is answered: the message, the
/// options of the focused page, and the page indicator.
pub open spec fn multi_active_marks<'a, T, S: Style>(m: &MultiSelect<'a, T>, style: &S) -> Seq<Mark> {
    style.begin_marks(Section::Query(false)) + seq![Mark::Print(m.message@)] + style.end_marks(Section::Query(false))
        + multi_page_marks(style, m.options@.subrange(spec_page_start(m.input) as int, spec_page_end(m.input) as int), 0, spec_page_focused(m.input))
        + style.begin_marks(page_section(m.input)) + style.end_marks(page_section(m.input))
}

/// What a multi-select prompt draws at draw time `t`.
pub open spec fn multi_marks<'a, T, S: Style>(m: &MultiSelect<'a, T>, style: &S, t: DrawTime) -> Seq<Mark> {
    let body = if t == DrawTime::Last { multi_answered_marks(m, style) } else { multi_active_marks(m, style) };
    seq![Mark::PrePrompt] + body + seq![Mark::PostPrompt]
}

impl<'a, T> MultiSelect<'a, T> {
    /// The style can draw the prompt at draw time `t`.
    pub open spec fn can_draw<S: Style>(&self, style: &S, t: DrawTime) -> bool {
        &&& style.supports(Section::Query(true))
        &&& style.supports(Section::Query(false))
        &&& style.supports(Section::Answer(true))
        &&& style.supports(Section::List)
        &&& style.supports(Section::ListItem(true))
        &&& style.supports(Section::ListItem(false))
        &&& forall|f: Flags| #[trigger] style.supports(Section::Option(f))
        &&& t != DrawTime::Last ==> {
            &&& self.input.items_per_page > 0
            &&& (self.input.wf() || self.input.focused == 0)
            &&& self.input.total_items == self.options@.len()
            &&& self.input.focused + self.input.items_per_page <= usize::MAX
            &&& style.supports(page_section(self.input))
        }
    }

    fn draw_list<S: Style>(&self, r: &mut Renderer, style: &S)
        requires
            self.can_draw(style, DrawTime::Last),
        ensures
            final(r).log() == old(r).log() + list_marks(style, self.options@, true),
            final(r).draw_time == old(r).draw_time,
    {
        let n = self.options.len();
        let mut i: usize = 0;
        let mut first = true;
        proof {
            assert(self.options@.skip(0) == self.options@);
        }
        while i < n
            invariant
                n == self.options@.len(),
                i <= n,
                self.can_draw(style, DrawTime::Last),
                old(r).log() + list_marks(style, self.options@, true) == r.log() + list_marks(style, self.options@.skip(i as int), first),
                r.draw_time == old(r).draw_time,
            decreases n - i,
        {
            let ghost rest = self.options@.skip(i as int);
            proof {
                assert(rest.drop_first() == self.options@.skip(i + 1));
                assert(rest[0] == self.options@[i as int]);
            }
            let option = &self.options[i];
            if option.active {
                let ghost before = r.log();
                style.begin(r, Section::ListItem(first));
                r.print(option.title.as_str());
                style.end(r, Section::ListItem(first));
                proof {
                    assert(r.log() == before + (style.begin_marks(Section::ListItem(first)) + seq![Mark::Print(option.title@)]
                        + style.end_marks(Section::ListItem(first))));
                }
                first = false;
            }
            i = i + 1;
        }
        proof {
            assert(self.options@.skip(n as int) == Seq::<SelectOption<'a, T>>::empty());
        }
    }

    fn draw_answered<S: Style>(&self, r: &mut Renderer, style: &S)
        requires
            self.can_draw(style, DrawTime::Last),
        ensures
            final(r).log() == old(r).log() + multi_answered_marks(self, style),
            final(r).draw_time == old(r).draw_time,
    {
        style.begin(r, Section::Query(true));
        r.print(cow_str(&self.message));
        style.end(r, Section::Query(true));
        style.begin(r, Section::Answer(true));
        style.begin(r, Section::List);
        self.draw_list(r, style);
        style.end(r, Section::List);
        style.end(r, Section::Answer(true));
    }

    fn draw_page<S: Style>(&self, r: &mut Renderer, style: &S)
        requires
            self.can_draw(style, DrawTime::Update),
        ensures
            final(r).log() == old(r).log() + multi_page_marks(
                style,
                self.options@.subrange(spec_page_start(self.input) as int, spec_page_end(self.input) as int),
                0,
                spec_page_focused(self.input),
            ),
            final(r).draw_time == old(r).draw_time,
    {
        let (page_start, page_end, page_focused) = page_bounds(&self.input);
        let ghost page = self.options@.subrange(page_start as int, page_end as int);
        let mut i: usize = page_start;
        proof {
            assert(page.skip(0) == page);
        }
        while i < page_end
            invariant
                page_start <= i <= page_end <= self.options@.len(),
                page == self.options@.subrange(page_start as int, page_end as int),
                self.can_draw(style, DrawTime::Update),
                old(r).log() + multi_page_marks(style, page, 0, page_focused as nat)
                    == r.log() + multi_page_marks(style, page.skip(i - page_start), (i - page_start) as nat, page_focused as nat),
                r.draw_time == old(r).draw_time,
            decreases page_end - i,
        {
            let ghost rest = page.skip(i - page_start);
            proof {
                assert(rest.drop_first() == page.skip(i + 1 - page_start));
                assert(rest[0] == self.options@[i as int]);
            }
            let option = &self.options[i];
            let n = i - page_start;
            let mut flags = Flags::empty();
            if n == page_focused {
                flags = flags.union(Flags::focused());
            }
            if option.disabled {
                flags = flags.union(Flags::disabled());
            }
            if option.active {
                flags = flags.union(Flags::selected());
            }
            proof {
                assert(flags == multi_flags(n == page_focused, option.disabled, option.active));
            }
            let ghost before = r.log();
            style.begin(r, Section::Option(flags));
            r.print(option.title.as_str());
            style.end(r, Section::Option(flags));
            proof {
                assert(r.log() == before + multi_option_marks(style, self.options@[i as int], n == page_focused));
            }
            i = i + 1;
        }
        proof {
            assert(page.skip(page_end - page_start) == Seq::<SelectOption<'a, T>>::empty());
        }
    }

    fn draw_active<S: Style>(&self, r: &mut Renderer, style: &S)
        requires
            self.can_draw(style, DrawTime::Update),
        ensures
            final(r).log() == old(r).log() + multi_active_marks(self, style),
            final(r).draw_time == old(r).draw_time,
    {
        style.begin(r, Section::Query(false));
        r.print(cow_str(&self.message));
        style.end(r, Section::Query(false));
        self.draw_page(r, style);
        let page_i = self.input.get_page() as u8;
        let page_count = self.input.count_pages() as u8;
        style.begin(r, Section::Page(page_i, page_count));
        style.end(r, Section::Page(page_i, page_count));
    }

    /// Draws the prompt: the focused page while it is active, the selected titles once answered.
    pub fn draw_with_style<S: Style>(&self, r: &mut Renderer, style: &S)
        requires
            self.can_draw(style, old(r).draw_time),
        ensures
            final(r).log() == old(r).log() + multi_marks(self, style, old(r).draw_time),
            final(r).draw_time == old(r).draw_time,
    {
        let draw_time = r.draw_time();
        r.pre_prompt();
        if let DrawTime::Last = draw_time {
            self.draw_answered(r, style);
        } else {
            self.draw_active(r, style);
        }
        r.post_prompt();
    }

    /// Draws the prompt in the default style.
    pub fn draw(&self, r: &mut Renderer)
        requires
            self.can_draw(&DefaultStyle { ascii: false }, old(r).draw_time),
        ensures
            final(r).log() == old(r).log() + multi_marks(self, &DefaultStyle { ascii: false }, old(r).draw_time),
            final(r).draw_time == old(r).draw_time,
    {
        let style = DefaultStyle { ascii: false };
        self.draw_with_style(r, &style);
    }
}

/// Bit `j` of `a | (1 << i)` is set exactly when `j == i` or bit `j` of `a` is set.
proof fn lemma_set_bit(a: u8, i: u8, j: u8)
    requires
        i < 8,
        j < 8,
    ensures
        ((a | (1u8 << i)) >> j) & 1u8 == (if j == i { 1u8 } else { (a >> j) & 1u8 }),
{
    assert(((a | (1u8 << i)) >> j) & 1u8 == (if j == i { 1u8 } else { (a >> j) & 1u8 })) by (bit_vector)
        requires
            i < 8,
            j < 8,
    ;
}

/// Every bit of zero is clear.
proof fn lemma_zero_bits(j: u8)
    requires
        j < 8,
    ensures
        (0u8 >> j) & 1u8 == 0u8,
{
    assert((0u8 >> j) & 1u8 == 0u8) by (bit_vector);
}

impl<'a, T> Valuable for MultiSelect<'a, T> {
    type Output = u8;

    /// Only the first eight options can be active.
    open spec fn can_value(&self) -> bool {
        forall|i: int| 0 <= i < self.options@.len() && #[trigger] self.options@[i].active ==> i < 8
    }

    /// A bit mask: bit `i` is set exactly when option `i` is active.
    fn value(&self) -> (r: Result<u8, Error>)
        ensures
            r matches Ok(m) && forall|j: u8| j < 8 ==>
                (((m >> j) & 1u8 == 1u8) <==> (j < self.options@.len() && self.options@[j as int].active)),
    {
        let n = self.options.len();
        let mut answer: u8 = 0;
        let mut i: usize = 0;
        proof {
            assert forall|j: u8| j < 8 implies (answer >> j) & 1u8 == 0u8 by {
                lemma_zero_bits(j);
            }
        }
        while i < n
            invariant
                n == self.options@.len(),
                i <= n,
                self.can_value(),
                forall|j: u8| j < 8 ==> ((((answer >> j) & 1u8) == 1u8) <==> (j < i && self.options@[j as int].active)),
                forall|j: u8| j < 8 ==> (((answer >> j) & 1u8) == 1u8 || ((answer >> j) & 1u8) == 0u8),
            decreases n - i,
        {
            if self.options[i].active {
                let ghost before = answer;
                let b: u8 = i as u8;
                answer = answer | (1u8 << b);
                proof {
                    assert forall|j: u8| j < 8 implies ((answer >> j) & 1u8) == (if j == b { 1u8 } else { (before >> j) & 1u8 }) by {
                        lemma_set_bit(before, b, j);
                    }
                }
            }
            i = i + 1;
        }
        Ok(answer)
    }
}

} // verus!
