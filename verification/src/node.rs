//! A prompt shown as a node of a frame-driven interface: what each frame does
//! with it, given the keys of the frame, and how its text is laid out in lines.
use vstd::prelude::*;

use crate::key::{KeyCode, KeyEvent};
use crate::prompts::confirm::{confirm_handles, confirm_run, Confirm};
use crate::prompts::message::Message;
use crate::prompts::multi_select::{count_active, multi_run, MultiSelect};
use crate::prompts::select::{select_run, Select};
use crate::prompts::toggle::{toggle_run, Toggle};
use crate::prompts::number::{number_type_chars, Number};
use crate::prompts::password::Password;
use crate::prompts::text::{last_enter, line_apply_codes, line_type_chars, line_will_handle, submitted_value, Text};
use crate::prompts::validator::Validator;
use crate::strings::push_char;
use crate::utils::num_like::NumLike;
use crate::text_style_adapter::{runs, StyledString, TextStyle};
use crate::utils::renderer::{next_draw_time, DrawTime};

verus! {

/// Where a prompt node stands.
#[derive(Debug, Clone, Copy, PartialEq, Eq, Structural)]
pub enum AskyState {
    /// Shown, and waiting for keys.
    Waiting,
    /// Answered or cancelled.
    Complete,
    /// Taken off the screen.
    Hidden,
}

impl Default for AskyState {
    fn default() -> (r: Self)
        ensures
            r == AskyState::Waiting,
    {
        AskyState::Waiting
    }
}

/// Whether some prompt is being asked.
#[derive(Debug, Clone, Copy, PartialEq, Eq, Structural)]
pub enum AskyPrompt {
    Inactive,
    Active,
}

impl Default for AskyPrompt {
    fn default() -> (r: Self)
        ensures
            r == AskyPrompt::Inactive,
    {
        AskyPrompt::Inactive
    }
}

/// What a frame does with the keys it received, for a waiting node.
#[derive(Debug, Clone, Copy, PartialEq, Eq, Structural)]
pub enum KeyDecision {
    /// Nothing to do: the keys do not concern the prompt and it was drawn already.
    Skip,
    /// The prompt is cancelled.
    Abort,
    /// The prompt handles the keys, then is drawn.
    Handle,
}

/// An abort key cancels; otherwise the prompt handles the keys when they
/// concern it, or when it was never drawn.
pub open spec fn spec_key_decision(abort: bool, will_handle: bool, draw_time: DrawTime) -> KeyDecision {
    if abort {
        KeyDecision::Abort
    } else if will_handle || draw_time == DrawTime::First {
        KeyDecision::Handle
    } else {
        KeyDecision::Skip
    }
}

/// What a frame does with the keys it received, for a waiting node.
pub fn key_decision(abort: bool, will_handle: bool, draw_time: DrawTime) -> (r: KeyDecision)
    ensures
        r == spec_key_decision(abort, will_handle, draw_time),
{
    if abort {
        KeyDecision::Abort
    } else if will_handle || draw_time == DrawTime::First {
        KeyDecision::Handle
    } else {
        KeyDecision::Skip
    }
}

/// How the answer to a prompt is delivered.
#[derive(Debug, Clone, Copy, PartialEq, Eq, Structural)]
pub enum Settle {
    /// The prompt was cancelled.
    Cancel,
    /// The prompt's value is delivered (or the error of getting it).
    Value,
}

/// The lifecycle of a prompt node: its state, and whether its answer is still owed.
#[derive(Debug, Clone, Copy, PartialEq, Eq, Structural)]
pub struct PromptNode {
    pub state: AskyState,
    pub pending: bool,
}

impl PromptNode {
    /// A node that waits, with its answer owed.
    pub fn new() -> (r: Self)
        ensures
            r.state == AskyState::Waiting,
            r.pending,
    {
        PromptNode { state: AskyState::Waiting, pending: true }
    }

    /// Completes the node with `outcome`: the draw that follows is the last.
    /// Returns what to deliver: `outcome` if the answer was still owed, else nothing.
    pub fn finish(&mut self, draw_time: &mut DrawTime, outcome: Settle) -> (r: Option<Settle>)
        ensures
            final(self).state == AskyState::Complete,
            !final(self).pending,
            *final(draw_time) == DrawTime::Last,
            r == if old(self).pending { Some(outcome) } else { None },
    {
        self.state = AskyState::Complete;
        *draw_time = DrawTime::Last;
        let owed = self.pending;
        self.pending = false;
        if owed { Some(outcome) } else { None }
    }

    /// After a node was drawn: a first draw is followed by updates; after
    /// the last draw the writer is cleared (the returned flag) and the node
    /// completes, delivering its value if it is still owed.
    pub fn after_draw(&mut self, draw_time: &mut DrawTime) -> (r: (bool, Option<Settle>))
        ensures
            *old(draw_time) == DrawTime::First ==> {
                &&& *final(draw_time) == next_draw_time(*old(draw_time))
                &&& *final(self) == *old(self)
                &&& r == (false, Option::<Settle>::None)
            },
            *old(draw_time) == DrawTime::Update ==> {
                &&& *final(draw_time) == *old(draw_time)
                &&& *final(self) == *old(self)
                &&& r == (false, Option::<Settle>::None)
            },
            *old(draw_time) == DrawTime::Last ==> {
                &&& *final(draw_time) == DrawTime::Last
                &&& final(self).state == AskyState::Complete
                &&& !final(self).pending
                &&& r == (true, if old(self).pending { Some(Settle::Value) } else { None })
            },
    {
        match *draw_time {
            DrawTime::First => {
                *draw_time = DrawTime::Update;
                (false, None)
            },
            DrawTime::Update => (false, None),
            DrawTime::Last => {
                let owed = self.pending;
                self.state = AskyState::Complete;
                self.pending = false;
                (true, if owed { Some(Settle::Value) } else { None })
            },
        }
    }
}

/// A prompt that takes keys in batches, one batch per frame.
pub trait FramePrompt: Sized {
    /// The prompt can take the batch `key` (its handling has what it needs).
    spec fn takes(&self, key: KeyEvent) -> bool;

    /// Whether the batch `key` concerns the prompt.
    spec fn concerns(&self, key: KeyEvent) -> bool;

    /// Whether handling the batch `key` may take the prompt from `self` to
    /// `after`, with `submit` telling whether it was submitted.
    spec fn handles(&self, key: KeyEvent, after: Self, submit: bool) -> bool;

    /// Whether the batch concerns the prompt.
    fn will_handle_key_event(&self, key: &KeyEvent) -> (r: bool)
        ensures
            r == self.concerns(*key),
    ;

    /// Handles the batch; returns whether the prompt is submitted.
    fn handle_key_event(&mut self, key: &KeyEvent) -> (submit: bool)
        requires
            old(self).takes(*key),
        ensures
            old(self).handles(*key, *final(self), submit),
    ;
}

/// What handling a batch does to the verdict of a read-line prompt: it
/// stays unless `Enter` comes with a validator, which then judges `value`.
pub open spec fn line_verdict_after<'a, V: Validator<'a>>(
    validator: Option<V>,
    key: KeyEvent,
    value: Seq<char>,
    before: Result<(), &'a str>,
    after: Result<(), &'a str>,
) -> bool {
    if key.codes@.contains(KeyCode::Enter) && validator is Some {
        validator.unwrap().accepts(value, after)
    } else {
        after == before
    }
}

impl<'a, V: Validator<'a>> FramePrompt for Text<'a, V> {
    open spec fn takes(&self, key: KeyEvent) -> bool {
        self.input.wf() && self.input.value@.len() + key.chars@.len() + 2 < usize::MAX
    }

    open spec fn concerns(&self, key: KeyEvent) -> bool {
        line_will_handle(key)
    }

    /// The line takes the typed characters and the key codes; `Enter`
    /// submits what the line held at the last `Enter` (or the default) when
    /// the verdict on it lets it through.
    open spec fn handles(&self, key: KeyEvent, after: Self, submit: bool) -> bool {
        let typed = line_type_chars(self.input@, key.chars@);
        let value = submitted_value(line_apply_codes(typed, key.codes@.take(last_enter(key.codes@))).0, self.default_value);
        &&& after.input@ == line_apply_codes(typed, key.codes@)
        &&& after.input.wf()
        &&& line_verdict_after(self.validator, key, value, self.validator_result, after.validator_result)
        &&& submit == (key.codes@.contains(KeyCode::Enter) && after.validator_result is Ok)
        &&& after.message == self.message
        &&& after.placeholder == self.placeholder
        &&& after.default_value == self.default_value
        &&& after.validator == self.validator
    }

    fn will_handle_key_event(&self, key: &KeyEvent) -> (r: bool) {
        Text::will_handle_key_event(self, key)
    }

    fn handle_key_event(&mut self, key: &KeyEvent) -> (submit: bool) {
        Text::handle_key_event(self, key)
    }
}

impl<'a, V: Validator<'a>> FramePrompt for Password<'a, V> {
    open spec fn takes(&self, key: KeyEvent) -> bool {
        self.input.wf() && self.input.value@.len() + key.chars@.len() + 2 < usize::MAX
    }

    open spec fn concerns(&self, key: KeyEvent) -> bool {
        line_will_handle(key)
    }

    /// As for a text prompt; whether the value is hidden stays.
    open spec fn handles(&self, key: KeyEvent, after: Self, submit: bool) -> bool {
        let typed = line_type_chars(self.input@, key.chars@);
        let value = submitted_value(line_apply_codes(typed, key.codes@.take(last_enter(key.codes@))).0, self.default_value);
        &&& after.input@ == line_apply_codes(typed, key.codes@)
        &&& after.input.wf()
        &&& line_verdict_after(self.validator, key, value, self.validator_result, after.validator_result)
        &&& submit == (key.codes@.contains(KeyCode::Enter) && after.validator_result is Ok)
        &&& after.message == self.message
        &&& after.placeholder == self.placeholder
        &&& after.default_value == self.default_value
        &&& after.hidden == self.hidden
        &&& after.validator == self.validator
    }

    fn will_handle_key_event(&self, key: &KeyEvent) -> (r: bool) {
        Password::will_handle_key_event(self, key)
    }

    fn handle_key_event(&mut self, key: &KeyEvent) -> (submit: bool) {
        Password::handle_key_event(self, key)
    }
}

impl<'a, T: NumLike, V: Validator<'a>> FramePrompt for Number<'a, T, V> {
    open spec fn takes(&self, key: KeyEvent) -> bool {
        self.input.wf() && self.input.value@.len() + key.chars@.len() + 2 < usize::MAX
    }

    open spec fn concerns(&self, key: KeyEvent) -> bool {
        line_will_handle(key)
    }

    /// The line takes the characters that a number of `T` admits, then the
    /// key codes; `Enter` submits as for a text prompt, with no default.
    open spec fn handles(&self, key: KeyEvent, after: Self, submit: bool) -> bool {
        let typed = number_type_chars(self.input@, key.chars@, T::spec_is_signed(), T::spec_is_float());
        let value = submitted_value(line_apply_codes(typed, key.codes@.take(last_enter(key.codes@))).0, None);
        &&& after.input@ == line_apply_codes(typed, key.codes@)
        &&& after.input.wf()
        &&& line_verdict_after(self.validator, key, value, self.validator_result, after.validator_result)
        &&& submit == (key.codes@.contains(KeyCode::Enter) && after.validator_result is Ok)
        &&& after.message == self.message
        &&& after.placeholder == self.placeholder
        &&& after.default_value == self.default_value
        &&& after.validator == self.validator
    }

    fn will_handle_key_event(&self, key: &KeyEvent) -> (r: bool) {
        Number::will_handle_key_event(self, key)
    }

    fn handle_key_event(&mut self, key: &KeyEvent) -> (submit: bool) {
        Number::handle_key_event(self, key)
    }
}

impl<'a> FramePrompt for Confirm<'a> {
    open spec fn takes(&self, key: KeyEvent) -> bool {
        true
    }

    open spec fn concerns(&self, key: KeyEvent) -> bool {
        exists|i: int| 0 <= i < key.codes@.len() && confirm_handles(#[trigger] key.codes@[i])
    }

    open spec fn handles(&self, key: KeyEvent, after: Self, submit: bool) -> bool {
        &&& (after.active, submit) == confirm_run(self.active, key.codes@)
        &&& after.message == self.message
    }

    fn will_handle_key_event(&self, key: &KeyEvent) -> (r: bool) {
        Confirm::will_handle_key_event(self, key)
    }

    fn handle_key_event(&mut self, key: &KeyEvent) -> (submit: bool) {
        Confirm::handle_key_event(self, key)
    }
}

impl<'a> FramePrompt for Message<'a> {
    open spec fn takes(&self, key: KeyEvent) -> bool {
        true
    }

    open spec fn concerns(&self, key: KeyEvent) -> bool {
        key.codes@.len() > 0
    }

    /// Any key code submits; nothing changes.
    open spec fn handles(&self, key: KeyEvent, after: Self, submit: bool) -> bool {
        submit == (key.codes@.len() > 0) && after == *self
    }

    fn will_handle_key_event(&self, key: &KeyEvent) -> (r: bool) {
        Message::will_handle_key_event(self, key)
    }

    fn handle_key_event(&mut self, key: &KeyEvent) -> (submit: bool) {
        Message::handle_key_event(self, key)
    }
}

impl<'a> FramePrompt for Toggle<'a> {
    open spec fn takes(&self, key: KeyEvent) -> bool {
        true
    }

    /// A batch concerns the prompt when it holds a key code.
    open spec fn concerns(&self, key: KeyEvent) -> bool {
        key.codes@.len() > 0
    }

    open spec fn handles(&self, key: KeyEvent, after: Self, submit: bool) -> bool {
        &&& (after.active, submit) == toggle_run(self.active, key.codes@)
        &&& after.message == self.message
        &&& after.options == self.options
    }

    fn will_handle_key_event(&self, key: &KeyEvent) -> (r: bool) {
        key.codes.len() > 0
    }

    fn handle_key_event(&mut self, key: &KeyEvent) -> (submit: bool) {
        Toggle::handle_key_event(self, key)
    }
}

impl<'a, T> FramePrompt for Select<'a, T> {
    open spec fn takes(&self, key: KeyEvent) -> bool {
        &&& self.input.wf()
        &&& self.input.total_items == self.options@.len()
        &&& self.input.total_items + self.input.items_per_page <= usize::MAX
    }

    /// A batch concerns the prompt when it holds a key code.
    open spec fn concerns(&self, key: KeyEvent) -> bool {
        key.codes@.len() > 0
    }

    open spec fn handles(&self, key: KeyEvent, after: Self, submit: bool) -> bool {
        &&& (after.input, submit) == select_run(self.input, self.options@, key.codes@)
        &&& after.input.wf()
        &&& after.options == self.options
        &&& after.message == self.message
    }

    fn will_handle_key_event(&self, key: &KeyEvent) -> (r: bool) {
        key.codes.len() > 0
    }

    fn handle_key_event(&mut self, key: &KeyEvent) -> (submit: bool) {
        Select::handle_key_event(self, key)
    }
}

impl<'a, T> FramePrompt for MultiSelect<'a, T> {
    open spec fn takes(&self, key: KeyEvent) -> bool {
        &&& self.selected_count >= count_active(self.options@)
        &&& self.selected_count + key.codes@.len() < usize::MAX
        &&& self.input.wf()
        &&& self.input.total_items == self.options@.len()
        &&& self.input.total_items + self.input.items_per_page <= usize::MAX
    }

    /// A batch concerns the prompt when it holds a key code.
    open spec fn concerns(&self, key: KeyEvent) -> bool {
        key.codes@.len() > 0
    }

    open spec fn handles(&self, key: KeyEvent, after: Self, submit: bool) -> bool {
        &&& (after.options@, after.selected_count as nat, after.input, submit)
            == multi_run(self.options@, self.selected_count as nat, self.input, self.min, self.max, key.codes@)
        &&& after.selected_count - count_active(after.options@) == self.selected_count - count_active(self.options@)
        &&& after.input.wf()
        &&& after.message == self.message
        &&& after.min == self.min
        &&& after.max == self.max
    }

    fn will_handle_key_event(&self, key: &KeyEvent) -> (r: bool) {
        key.codes.len() > 0
    }

    fn handle_key_event(&mut self, key: &KeyEvent) -> (submit: bool) {
        MultiSelect::handle_key_event(self, key)
    }
}

/// What the keys of a frame did to a waiting node: the decision, whether
/// the prompt was submitted, and the answer to deliver, if any.
#[derive(Debug, Clone, Copy, PartialEq, Eq, Structural)]
pub struct FrameKeys {
    pub decision: KeyDecision,
    pub submitted: bool,
    pub settle: Option<Settle>,
}

/// The keys part of a frame for a waiting node: an abort key (`Esc`)
/// cancels; keys that concern the prompt, or any keys before its first
/// draw, are handled, and a submission completes the node. After this, the
/// node is drawn unless the decision is `Skip`, then [`PromptNode::after_draw`] follows.
pub fn frame_keys<P: FramePrompt>(
    node: &mut PromptNode,
    draw_time: &mut DrawTime,
    prompt: &mut P,
    key: &KeyEvent,
) -> (r: FrameKeys)
    requires
        old(prompt).takes(*key),
    ensures
        r.decision == spec_key_decision(key.codes@.contains(KeyCode::Esc), old(prompt).concerns(*key), *old(draw_time)),
        r.decision != KeyDecision::Handle ==> *final(prompt) == *old(prompt) && !r.submitted,
        r.decision == KeyDecision::Handle ==> old(prompt).handles(*key, *final(prompt), r.submitted),
        r.decision == KeyDecision::Abort || r.submitted ==> {
            &&& final(node).state == AskyState::Complete
            &&& !final(node).pending
            &&& *final(draw_time) == DrawTime::Last
            &&& r.settle == if old(node).pending {
                Some(if r.decision == KeyDecision::Abort { Settle::Cancel } else { Settle::Value })
            } else {
                None
            }
        },
        !(r.decision == KeyDecision::Abort || r.submitted) ==> {
            &&& *final(node) == *old(node)
            &&& *final(draw_time) == *old(draw_time)
            &&& r.settle is None
        },
{
    let abort = key.has_code(KeyCode::Esc);
    let will = prompt.will_handle_key_event(key);
    let decision = key_decision(abort, will, *draw_time);
    match decision {
        KeyDecision::Skip => FrameKeys { decision, submitted: false, settle: None },
        KeyDecision::Abort => {
            let settle = node.finish(draw_time, Settle::Cancel);
            FrameKeys { decision, submitted: false, settle }
        },
        KeyDecision::Handle => {
            let submitted = prompt.handle_key_event(key);
            if submitted {
                let settle = node.finish(draw_time, Settle::Value);
                FrameKeys { decision, submitted, settle }
            } else {
                FrameKeys { decision, submitted, settle: None }
            }
        },
    }
}

/// Whether the prompts are active: some node waits, or some delay runs.
pub open spec fn spec_is_active(states: Seq<AskyState>, delays: nat) -> bool {
    delays > 0 || states.contains(AskyState::Waiting)
}

/// The new activity to announce, if it changed from `was_active`.
pub fn prompt_activity(was_active: bool, states: &Vec<AskyState>, delays: usize) -> (r: Option<AskyPrompt>)
    ensures
        ({
            let is_active = spec_is_active(states@, delays as nat);
            r == if was_active != is_active {
                Some(if is_active { AskyPrompt::Active } else { AskyPrompt::Inactive })
            } else {
                None
            }
        }),
{
    let n = states.len();
    let mut i: usize = 0;
    let mut waiting = false;
    while i < n
        invariant
            n == states@.len(),
            i <= n,
            waiting == states@.take(i as int).contains(AskyState::Waiting),
        decreases n - i,
    {
        proof {
            let t0 = states@.take(i as int);
            let t1 = states@.take(i + 1);
            assert(t1 == t0.push(states@[i as int]));
            if t1.contains(AskyState::Waiting) && states@[i as int] != AskyState::Waiting {
                let w = choose|w: int| 0 <= w < t1.len() && t1[w] == AskyState::Waiting;
                assert(t0[w] == AskyState::Waiting);
            }
            if t0.contains(AskyState::Waiting) {
                let w = choose|w: int| 0 <= w < t0.len() && t0[w] == AskyState::Waiting;
                assert(t1[w] == AskyState::Waiting);
            }
            if states@[i as int] == AskyState::Waiting {
                assert(t1[i as int] == AskyState::Waiting);
            }
        }
        if states[i] == AskyState::Waiting {
            waiting = true;
        }
        i = i + 1;
    }
    proof {
        assert(states@.take(n as int) == states@);
    }
    let is_active = delays > 0 || waiting;
    if was_active != is_active {
        Some(if is_active { AskyPrompt::Active } else { AskyPrompt::Inactive })
    } else {
        None
    }
}

/// A run of text with its style, as values.
pub type Run = (Seq<char>, Option<TextStyle>);

/// `s` cut after each `'\n'`: each piece ends with a newline but the last,
/// which is left out when empty.
pub open spec fn split_inclusive(s: Seq<char>) -> Seq<Seq<char>>
    decreases s.len(),
{
    if s.len() == 0 {
        Seq::empty()
    } else {
        let init = split_inclusive(s.drop_last());
        let c = s.last();
        if init.len() > 0 && init.last().last() != '\n' {
            init.update(init.len() - 1, init.last().push(c))
        } else {
            init.push(seq![c])
        }
    }
}

/// The pieces of a run: its text cut after each newline, in its style; an
/// empty run stays as it is.
pub open spec fn run_pieces(r: Run) -> Seq<Run> {
    if r.0.len() == 0 {
        seq![r]
    } else {
        split_inclusive(r.0).map_values(|p: Seq<char>| (p, r.1))
    }
}

/// The pieces of all runs, in order.
pub open spec fn all_pieces(rs: Seq<Run>) -> Seq<Run>
    decreases rs.len(),
{
    if rs.len() == 0 {
        Seq::empty()
    } else {
        all_pieces(rs.drop_last()) + run_pieces(rs.last())
    }
}

/// Whether a piece ends a line.
pub open spec fn ends_line(p: Run) -> bool {
    p.0.len() > 0 && p.0.last() == '\n'
}

/// The pieces grouped in lines: a line ends after a piece that ends with a newline.
pub open spec fn group_lines(ps: Seq<Run>) -> Seq<Seq<Run>>
    decreases ps.len(),
{
    if ps.len() == 0 {
        Seq::empty()
    } else {
        let g = group_lines(ps.drop_last());
        let p = ps.last();
        if g.len() == 0 || ends_line(g.last().last()) {
            g.push(seq![p])
        } else {
            g.update(g.len() - 1, g.last().push(p))
        }
    }
}

/// The lines of a list of runs, as values.
pub open spec fn lines_of(lines: Seq<Vec<StyledString>>) -> Seq<Seq<Run>> {
    lines.map_values(|l: Vec<StyledString>| runs(l@))
}

/// The pieces of one run: cut after each newline, in the run's style.
fn pieces_of(run: &StyledString) -> (r: Vec<StyledString>)
    ensures
        runs(r@) == run_pieces(run@),
{
    let s = run.s.as_str();
    let n = s.unicode_len();
    if n == 0 {
        let mut out = Vec::new();
        out.push(StyledString::new(String::new(), run.style));
        proof {
            assert(run.s@ =~= Seq::<char>::empty());
            assert(runs(out@) =~= seq![run@]);
        }
        return out;
    }
    let mut done: Vec<StyledString> = Vec::new();
    let mut cur = String::new();
    let mut j: usize = 0;
    while j < n
        invariant
            n == s@.len(),
            s@ == run.s@,
            j <= n,
            runs(done@) + (if cur@.len() > 0 { seq![(cur@, run.style)] } else { Seq::<Run>::empty() })
                == split_inclusive(s@.take(j as int)).map_values(|p: Seq<char>| (p, run.style)),
            cur@.len() > 0 ==> cur@.last() != '\n',
            forall|k: int| 0 <= k < done@.len() ==> ends_line(#[trigger] done@[k]@),
            j > 0 && cur@.len() == 0 ==> done@.len() > 0,
        decreases n - j,
    {
        let c = s.get_char(j);
        let ghost sp0 = split_inclusive(s@.take(j as int));
        let ghost cur0 = cur@;
        let ghost done0 = runs(done@);
        let ghost st = run.style;
        let ghost m0 = sp0.map_values(|p: Seq<char>| (p, st));
        let ghost sp1 = split_inclusive(s@.take(j + 1));
        proof {
            assert(s@.take(j + 1).drop_last() == s@.take(j as int));
            assert(s@.take(j + 1).last() == c);
            if cur0.len() > 0 {
                assert(m0.last() == (cur0, st));
                assert(sp0.last() == cur0);
                assert(sp1 == sp0.update(sp0.len() - 1, cur0.push(c)));
                assert(done0 == m0.drop_last());
            } else {
                assert(done0 == m0);
                if j > 0 {
                    assert(m0.last() == done@.last()@);
                    assert(ends_line(done@[done@.len() - 1]@));
                }
                assert(sp1 == sp0.push(seq![c]));
            }
        }
        push_char(&mut cur, c);
        if c == '\n' {
            let piece = StyledString::new(cur, run.style);
            done.push(piece);
            cur = String::new();
        }
        proof {
            let m1 = sp1.map_values(|p: Seq<char>| (p, st));
            if cur0.len() > 0 {
                assert(m1 =~= m0.update(m0.len() - 1, (cur0.push(c), st)));
            } else {
                assert(m1 =~= m0.push((seq![c], st)));
            }
            if c == '\n' {
                assert(runs(done@) =~= done0.push((cur0.push(c), st)));
                assert(cur@ =~= Seq::<char>::empty());
                assert(runs(done@) + Seq::<Run>::empty() =~= runs(done@));
                if cur0.len() > 0 {
                    assert(done0.push((cur0.push(c), st)) =~= m0.update(m0.len() - 1, (cur0.push(c), st)));
                } else {
                    assert(cur0.push(c) =~= seq![c]);
                }
            } else {
                assert(runs(done@) == done0);
                assert(cur@ == cur0.push(c));
                assert(cur@.len() > 0);
                if cur0.len() > 0 {
                    assert(done0 + seq![(cur@, st)] =~= m0.update(m0.len() - 1, (cur0.push(c), st)));
                } else {
                    assert(cur@ =~= seq![c]);
                    assert(done0 + seq![(cur@, st)] =~= m0.push((seq![c], st)));
                }
            }
            assert(runs(done@) + (if cur@.len() > 0 { seq![(cur@, run.style)] } else { Seq::<Run>::empty() }) =~= m1);
        }
        j = j + 1;
    }
    if cur.unicode_len() > 0 {
        done.push(StyledString::new(cur, run.style));
    }
    proof {
        assert(s@.take(n as int) == s@);
        assert(runs(done@) =~= split_inclusive(s@).map_values(|p: Seq<char>| (p, run.style)));
    }
    done
}

/// Whether a run of text ends a line.
fn ends_with_newline(p: &StyledString) -> (r: bool)
    ensures
        r == ends_line(p@),
{
    let n = p.s.as_str().unicode_len();
    n > 0 && p.s.as_str().get_char(n - 1) == '\n'
}

/// The runs laid out in lines: each run is cut after its newlines, and a
/// line ends after a piece that ends with a newline.
pub fn split_lines(strings: &Vec<StyledString>) -> (r: Vec<Vec<StyledString>>)
    ensures
        lines_of(r@) == group_lines(all_pieces(runs(strings@))),
{
    let n = strings.len();
    let mut ps: Vec<StyledString> = Vec::new();
    let mut i: usize = 0;
    while i < n
        invariant
            n == strings@.len(),
            i <= n,
            runs(ps@) == all_pieces(runs(strings@.take(i as int))),
        decreases n - i,
    {
        let mut more = pieces_of(&strings[i]);
        let ghost before = ps@;
        ps.append(&mut more);
        proof {
            assert(runs(strings@.take(i + 1)).drop_last() =~= runs(strings@.take(i as int)));
            assert(runs(strings@.take(i + 1)).last() == strings@[i as int]@);
            assert(runs(ps@) =~= runs(before) + run_pieces(strings@[i as int]@));
        }
        i = i + 1;
    }
    proof {
        assert(strings@.take(n as int) == strings@);
    }
    let ghost all = runs(ps@);
    let total = ps.len();
    let mut done: Vec<Vec<StyledString>> = Vec::new();
    let mut cur: Vec<StyledString> = Vec::new();
    let mut k: usize = 0;
    while ps.len() > 0
        invariant
            total == all.len(),
            k + ps@.len() == total,
            runs(ps@) == all.skip(k as int),
            lines_of(done@) + (if cur@.len() > 0 { seq![runs(cur@)] } else { Seq::<Seq<Run>>::empty() })
                == group_lines(all.take(k as int)),
            cur@.len() > 0 ==> !ends_line(cur@.last()@),
            forall|l: int| 0 <= l < done@.len() ==> (#[trigger] done@[l])@.len() > 0 && ends_line(done@[l]@.last()@),
            k > 0 && cur@.len() == 0 ==> done@.len() > 0,
        decreases ps@.len(),
    {
        let ghost g0 = group_lines(all.take(k as int));
        let ghost done0 = lines_of(done@);
        let ghost cur0 = runs(cur@);
        let ghost rest = ps@;
        let p = ps.remove(0);
        let ghost pv = p@;
        proof {
            assert(all.take(k + 1).drop_last() =~= all.take(k as int));
            assert(runs(rest)[0] == all.skip(k as int)[0]);
            assert(all.take(k + 1).last() == pv);
            assert(ps@ =~= rest.skip(1));
            assert(runs(ps@) =~= runs(rest).skip(1));
            assert(all.skip(k as int).skip(1) =~= all.skip(k + 1));
            if cur@.len() > 0 {
                assert(g0.last() == cur0);
                assert(cur0.last() == cur@.last()@);
                assert(done0 == g0.drop_last());
            } else {
                assert(done0 =~= g0);
                if k > 0 {
                    assert(g0.last() == runs(done@.last()@));
                    assert(done@[done@.len() - 1]@.len() > 0);
                    assert(g0.last().last() == done@[done@.len() - 1]@.last()@);
                }
            }
        }
        let ends = ends_with_newline(&p);
        cur.push(p);
        proof {
            assert(runs(cur@) =~= cur0.push(pv));
        }
        if ends {
            let line = cur;
            done.push(line);
            cur = Vec::new();
        }
        proof {
            let g1 = group_lines(all.take(k + 1));
            assert(runs(cur@) == cur0.push(pv) || cur@.len() == 0);
            if cur0.len() > 0 {
                assert(g1 == g0.update(g0.len() - 1, cur0.push(pv)));
            } else {
                assert(g1 == g0.push(seq![pv]));
                assert(cur0.push(pv) =~= seq![pv]);
            }
            if ends {
                assert(lines_of(done@) =~= done0.push(cur0.push(pv)));
                assert(lines_of(done@) + Seq::<Seq<Run>>::empty() =~= lines_of(done@));
                if cur0.len() > 0 {
                    assert(done0.push(cur0.push(pv)) =~= g0.update(g0.len() - 1, cur0.push(pv)));
                }
            } else {
                assert(lines_of(done@) == done0);
                assert(runs(cur@) =~= cur0.push(pv));
                if cur0.len() > 0 {
                    assert(done0 + seq![runs(cur@)] =~= g0.update(g0.len() - 1, cur0.push(pv)));
                } else {
                    assert(done0 + seq![runs(cur@)] =~= g0.push(seq![pv]));
                }
            }
            assert(lines_of(done@) + (if cur@.len() > 0 { seq![runs(cur@)] } else { Seq::<Seq<Run>>::empty() }) =~= g1);
        }
        k = k + 1;
    }
    if cur.len() > 0 {
        done.push(cur);
    }
    proof {
        assert(all.take(k as int) =~= all);
        assert(lines_of(done@) =~= group_lines(all));
    }
    done
}

} // verus!
