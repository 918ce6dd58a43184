//! One-line text input: the editable line and the [`Text`] prompt.
use vstd::prelude::*;

use crate::key::{KeyCode, KeyEvent};
use crate::prompts::validator::{FnValidator, NoValidator, Validator};
use crate::strings::{char_count, insert_char, is_control, owned, remove_char, spec_is_control};
use crate::formatted::Formatted;
use crate::utils::renderer::DrawTime;

verus! {

/// Where the cursor of a line input moves.
#[derive(Clone, Copy, Debug, PartialEq, Eq)]
pub enum Direction {
    Left,
    Right,
}

/// The line `v` after typing `ch` with the cursor at `col`.
pub open spec fn line_insert(v: (Seq<char>, nat), ch: char) -> (Seq<char>, nat) {
    (v.0.take(v.1 as int) + seq![ch] + v.0.skip(v.1 as int), v.1 + 1)
}

/// The line after removing the character before the cursor.
pub open spec fn line_backspace(v: (Seq<char>, nat)) -> (Seq<char>, nat) {
    if v.0.len() > 0 && v.1 > 0 {
        (v.0.take(v.1 - 1) + v.0.skip(v.1 as int), (v.1 - 1) as nat)
    } else {
        v
    }
}

/// The line after removing the character under the cursor.
pub open spec fn line_delete(v: (Seq<char>, nat)) -> (Seq<char>, nat) {
    if v.0.len() > 0 && v.1 < v.0.len() {
        (v.0.take(v.1 as int) + v.0.skip(v.1 + 1int), v.1)
    } else {
        v
    }
}

/// The line after moving the cursor one step; it stays within the line.
pub open spec fn line_move(v: (Seq<char>, nat), d: Direction) -> (Seq<char>, nat) {
    match d {
        Direction::Left => (v.0, if v.1 == 0 { 0nat } else { (v.1 - 1) as nat }),
        Direction::Right => (v.0, if v.1 + 1 <= v.0.len() { v.1 + 1 } else { v.0.len() }),
    }
}

/// The line after a key other than `Enter`: characters are typed, `Backspace`
/// and `Delete` remove, `Left` and `Right` move the cursor, the rest is ignored.
pub open spec fn line_edit(v: (Seq<char>, nat), key: KeyCode) -> (Seq<char>, nat) {
    match key {
        KeyCode::Char(c) => line_insert(v, c),
        KeyCode::Backspace => line_backspace(v),
        KeyCode::Delete => line_delete(v),
        KeyCode::Left => line_move(v, Direction::Left),
        KeyCode::Right => line_move(v, Direction::Right),
        _ => v,
    }
}

/// State of the user input for read-line prompts (like [`Text`]).
///
/// `col` counts characters: it is the position of the cursor in `value`.
#[derive(Debug, PartialEq, Eq, Default)]
pub struct LineInput {
    /// Current value of the input.
    pub value: String,
    /// Current position of the cursor.
    pub col: usize,
}

impl View for LineInput {
    type V = (Seq<char>, nat);

    open spec fn view(&self) -> (Seq<char>, nat) {
        (self.value@, self.col as nat)
    }
}

impl LineInput {
    /// The cursor stands within the line (at its end at most).
    pub open spec fn wf(&self) -> bool {
        self.col <= self.value@.len()
    }

    /// Whether one more character fits the machine's counters.
    pub open spec fn has_room(&self) -> bool {
        self.value@.len() + 1 < usize::MAX
    }

    /// An empty line.
    pub fn new() -> (r: Self)
        ensures
            r@ == (Seq::<char>::empty(), 0nat),
    {
        LineInput { value: String::new(), col: 0 }
    }

    /// Replaces the line by `value` and puts the cursor at its end.
    pub fn set_value(&mut self, value: &str)
        ensures
            final(self)@ == (value@, value@.len()),
    {
        self.value = owned(value);
        self.col = char_count(value);
    }

    /// Types `ch` at the cursor, which moves past it.
    pub fn insert(&mut self, ch: char)
        requires
            old(self).wf(),
            old(self).has_room(),
        ensures
            final(self)@ == line_insert(old(self)@, ch),
            final(self).wf(),
    {
        self.value = insert_char(&self.value, self.col, ch);
        self.col = self.col + 1;
    }

    /// Removes the character before the cursor, if there is one.
    pub fn backspace(&mut self)
        requires
            old(self).wf(),
        ensures
            final(self)@ == line_backspace(old(self)@),
            final(self).wf(),
    {
        if !self.value.as_str().is_empty() && self.col > 0 {
            self.col = self.col - 1;
            self.value = remove_char(&self.value, self.col);
        }
    }

    /// Removes the character under the cursor, if there is one.
    pub fn delete(&mut self)
        ensures
            final(self)@ == line_delete(old(self)@),
            old(self).wf() ==> final(self).wf(),
    {
        if !self.value.as_str().is_empty() && self.col < char_count(self.value.as_str()) {
            self.value = remove_char(&self.value, self.col);
        }
    }

    /// Moves the cursor one character left or right, within the line.
    pub fn move_cursor(&mut self, position: Direction)
        requires
            old(self).col < usize::MAX,
        ensures
            final(self)@ == line_move(old(self)@, position),
            position == Direction::Right || old(self).wf() ==> final(self).wf(),
    {
        self.col = match position {
            Direction::Left => if self.col == 0 { 0 } else { self.col - 1 },
            Direction::Right => {
                let len = char_count(self.value.as_str());
                if self.col + 1 <= len { self.col + 1 } else { len }
            },
        };
    }

    /// Applies a key other than `Enter` to the line.
    pub fn edit(&mut self, key: &KeyCode)
        requires
            old(self).wf(),
            old(self).has_room(),
        ensures
            final(self)@ == line_edit(old(self)@, *key),
            final(self).wf(),
    {
        match key {
            KeyCode::Char(c) => self.insert(*c),
            KeyCode::Backspace => self.backspace(),
            KeyCode::Delete => self.delete(),
            KeyCode::Left => self.move_cursor(Direction::Left),
            KeyCode::Right => self.move_cursor(Direction::Right),
            _ => {},
        }
    }
}

/// What a read-line prompt submits: the input, or the default value when the
/// input is empty (or nothing when there is no default).
pub open spec fn submitted_value(input: Seq<char>, default_value: Option<&str>) -> Seq<char> {
    if input.len() == 0 {
        match default_value {
            Some(d) => d@,
            None => Seq::empty(),
        }
    } else {
        input
    }
}

/// Prompt to get one-line user input.
///
/// | Key         | Action                       |
/// | ----------- | ---------------------------- |
/// | `Enter`     | Submit current/initial value |
/// | `Backspace` | Delete previous character    |
/// | `Delete`    | Delete current character     |
/// | `Left`      | Move cursor left             |
/// | `Right`     | Move cursor right            |
pub struct Text<'a, V = NoValidator> {
    /// Message used to display in the prompt
    pub message: &'a str,
    /// Input state for the prompt
    pub input: LineInput,
    /// Placeholder to show when the input is empty
    pub placeholder: Option<&'a str>,
    /// Default value to submit when the input is empty
    pub default_value: Option<&'a str>,
    /// State of the validation of the user input
    pub validator_result: Result<(), &'a str>,
    /// Validator of the value to submit, run on `Enter`
    pub validator: Option<V>,
}

impl<'a> Text<'a, NoValidator> {
    /// Create a new text prompt.
    pub fn new(message: &'a str) -> (r: Self)
        ensures
            r.message == message,
            r.input@ == (Seq::<char>::empty(), 0nat),
            r.placeholder is None,
            r.default_value is None,
            r.validator_result is Ok,
            r.validator is None,
    {
        Text {
            message,
            input: LineInput::new(),
            placeholder: None,
            default_value: None,
            validator_result: Ok(()),
            validator: None,
        }
    }
}

impl<'a, V: Validator<'a>> Text<'a, V> {
    /// The prompt drawn by `formatter` in place of its default look.
    pub fn format<F>(self, formatter: F) -> (r: Formatted<Self, F>)
        where
            F: Fn(&Text<'a, V>, DrawTime) -> (String, [usize; 2]),
        ensures
            r.prompt == self,
            r.formatter == formatter,
    {
        Formatted { prompt: self, formatter }
    }

    /// Set text to show when the input is empty; it is not submitted.
    pub fn placeholder(&mut self, value: &'a str) -> (r: &mut Self)
        ensures
            r.placeholder == Some(value),
            r.message == old(self).message,
            r.input == old(self).input,
            r.default_value == old(self).default_value,
            r.validator_result == old(self).validator_result,
            r.validator == old(self).validator,
            *final(self) == *final(r),
    {
        self.placeholder = Some(value);
        self
    }

    /// Set default value to submit when the input is empty.
    pub fn default(&mut self, value: &'a str) -> (r: &mut Self)
        ensures
            r.default_value == Some(value),
            r.message == old(self).message,
            r.input == old(self).input,
            r.placeholder == old(self).placeholder,
            r.validator_result == old(self).validator_result,
            r.validator == old(self).validator,
            *final(self) == *final(r),
    {
        self.default_value = Some(value);
        self
    }

    /// Set initial value, could be deleted by the user.
    pub fn initial(&mut self, value: &str) -> (r: &mut Self)
        ensures
            r.input@ == (value@, value@.len()),
            r.message == old(self).message,
            r.placeholder == old(self).placeholder,
            r.default_value == old(self).default_value,
            r.validator_result == old(self).validator_result,
            r.validator == old(self).validator,
            *final(self) == *final(r),
    {
        self.input.set_value(value);
        self
    }

    /// The value that the prompt submits.
    pub fn get_value(&self) -> (r: &str)
        ensures
            r@ == submitted_value(self.input.value@, self.default_value),
    {
        if self.input.value.as_str().is_empty() {
            match self.default_value {
                Some(d) => d,
                None => {
                    proof {
                        reveal_strlit("");
                    }
                    ""
                },
            }
        } else {
            self.input.value.as_str()
        }
    }

    /// The prompt's input can take one more key.
    pub open spec fn ready(&self) -> bool {
        self.input.wf() && self.input.has_room()
    }

    /// The prompt with `validator` to judge the value to submit on `Enter`.
    pub fn validate<F>(self, validator: F) -> (r: Text<'a, FnValidator<'a, F>>)
        where
            F: Fn(&str) -> Result<(), &'a str>,
        requires
            forall|s: &str| call_requires(validator, (s,)),
        ensures
            r.validator matches Some(v) && v.callee() == validator,
            r.message == self.message,
            r.input == self.input,
            r.placeholder == self.placeholder,
            r.default_value == self.default_value,
            r.validator_result == self.validator_result,
    {
        Text {
            message: self.message,
            input: self.input,
            placeholder: self.placeholder,
            default_value: self.default_value,
            validator_result: self.validator_result,
            validator: Some(FnValidator::new(validator)),
        }
    }

    /// Submits if the value passes: the validator, if there is one, judges
    /// the value to submit and its verdict is kept; without one, the last
    /// verdict decides.
    pub fn validate_to_submit(&mut self) -> (submit: bool)
        ensures
            old(self).validator is None ==> final(self).validator_result == old(self).validator_result,
            old(self).validator matches Some(v) ==> v.accepts(
                submitted_value(old(self).input.value@, old(self).default_value),
                final(self).validator_result,
            ),
            submit == final(self).validator_result is Ok,
            final(self).message == old(self).message,
            final(self).input == old(self).input,
            final(self).placeholder == old(self).placeholder,
            final(self).default_value == old(self).default_value,
            final(self).validator == old(self).validator,
    {
        let verdict = match &self.validator {
            Some(v) => Some(v.check(self.get_value())),
            None => None,
        };
        if let Some(r) = verdict {
            self.validator_result = r;
        }
        self.validator_result.is_ok()
    }

    /// Submits after running `validator` on the submitted value: its verdict
    /// is kept and decides.
    pub fn validate_to_submit_with<F: Fn(&str) -> Result<(), &'a str>>(&mut self, validator: &F) -> (submit: bool)
        requires
            forall|s: &str| call_requires(*validator, (s,)),
        ensures
            exists|s: &str|
                s@ == submitted_value(old(self).input.value@, old(self).default_value)
                && call_ensures(*validator, (s,), final(self).validator_result),
            submit == final(self).validator_result is Ok,
            final(self).message == old(self).message,
            final(self).input == old(self).input,
            final(self).placeholder == old(self).placeholder,
            final(self).default_value == old(self).default_value,
            final(self).validator == old(self).validator,
    {
        let verdict = validator(self.get_value());
        self.validator_result = verdict;
        self.validator_result.is_ok()
    }

    /// Handles a key; returns whether the prompt is submitted.
    pub fn handle_key(&mut self, key: &KeyCode) -> (submit: bool)
        requires
            old(self).ready(),
        ensures
            *key == KeyCode::Enter ==> {
                &&& old(self).validator is None ==> final(self).validator_result == old(self).validator_result
                &&& old(self).validator matches Some(v) ==> v.accepts(
                    submitted_value(old(self).input.value@, old(self).default_value),
                    final(self).validator_result,
                )
                &&& submit == final(self).validator_result is Ok
                &&& final(self).input == old(self).input
            },
            *key != KeyCode::Enter ==> !submit
                && final(self).input@ == line_edit(old(self).input@, *key)
                && final(self).validator_result == old(self).validator_result,
            final(self).message == old(self).message,
            final(self).placeholder == old(self).placeholder,
            final(self).default_value == old(self).default_value,
            final(self).validator == old(self).validator,
            final(self).input.wf(),
    {
        match key {
            KeyCode::Enter => self.validate_to_submit(),
            _ => {
                self.input.edit(key);
                false
            },
        }
    }

    /// Handles a key with a validator that judges the value on `Enter`;
    /// returns whether the prompt is submitted.
    pub fn handle_key_with<F: Fn(&str) -> Result<(), &'a str>>(&mut self, key: &KeyCode, validator: &F) -> (submit: bool)
        requires
            old(self).ready(),
            forall|s: &str| call_requires(*validator, (s,)),
        ensures
            *key == KeyCode::Enter ==> {
                &&& exists|s: &str|
                    s@ == submitted_value(old(self).input.value@, old(self).default_value)
                    && call_ensures(*validator, (s,), final(self).validator_result)
                &&& submit == final(self).validator_result is Ok
                &&& final(self).input == old(self).input
            },
            *key != KeyCode::Enter ==> !submit
                && final(self).input@ == line_edit(old(self).input@, *key)
                && final(self).validator_result == old(self).validator_result,
            final(self).message == old(self).message,
            final(self).placeholder == old(self).placeholder,
            final(self).default_value == old(self).default_value,
            final(self).validator == old(self).validator,
            final(self).input.wf(),
    {
        match key {
            KeyCode::Enter => self.validate_to_submit_with(validator),
            _ => {
                self.input.edit(key);
                false
            },
        }
    }
}


/// The line after typing the characters `chars`; control characters are skipped.
pub open spec fn line_type_chars(v: (Seq<char>, nat), chars: Seq<char>) -> (Seq<char>, nat)
    decreases chars.len(),
{
    if chars.len() == 0 {
        v
    } else {
        let w = line_type_chars(v, chars.drop_last());
        if spec_is_control(chars.last()) { w } else { line_insert(w, chars.last()) }
    }
}

/// Whether a key code edits a line in a batch of keys (typing comes as characters).
pub open spec fn is_line_code(code: KeyCode) -> bool {
    code == KeyCode::Backspace || code == KeyCode::Delete || code == KeyCode::Left || code == KeyCode::Right
}

/// The line after the editing key codes of `codes`, in order.
pub open spec fn line_apply_codes(v: (Seq<char>, nat), codes: Seq<KeyCode>) -> (Seq<char>, nat)
    decreases codes.len(),
{
    if codes.len() == 0 {
        v
    } else {
        let w = line_apply_codes(v, codes.drop_last());
        if is_line_code(codes.last()) { line_edit(w, codes.last()) } else { w }
    }
}

/// Whether a batch of keys concerns a read-line prompt: a printable character,
/// or one of `Enter`, `Backspace`, `Delete`, `Left`, `Right`.
pub open spec fn line_will_handle(key: KeyEvent) -> bool {
    (exists|i: int| 0 <= i < key.chars@.len() && !spec_is_control(#[trigger] key.chars@[i]))
    || (exists|i: int| 0 <= i < key.codes@.len() && (#[trigger] key.codes@[i] == KeyCode::Enter || is_line_code(key.codes@[i])))
}

/// Whether a batch of keys concerns a read-line prompt.
pub fn line_will_handle_key(key: &KeyEvent) -> (r: bool)
    ensures
        r == line_will_handle(*key),
{
    let n = key.chars.len();
    let mut i: usize = 0;
    while i < n
        invariant
            n == key.chars@.len(),
            i <= n,
            forall|j: int| 0 <= j < i ==> spec_is_control(#[trigger] key.chars@[j]),
        decreases n - i,
    {
        if !is_control(key.chars[i]) {
            return true;
        }
        i = i + 1;
    }
    let m = key.codes.len();
    let mut k: usize = 0;
    while k < m
        invariant
            n == key.chars@.len(),
            m == key.codes@.len(),
            k <= m,
            forall|j: int| 0 <= j < n ==> spec_is_control(#[trigger] key.chars@[j]),
            forall|j: int| 0 <= j < k ==> !(#[trigger] key.codes@[j] == KeyCode::Enter || is_line_code(key.codes@[j])),
        decreases m - k,
    {
        match key.codes[k] {
            KeyCode::Enter | KeyCode::Backspace | KeyCode::Delete | KeyCode::Left | KeyCode::Right => {
                return true;
            },
            _ => {},
        }
        k = k + 1;
    }
    false
}

impl LineInput {
    /// Types the characters of `chars` that are not control characters.
    pub fn type_chars(&mut self, chars: &Vec<char>)
        requires
            old(self).wf(),
            old(self).value@.len() + chars@.len() + 1 < usize::MAX,
        ensures
            final(self)@ == line_type_chars(old(self)@, chars@),
            final(self).wf(),
            final(self).value@.len() <= old(self).value@.len() + chars@.len(),
    {
        let n = chars.len();
        let mut i: usize = 0;
        while i < n
            invariant
                n == chars@.len(),
                i <= n,
                self.wf(),
                self@ == line_type_chars(old(self)@, chars@.take(i as int)),
                self.value@.len() <= old(self).value@.len() + i,
                old(self).value@.len() + n + 1 < usize::MAX,
            decreases n - i,
        {
            proof {
                assert(chars@.take(i + 1).drop_last() == chars@.take(i as int));
                assert(chars@.take(i + 1).last() == chars@[i as int]);
            }
            let c = chars[i];
            if !is_control(c) {
                self.insert(c);
            }
            i = i + 1;
        }
        proof {
            assert(chars@.take(n as int) == chars@);
        }
    }
}

/// The position of the last `Enter` among `codes`, or `-1` when there is none.
pub open spec fn last_enter(codes: Seq<KeyCode>) -> int
    decreases codes.len(),
{
    if codes.len() == 0 {
        -1
    } else if codes.last() == KeyCode::Enter {
        codes.len() - 1
    } else {
        last_enter(codes.drop_last())
    }
}

/// `last_enter` points at an `Enter` of `codes` exactly when there is one.
pub proof fn lemma_last_enter(codes: Seq<KeyCode>)
    ensures
        -1 <= last_enter(codes) < codes.len(),
        last_enter(codes) >= 0 ==> codes[last_enter(codes)] == KeyCode::Enter,
        (last_enter(codes) >= 0) == codes.contains(KeyCode::Enter),
    decreases codes.len(),
{
    if codes.len() > 0 {
        let init = codes.drop_last();
        lemma_last_enter(init);
        if codes.contains(KeyCode::Enter) && codes.last() != KeyCode::Enter {
            let w = choose|w: int| 0 <= w < codes.len() && codes[w] == KeyCode::Enter;
            assert(init[w] == KeyCode::Enter);
        }
        if init.contains(KeyCode::Enter) {
            let w = choose|w: int| 0 <= w < init.len() && init[w] == KeyCode::Enter;
            assert(codes[w] == KeyCode::Enter);
        }
        if codes.last() == KeyCode::Enter {
            assert(codes[codes.len() - 1] == KeyCode::Enter);
        }
    }
}

/// Applies the key codes of `codes` to a line, in order; on each `Enter`,
/// `validator` judges the value that would be submitted then (the line, or
/// `default_value` when it is empty) and its verdict is kept in `result`.
/// Returns whether there was an `Enter` and the last verdict passed.
pub fn apply_codes_with<'a, F: Fn(&str) -> Result<(), &'a str>>(
    input: &mut LineInput,
    default_value: Option<&'a str>,
    codes: &Vec<KeyCode>,
    validator: &F,
    result: &mut Result<(), &'a str>,
) -> (submit: bool)
    requires
        old(input).wf(),
        old(input).has_room(),
        forall|s: &str| call_requires(*validator, (s,)),
    ensures
        final(input)@ == line_apply_codes(old(input)@, codes@),
        final(input).wf(),
        last_enter(codes@) < 0 ==> *final(result) == *old(result) && !submit,
        last_enter(codes@) >= 0 ==> {
            &&& exists|s: &str|
                s@ == submitted_value(line_apply_codes(old(input)@, codes@.take(last_enter(codes@))).0, default_value)
                && call_ensures(*validator, (s,), *final(result))
            &&& submit == (*final(result) is Ok)
        },
{
    let n = codes.len();
    let mut i: usize = 0;
    let mut submit = false;
    while i < n
        invariant
            n == codes@.len(),
            i <= n,
            input.wf(),
            input.value@.len() <= old(input).value@.len(),
            old(input).has_room(),
            input@ == line_apply_codes(old(input)@, codes@.take(i as int)),
            forall|s: &str| call_requires(*validator, (s,)),
            last_enter(codes@.take(i as int)) < 0 ==> *result == *old(result) && !submit,
            last_enter(codes@.take(i as int)) >= 0 ==> {
                &&& exists|s: &str|
                    s@ == submitted_value(
                        line_apply_codes(old(input)@, codes@.take(last_enter(codes@.take(i as int)))).0,
                        default_value,
                    ) && call_ensures(*validator, (s,), *result)
                &&& submit == (*result is Ok)
            },
        decreases n - i,
    {
        let ghost t0 = codes@.take(i as int);
        let ghost t1 = codes@.take(i + 1);
        proof {
            assert(t1.drop_last() == t0);
            assert(t1.last() == codes@[i as int]);
            lemma_last_enter(t0);
            if last_enter(t0) >= 0 {
                assert(codes@.take(last_enter(t0)) == t0.take(last_enter(t0)));
            }
        }
        match codes[i] {
            KeyCode::Enter => {
                let verdict = {
                    let value: &str = if input.value.as_str().is_empty() {
                        match default_value {
                            Some(d) => d,
                            None => {
                                proof {
                                    reveal_strlit("");
                                }
                                ""
                            },
                        }
                    } else {
                        input.value.as_str()
                    };
                    validator(value)
                };
                *result = verdict;
                submit = result.is_ok();
                proof {
                    assert(last_enter(t1) == i);
                    assert(codes@.take(i as int) == t0);
                }
            },
            KeyCode::Backspace | KeyCode::Delete | KeyCode::Left | KeyCode::Right => {
                input.edit(&codes[i]);
            },
            _ => {},
        }
        i = i + 1;
    }
    proof {
        assert(codes@.take(n as int) == codes@);
    }
    submit
}

/// Applies the key codes of `codes` to a line, in order; on each `Enter`,
/// `validator`, if there is one, judges the value that would be submitted
/// then (the line, or `default_value` when it is empty) and its verdict is
/// kept in `result`. Returns whether there was an `Enter` and the kept
/// verdict passes.
pub fn apply_codes_checked<'a, V: Validator<'a>>(
    input: &mut LineInput,
    default_value: Option<&'a str>,
    codes: &Vec<KeyCode>,
    validator: &Option<V>,
    result: &mut Result<(), &'a str>,
) -> (submit: bool)
    requires
        old(input).wf(),
        old(input).has_room(),
    ensures
        final(input)@ == line_apply_codes(old(input)@, codes@),
        final(input).wf(),
        validator is None ==> *final(result) == *old(result),
        !codes@.contains(KeyCode::Enter) ==> *final(result) == *old(result),
        codes@.contains(KeyCode::Enter) ==> (validator matches Some(v) ==> v.accepts(
            submitted_value(line_apply_codes(old(input)@, codes@.take(last_enter(codes@))).0, default_value),
            *final(result),
        )),
        submit == (codes@.contains(KeyCode::Enter) && *final(result) is Ok),
{
    let n = codes.len();
    let mut i: usize = 0;
    let mut submit = false;
    while i < n
        invariant
            n == codes@.len(),
            i <= n,
            input.wf(),
            input.value@.len() <= old(input).value@.len(),
            old(input).has_room(),
            input@ == line_apply_codes(old(input)@, codes@.take(i as int)),
            validator is None ==> *result == *old(result),
            last_enter(codes@.take(i as int)) < 0 ==> *result == *old(result),
            last_enter(codes@.take(i as int)) >= 0 ==> (validator matches Some(v) ==> v.accepts(
                submitted_value(
                    line_apply_codes(old(input)@, codes@.take(last_enter(codes@.take(i as int)))).0,
                    default_value,
                ),
                *result,
            )),
            submit == (last_enter(codes@.take(i as int)) >= 0 && *result is Ok),
        decreases n - i,
    {
        let ghost t0 = codes@.take(i as int);
        let ghost t1 = codes@.take(i + 1);
        proof {
            assert(t1.drop_last() == t0);
            assert(t1.last() == codes@[i as int]);
            lemma_last_enter(t0);
            if last_enter(t0) >= 0 {
                assert(codes@.take(last_enter(t0)) == t0.take(last_enter(t0)));
                assert(t1.take(last_enter(t0)) == t0.take(last_enter(t0)));
            }
        }
        match codes[i] {
            KeyCode::Enter => {
                let verdict = match validator {
                    Some(v) => {
                        let value: &str = if input.value.as_str().is_empty() {
                            match default_value {
                                Some(d) => d,
                                None => {
                                    proof {
                                        reveal_strlit("");
                                    }
                                    ""
                                },
                            }
                        } else {
                            input.value.as_str()
                        };
                        assert(value@ == submitted_value(input.value@, default_value));
                        let r = v.check(value);
                        assert(v.accepts(submitted_value(line_apply_codes(old(input)@, t0).0, default_value), r));
                        Some(r)
                    },
                    None => None,
                };
                if let Some(r) = verdict {
                    *result = r;
                }
                submit = result.is_ok();
                proof {
                    assert(last_enter(t1) == i);
                    assert(codes@.take(i as int) == t0);
                }
            },
            KeyCode::Backspace | KeyCode::Delete | KeyCode::Left | KeyCode::Right => {
                input.edit(&codes[i]);
                proof {
                    assert(last_enter(t1) == last_enter(t0));
                }
            },
            _ => {
                proof {
                    assert(last_enter(t1) == last_enter(t0));
                }
            },
        }
        i = i + 1;
    }
    proof {
        assert(codes@.take(n as int) == codes@);
        lemma_last_enter(codes@);
    }
    submit
}

impl<'a, V: Validator<'a>> Text<'a, V> {
    /// Handles a batch of keys: the characters are typed, then the key codes
    /// applied; returns whether `Enter` was among them and the last validation passed.
    pub fn handle_key_event(&mut self, key: &KeyEvent) -> (submit: bool)
        requires
            old(self).input.wf(),
            old(self).input.value@.len() + key.chars@.len() + 2 < usize::MAX,
        ensures
            final(self).input@ == line_apply_codes(line_type_chars(old(self).input@, key.chars@), key.codes@),
            old(self).validator is None ==> final(self).validator_result == old(self).validator_result,
            !key.codes@.contains(KeyCode::Enter) ==> final(self).validator_result == old(self).validator_result,
            key.codes@.contains(KeyCode::Enter) ==> (old(self).validator matches Some(v) ==> v.accepts(
                submitted_value(
                    line_apply_codes(line_type_chars(old(self).input@, key.chars@), key.codes@.take(last_enter(key.codes@))).0,
                    old(self).default_value,
                ),
                final(self).validator_result,
            )),
            submit == (key.codes@.contains(KeyCode::Enter) && final(self).validator_result is Ok),
            final(self).message == old(self).message,
            final(self).placeholder == old(self).placeholder,
            final(self).default_value == old(self).default_value,
            final(self).validator == old(self).validator,
            final(self).input.wf(),
    {
        self.input.type_chars(&key.chars);
        apply_codes_checked(&mut self.input, self.default_value, &key.codes, &self.validator, &mut self.validator_result)
    }

    /// Handles a batch of keys with a validator: the characters are typed,
    /// then the key codes applied; on each `Enter` the validator judges the
    /// value to submit then. Returns whether there was an `Enter` and the last
    /// verdict passed.
    pub fn handle_key_event_with<F: Fn(&str) -> Result<(), &'a str>>(&mut self, key: &KeyEvent, validator: &F) -> (submit: bool)
        requires
            old(self).input.wf(),
            old(self).input.value@.len() + key.chars@.len() + 2 < usize::MAX,
            forall|s: &str| call_requires(*validator, (s,)),
        ensures
            ({
                let typed = line_type_chars(old(self).input@, key.chars@);
                let k = last_enter(key.codes@);
                &&& final(self).input@ == line_apply_codes(typed, key.codes@)
                &&& k < 0 ==> final(self).validator_result == old(self).validator_result && !submit
                &&& k >= 0 ==> {
                    &&& exists|s: &str|
                        s@ == submitted_value(line_apply_codes(typed, key.codes@.take(k)).0, old(self).default_value)
                        && call_ensures(*validator, (s,), final(self).validator_result)
                    &&& submit == final(self).validator_result is Ok
                }
            }),
            final(self).message == old(self).message,
            final(self).placeholder == old(self).placeholder,
            final(self).default_value == old(self).default_value,
            final(self).input.wf(),
            final(self).validator == old(self).validator,
    {
        self.input.type_chars(&key.chars);
        apply_codes_with(&mut self.input, self.default_value, &key.codes, validator, &mut self.validator_result)
    }

    /// Whether a batch of keys concerns the prompt.
    pub fn will_handle_key_event(&self, key: &KeyEvent) -> (r: bool)
        ensures
            r == line_will_handle(*key),
    {
        line_will_handle_key(key)
    }
}

} // verus!
