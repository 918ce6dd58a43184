//! The [`Password`] prompt: one-line input shown as `*` or hidden.
use std::borrow::Cow;
use vstd::prelude::*;

use crate::error::{Error, Valuable};
use crate::key::{KeyCode, KeyEvent};
use crate::prompts::validator::{FnValidator, NoValidator, Validator};
use crate::prompts::message::cow_str;
use crate::strings::{char_count, repeat, repeat_seq};
use crate::style::{DefaultStyle, Section, Style};
use crate::utils::renderer::{DrawTime, Mark, Renderer};
use crate::prompts::text::{
    apply_codes_checked, apply_codes_with, last_enter, line_apply_codes, line_edit, line_type_chars, line_will_handle, line_will_handle_key, submitted_value, LineInput,
};

verus! {

/// Prompt to get one-line user input as password.
///
/// Similar to [`Text`](crate::Text), but the input is shown as `*` characters,
/// or hidden completely.
pub struct Password<'a, V = NoValidator> {
    /// Message used to display in the prompt.
    pub message: Cow<'a, str>,
    /// Input state for the prompt.
    pub input: LineInput,
    /// Placeholder to show when the input is empty.
    pub placeholder: Option<&'a str>,
    /// Default value to submit when the input is empty.
    pub default_value: Option<&'a str>,
    /// Must hide user input or show `*` characters
    pub hidden: bool,
    /// State of the validation of the user input.
    pub validator_result: Result<(), &'a str>,
    /// Validator of the value to submit, run on `Enter`.
    pub validator: Option<V>,
}

impl<'a> Password<'a, NoValidator> {
    /// Create a new password prompt.
    pub fn new(message: &'a str) -> (r: Self)
        ensures
            r.message@ == message@,
            r.input@ == (Seq::<char>::empty(), 0nat),
            r.placeholder is None,
            r.default_value is None,
            !r.hidden,
            r.validator_result is Ok,
            r.validator is None,
    {
        Password {
            message: Cow::Borrowed(message),
            input: LineInput::new(),
            placeholder: None,
            default_value: None,
            hidden: false,
            validator_result: Ok(()),
            validator: None,
        }
    }
}

impl<'a, V: Validator<'a>> Password<'a, V> {
    /// Set text to show when the input is empty; it is not submitted.
    pub fn placeholder(&mut self, value: &'a str) -> (r: &mut Self)
        ensures
            r.placeholder == Some(value),
            r.message == old(self).message,
            r.input == old(self).input,
            r.default_value == old(self).default_value,
            r.hidden == old(self).hidden,
            r.validator_result == old(self).validator_result,
            r.validator == old(self).validator,
            *final(self) == *final(r),
    {
        self.placeholder = Some(value);
        self
    }

    /// Set default value to submit when the input is empty.
    pub fn default(&mut self, value: &'a str) -> (r: &mut Self)
        ensures
            r.default_value == Some(value),
            r.message == old(self).message,
            r.input == old(self).input,
            r.placeholder == old(self).placeholder,
            r.hidden == old(self).hidden,
            r.validator_result == old(self).validator_result,
            r.validator == old(self).validator,
            *final(self) == *final(r),
    {
        self.default_value = Some(value);
        self
    }

    /// Set initial value, could be deleted by the user.
    pub fn initial(&mut self, value: &str) -> (r: &mut Self)
        ensures
            r.input@ == (value@, value@.len()),
            r.message == old(self).message,
            r.placeholder == old(self).placeholder,
            r.default_value == old(self).default_value,
            r.hidden == old(self).hidden,
            r.validator_result == old(self).validator_result,
            r.validator == old(self).validator,
            *final(self) == *final(r),
    {
        self.input.set_value(value);
        self
    }

    /// Set whether to hide user input or show `*` characters.
    pub fn hidden(&mut self, hidden: bool) -> (r: &mut Self)
        ensures
            r.hidden == hidden,
            r.message == old(self).message,
            r.input == old(self).input,
            r.placeholder == old(self).placeholder,
            r.default_value == old(self).default_value,
            r.validator_result == old(self).validator_result,
            r.validator == old(self).validator,
            *final(self) == *final(r),
    {
        self.hidden = hidden;
        self
    }

    /// The input, or the default value when the input is empty.
    pub fn get_value(&self) -> (r: &str)
        ensures
            r@ == submitted_value(self.input.value@, self.default_value),
    {
        if self.input.value.as_str().is_empty() {
            match self.default_value {
                Some(d) => d,
                None => {
                    proof {
                        reveal_strlit("");
                    }
                    ""
                },
            }
        } else {
            self.input.value.as_str()
        }
    }

    /// The prompt with `validator` to judge the value to submit on `Enter`.
    pub fn validate<F>(self, validator: F) -> (r: Password<'a, FnValidator<'a, F>>)
        where
            F: Fn(&str) -> Result<(), &'a str>,
        requires
            forall|s: &str| call_requires(validator, (s,)),
        ensures
            r.validator matches Some(v) && v.callee() == validator,
            r.message == self.message,
            r.input == self.input,
            r.placeholder == self.placeholder,
            r.default_value == self.default_value,
            r.hidden == self.hidden,
            r.validator_result == self.validator_result,
    {
        Password {
            message: self.message,
            input: self.input,
            placeholder: self.placeholder,
            default_value: self.default_value,
            hidden: self.hidden,
            validator_result: self.validator_result,
            validator: Some(FnValidator::new(validator)),
        }
    }

    /// Submits if the value passes: the validator, if there is one, judges
    /// the value to submit and its verdict is kept; without one, the last verdict decides.
    pub fn validate_to_submit(&mut self) -> (submit: bool)
        ensures
            old(self).validator is None ==> final(self).validator_result == old(self).validator_result,
            old(self).validator matches Some(v) ==> v.accepts(submitted_value(old(self).input.value@, old(self).default_value), final(self).validator_result),
            submit == final(self).validator_result is Ok,
            final(self).message == old(self).message,
            final(self).input == old(self).input,
            final(self).placeholder == old(self).placeholder,
            final(self).default_value == old(self).default_value,
            final(self).hidden == old(self).hidden,
            final(self).validator == old(self).validator,
    {
        let verdict = match &self.validator {
            Some(v) => Some(v.check(self.get_value())),
            None => None,
        };
        if let Some(r) = verdict {
            self.validator_result = r;
        }
        self.validator_result.is_ok()
    }

    /// Submits after running `validator` on the submitted value: its verdict
    /// is kept and decides.
    pub fn validate_to_submit_with<F: Fn(&str) -> Result<(), &'a str>>(&mut self, validator: &F) -> (submit: bool)
        requires
            forall|s: &str| call_requires(*validator, (s,)),
        ensures
            exists|s: &str|
                s@ == submitted_value(old(self).input.value@, old(self).default_value)
                && call_ensures(*validator, (s,), final(self).validator_result),
            submit == final(self).validator_result is Ok,
            final(self).message == old(self).message,
            final(self).input == old(self).input,
            final(self).placeholder == old(self).placeholder,
            final(self).default_value == old(self).default_value,
            final(self).hidden == old(self).hidden,
            final(self).validator == old(self).validator,
    {
        let verdict = validator(self.get_value());
        self.validator_result = verdict;
        self.validator_result.is_ok()
    }

    /// The prompt's input can take one more key.
    pub open spec fn ready(&self) -> bool {
        self.input.wf() && self.input.has_room()
    }

    /// Handles a key; returns whether the prompt is submitted.
    pub fn handle_key(&mut self, key: &KeyCode) -> (submit: bool)
        requires
            old(self).ready(),
        ensures
            *key == KeyCode::Enter ==> {
                &&& old(self).validator is None ==> final(self).validator_result == old(self).validator_result
                &&& old(self).validator matches Some(v) ==> v.accepts(submitted_value(old(self).input.value@, old(self).default_value), final(self).validator_result)
                &&& submit == final(self).validator_result is Ok
                &&& final(self).input == old(self).input
                &&& final(self).message == old(self).message
                &&& final(self).placeholder == old(self).placeholder
                &&& final(self).default_value == old(self).default_value
            },
            *key != KeyCode::Enter ==> !submit
                && final(self).input@ == line_edit(old(self).input@, *key)
                && final(self).message == old(self).message
                && final(self).placeholder == old(self).placeholder
                && final(self).default_value == old(self).default_value
                && final(self).hidden == old(self).hidden
                && final(self).validator_result == old(self).validator_result,
            final(self).input.wf(),
            final(self).validator == old(self).validator,
    {
        match key {
            KeyCode::Enter => self.validate_to_submit(),
            _ => {
                self.input.edit(key);
                false
            },
        }
    }

    /// Handles a key with a validator that judges the value on `Enter`;
    /// returns whether the prompt is submitted.
    pub fn handle_key_with<F: Fn(&str) -> Result<(), &'a str>>(&mut self, key: &KeyCode, validator: &F) -> (submit: bool)
        requires
            old(self).ready(),
            forall|s: &str| call_requires(*validator, (s,)),
        ensures
            *key == KeyCode::Enter ==> {
                &&& exists|s: &str|
                    s@ == submitted_value(old(self).input.value@, old(self).default_value)
                    && call_ensures(*validator, (s,), final(self).validator_result)
                &&& submit == final(self).validator_result is Ok
                &&& final(self).input == old(self).input
            },
            *key != KeyCode::Enter ==> !submit
                && final(self).input@ == line_edit(old(self).input@, *key)
                && final(self).validator_result == old(self).validator_result,
            final(self).message == old(self).message,
            final(self).placeholder == old(self).placeholder,
            final(self).default_value == old(self).default_value,
            final(self).hidden == old(self).hidden,
            final(self).input.wf(),
            final(self).validator == old(self).validator,
    {
        match key {
            KeyCode::Enter => self.validate_to_submit_with(validator),
            _ => {
                self.input.edit(key);
                false
            },
        }
    }

    /// Handles a batch of keys: the characters are typed, then the key codes
    /// applied; returns whether `Enter` was among them and the last validation passed.
    pub fn handle_key_event(&mut self, key: &KeyEvent) -> (submit: bool)
        requires
            old(self).input.wf(),
            old(self).input.value@.len() + key.chars@.len() + 2 < usize::MAX,
        ensures
            final(self).input@ == line_apply_codes(line_type_chars(old(self).input@, key.chars@), key.codes@),
            old(self).validator is None ==> final(self).validator_result == old(self).validator_result,
            !key.codes@.contains(KeyCode::Enter) ==> final(self).validator_result == old(self).validator_result,
            key.codes@.contains(KeyCode::Enter) ==> (old(self).validator matches Some(v) ==> v.accepts(
                submitted_value(line_apply_codes(line_type_chars(old(self).input@, key.chars@), key.codes@.take(last_enter(key.codes@))).0, old(self).default_value),
                final(self).validator_result,
            )),
            submit == (key.codes@.contains(KeyCode::Enter) && final(self).validator_result is Ok),
            final(self).message == old(self).message,
            final(self).placeholder == old(self).placeholder,
            final(self).default_value == old(self).default_value,
            final(self).hidden == old(self).hidden,
            final(self).validator == old(self).validator,
            final(self).input.wf(),
    {
        self.input.type_chars(&key.chars);
        apply_codes_checked(&mut self.input, self.default_value, &key.codes, &self.validator, &mut self.validator_result)
    }

    /// Handles a batch of keys with a validator: the characters are typed,
    /// then the key codes applied; on each `Enter` the validator judges
    /// the value to submit then. Returns whether there was an `Enter` and the last
    /// verdict passed.
    pub fn handle_key_event_with<F: Fn(&str) -> Result<(), &'a str>>(&mut self, key: &KeyEvent, validator: &F) -> (submit: bool)
        requires
            old(self).input.wf(),
            old(self).input.value@.len() + key.chars@.len() + 2 < usize::MAX,
            forall|s: &str| call_requires(*validator, (s,)),
        ensures
            ({
                let typed = line_type_chars(old(self).input@, key.chars@);
                let k = last_enter(key.codes@);
                &&& final(self).input@ == line_apply_codes(typed, key.codes@)
                &&& k < 0 ==> final(self).validator_result == old(self).validator_result && !submit
                &&& k >= 0 ==> {
                    &&& exists|s: &str|
                        s@ == submitted_value(line_apply_codes(typed, key.codes@.take(k)).0, old(self).default_value)
                        && call_ensures(*validator, (s,), final(self).validator_result)
                    &&& submit == final(self).validator_result is Ok
                }
            }),
            final(self).message == old(self).message,
            final(self).placeholder == old(self).placeholder,
            final(self).default_value == old(self).default_value,
            final(self).hidden == old(self).hidden,
            final(self).input.wf(),
            final(self).validator == old(self).validator,
    {
        self.input.type_chars(&key.chars);
        apply_codes_with(&mut self.input, self.default_value, &key.codes, validator, &mut self.validator_result)
    }

    /// Whether a batch of keys concerns the prompt.
    pub fn will_handle_key_event(&self, key: &KeyEvent) -> (r: bool)
        ensures
            r == line_will_handle(*key),
    {
        line_will_handle_key(key)
    }
}


/// What a password prompt draws once answered: the message and a hidden answer.
pub open spec fn password_answered_marks<'a, V, S: Style>(p: &Password<'a, V>, style: &S) -> Seq<Mark> {
    style.begin_marks(Section::Query(true)) + seq![Mark::Print(p.message@)] + style.end_marks(Section::Query(true))
        + style.begin_marks(Section::Answer(false)) + style.end_marks(Section::Answer(false))
}

/// The placeholder, drawn only while the input is empty.
pub open spec fn password_placeholder_marks<'a, V, S: Style>(p: &Password<'a, V>, style: &S) -> Seq<Mark> {
    match p.placeholder {
        Some(ph) => if p.input.value@.len() == 0 {
            style.begin_marks(Section::Placeholder) + seq![Mark::Print(ph@)] + style.end_marks(Section::Placeholder)
        } else {
            Seq::empty()
        },
        None => Seq::empty(),
    }
}

/// The validation error, if any.
pub open spec fn password_error_marks<'a, V, S: Style>(p: &Password<'a, V>, style: &S) -> Seq<Mark> {
    match p.validator_result {
        Err(e) => style.begin_marks(Section::Validator(false)) + seq![Mark::Print(e@)]
            + style.end_marks(Section::Validator(false)),
        Ok(_) => Seq::empty(),
    }
}

/// What a password prompt draws before it is answered: the message, the input
/// as `*` (or nothing if hidden), the placeholder, and the validation error.
pub open spec fn password_active_marks<'a, V, S: Style>(p: &Password<'a, V>, style: &S) -> Seq<Mark> {
    let text = if p.hidden { Seq::<char>::empty() } else { repeat_seq("*"@, p.input.value@.len()) };
    style.begin_marks(Section::Query(false)) + seq![Mark::Print(p.message@)] + style.end_marks(Section::Query(false))
        + style.begin_marks(Section::Input) + seq![Mark::Print(text)] + password_placeholder_marks(p, style)
        + style.end_marks(Section::Input) + password_error_marks(p, style)
}

/// What a password prompt draws at draw time `t`.
pub open spec fn password_marks<'a, V, S: Style>(p: &Password<'a, V>, style: &S, t: DrawTime) -> Seq<Mark> {
    let body = if t == DrawTime::Last { password_answered_marks(p, style) } else { password_active_marks(p, style) };
    seq![Mark::PrePrompt] + body + seq![Mark::PostPrompt, Mark::SetCursor((2 + p.input.col) as nat, 1)]
}

impl<'a, V: Validator<'a>> Password<'a, V> {
    /// The style can draw the prompt.
    pub open spec fn can_draw<S: Style>(&self, style: &S) -> bool {
        &&& style.supports(Section::Query(true))
        &&& style.supports(Section::Query(false))
        &&& style.supports(Section::Answer(false))
        &&& style.supports(Section::Input)
        &&& style.supports(Section::Placeholder)
        &&& style.supports(Section::Validator(false))
        &&& self.input.col + 2 <= usize::MAX
    }

    fn draw_answered<S: Style>(&self, r: &mut Renderer, style: &S)
        requires
            self.can_draw(style),
        ensures
            final(r).log() == old(r).log() + password_answered_marks(self, style),
            final(r).draw_time == old(r).draw_time,
    {
        style.begin(r, Section::Query(true));
        r.print(cow_str(&self.message));
        style.end(r, Section::Query(true));
        style.begin(r, Section::Answer(false));
        style.end(r, Section::Answer(false));
    }

    fn draw_placeholder<S: Style>(&self, r: &mut Renderer, style: &S)
        requires
            self.can_draw(style),
        ensures
            final(r).log() == old(r).log() + password_placeholder_marks(self, style),
            final(r).draw_time == old(r).draw_time,
    {
        if self.input.value.as_str().is_empty() {
            if let Some(placeholder) = self.placeholder {
                style.begin(r, Section::Placeholder);
                r.print(placeholder);
                style.end(r, Section::Placeholder);
            }
        }
    }

    fn draw_error<S: Style>(&self, r: &mut Renderer, style: &S)
        requires
            self.can_draw(style),
        ensures
            final(r).log() == old(r).log() + password_error_marks(self, style),
            final(r).draw_time == old(r).draw_time,
    {
        if let Err(error) = self.validator_result {
            style.begin(r, Section::Validator(false));
            r.print(error);
            style.end(r, Section::Validator(false));
        }
    }

    fn draw_active<S: Style>(&self, r: &mut Renderer, style: &S)
        requires
            self.can_draw(style),
        ensures
            final(r).log() == old(r).log() + password_active_marks(self, style),
            final(r).draw_time == old(r).draw_time,
    {
        style.begin(r, Section::Query(false));
        r.print(cow_str(&self.message));
        style.end(r, Section::Query(false));
        let text = if self.hidden {
            String::new()
        } else {
            repeat("*", char_count(self.input.value.as_str()))
        };
        style.begin(r, Section::Input);
        r.print(text.as_str());
        self.draw_placeholder(r, style);
        style.end(r, Section::Input);
        self.draw_error(r, style);
    }

    /// Draws the prompt; the cursor goes after the shown input.
    pub fn draw_with_style<S: Style>(&self, r: &mut Renderer, style: &S)
        requires
            self.can_draw(style),
        ensures
            final(r).log() == old(r).log() + password_marks(self, style, old(r).draw_time),
            final(r).draw_time == old(r).draw_time,
    {
        let draw_time = r.draw_time();
        r.pre_prompt();
        if let DrawTime::Last = draw_time {
            self.draw_answered(r, style);
        } else {
            self.draw_active(r, style);
        }
        r.post_prompt();
        r.set_cursor(2 + self.input.col, 1);
    }

    /// Draws the prompt in the default style.
    pub fn draw(&self, r: &mut Renderer)
        requires
            self.input.col + 2 <= usize::MAX,
        ensures
            final(r).log() == old(r).log() + password_marks(self, &DefaultStyle { ascii: false }, old(r).draw_time),
            final(r).draw_time == old(r).draw_time,
    {
        let style = DefaultStyle { ascii: false };
        self.draw_with_style(r, &style);
    }
}

impl<'a, V: Validator<'a>> Valuable for Password<'a, V> {
    type Output = String;

    open spec fn can_value(&self) -> bool {
        true
    }

    /// The typed input (the default value is not consulted).
    fn value(&self) -> (r: Result<String, Error>)
        ensures
            r matches Ok(s) && s@ == self.input.value@,
    {
        Ok(self.input.value.clone())
    }
}

} // verus!
