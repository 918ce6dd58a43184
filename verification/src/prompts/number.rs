//! The [`Number`] prompt: one-line input of numbers.
use vstd::prelude::*;

use crate::key::{KeyCode, KeyEvent};
use crate::prompts::validator::{FnValidator, NoValidator, Validator};
use crate::prompts::text::{
    apply_codes_checked, apply_codes_with, last_enter, line_apply_codes, submitted_value, line_edit, line_insert, line_will_handle, line_will_handle_key, LineInput,
};
use crate::strings::{contains_char, is_ascii_digit, is_control, spec_is_control};
use crate::utils::num_like::NumLike;
use crate::formatted::Formatted;
use crate::utils::renderer::DrawTime;

verus! {

/// Whether a number input accepts `ch`: a sign only at the start of a signed
/// number, one decimal point in a float, and digits.
pub open spec fn number_accepts(ch: char, signed: bool, float: bool, input: (Seq<char>, nat)) -> bool {
    if ch == '-' || ch == '+' {
        signed && input.1 == 0
    } else if ch == '.' {
        float && !input.0.contains('.')
    } else {
        '0' <= ch && ch <= '9'
    }
}

/// The line after a key other than `Enter`; only accepted characters are typed.
pub open spec fn number_edit(input: (Seq<char>, nat), key: KeyCode, signed: bool, float: bool) -> (Seq<char>, nat) {
    match key {
        KeyCode::Char(c) => if number_accepts(c, signed, float, input) { line_insert(input, c) } else { input },
        _ => line_edit(input, key),
    }
}

/// The line after typing `chars`: control characters are skipped, and so is
/// what the number does not accept where it is typed.
pub open spec fn number_type_chars(input: (Seq<char>, nat), chars: Seq<char>, signed: bool, float: bool) -> (Seq<char>, nat)
    decreases chars.len(),
{
    if chars.len() == 0 {
        input
    } else {
        let w = number_type_chars(input, chars.drop_last(), signed, float);
        let c = chars.last();
        if !spec_is_control(c) && number_accepts(c, signed, float, w) { line_insert(w, c) } else { w }
    }
}

/// Prompt to get one-line user input of numbers.
pub struct Number<'a, T: NumLike, V = NoValidator> {
    /// Message used to display in the prompt.
    pub message: &'a str,
    /// Input state for the prompt.
    pub input: LineInput,
    /// Placeholder to show when the input is empty.
    pub placeholder: Option<&'a str>,
    /// Default value to submit when the input is empty, as text.
    pub default_value: Option<String>,
    /// State of the validation of the user input.
    pub validator_result: Result<(), &'a str>,
    /// Validator of the value to submit, run on `Enter`.
    pub validator: Option<V>,
    /// The number type.
    pub kind: core::marker::PhantomData<T>,
}

impl<'a, T: NumLike> Number<'a, T, NoValidator> {
    /// Create a new number prompt.
    pub fn new(message: &'a str) -> (r: Self)
        ensures
            r.message == message,
            r.input@ == (Seq::<char>::empty(), 0nat),
            r.placeholder is None,
            r.default_value is None,
            r.validator_result is Ok,
            r.validator is None,
    {
        Number {
            message,
            input: LineInput::new(),
            placeholder: None,
            default_value: None,
            validator_result: Ok(()),
            kind: core::marker::PhantomData,
            validator: None,
        }
    }
}

impl<'a, T: NumLike, V: Validator<'a>> Number<'a, T, V> {
    /// The prompt drawn by `formatter` in place of its default look.
    pub fn format<F>(self, formatter: F) -> (r: Formatted<Self, F>)
        where
            F: Fn(&Number<'a, T, V>, DrawTime) -> (String, Option<[u16; 2]>),
        ensures
            r.prompt == self,
            r.formatter == formatter,
    {
        Formatted { prompt: self, formatter }
    }

    /// Set text to show when the input is empty; it is not submitted.
    pub fn placeholder(&mut self, value: &'a str) -> (r: &mut Self)
        ensures
            r.placeholder == Some(value),
            r.message == old(self).message,
            r.input == old(self).input,
            r.default_value == old(self).default_value,
            r.validator_result == old(self).validator_result,
            r.validator == old(self).validator,
            *final(self) == *final(r),
    {
        self.placeholder = Some(value);
        self
    }

    /// Set default value to submit when the input is empty.
    pub fn default(&mut self, value: T) -> (r: &mut Self)
        ensures
            r.default_value matches Some(s) && vstd::string::to_string_from_display_ensures::<T>(&value, s),
            r.message == old(self).message,
            r.input == old(self).input,
            r.placeholder == old(self).placeholder,
            r.validator_result == old(self).validator_result,
            r.validator == old(self).validator,
            *final(self) == *final(r),
    {
        self.default_value = Some(value.to_string());
        self
    }

    /// Set initial value, could be deleted by the user.
    pub fn initial(&mut self, value: T) -> (r: &mut Self)
        ensures
            exists|s: String| {
                &&& vstd::string::to_string_from_display_ensures::<T>(&value, s)
                &&& r.input@ == (s@, s@.len())
            },
            r.message == old(self).message,
            r.placeholder == old(self).placeholder,
            r.default_value == old(self).default_value,
            r.validator_result == old(self).validator_result,
            r.validator == old(self).validator,
            *final(self) == *final(r),
    {
        let s = value.to_string();
        self.input.set_value(s.as_str());
        self
    }

    /// The text to submit: the input, or the default value when the input is empty.
    pub fn value_text(&self) -> (r: String)
        ensures
            r@ == if self.input.value@.len() == 0 {
                match self.default_value {
                    Some(d) => d@,
                    None => Seq::<char>::empty(),
                }
            } else {
                self.input.value@
            },
    {
        if self.input.value.as_str().is_empty() {
            match &self.default_value {
                Some(d) => d.clone(),
                None => String::new(),
            }
        } else {
            self.input.value.clone()
        }
    }

    /// The prompt's input can take one more key.
    pub open spec fn ready(&self) -> bool {
        self.input.wf() && self.input.has_room()
    }

    /// Types `ch` if the number accepts it there.
    pub fn insert(&mut self, ch: char)
        requires
            old(self).ready(),
        ensures
            final(self).input@ == if number_accepts(ch, T::spec_is_signed(), T::spec_is_float(), old(self).input@) {
                line_insert(old(self).input@, ch)
            } else {
                old(self).input@
            },
            final(self).input.wf(),
            final(self).message == old(self).message,
            final(self).placeholder == old(self).placeholder,
            final(self).default_value == old(self).default_value,
            final(self).validator_result == old(self).validator_result,
            final(self).validator == old(self).validator,
    {
        let is_valid = if ch == '-' || ch == '+' {
            T::is_signed() && self.input.col == 0
        } else if ch == '.' {
            T::is_float() && !contains_char(self.input.value.as_str(), '.')
        } else {
            is_ascii_digit(ch)
        };
        if is_valid {
            self.input.insert(ch);
        }
    }

    /// The prompt with `validator` to judge the input on `Enter`.
    pub fn validate<F>(self, validator: F) -> (r: Number<'a, T, FnValidator<'a, F>>)
        where
            F: Fn(&str) -> Result<(), &'a str>,
        requires
            forall|s: &str| call_requires(validator, (s,)),
        ensures
            r.validator matches Some(v) && v.callee() == validator,
            r.message == self.message,
            r.input == self.input,
            r.placeholder == self.placeholder,
            r.default_value == self.default_value,
            r.validator_result == self.validator_result,
    {
        Number {
            message: self.message,
            input: self.input,
            placeholder: self.placeholder,
            default_value: self.default_value,
            validator_result: self.validator_result,
            kind: self.kind,
            validator: Some(FnValidator::new(validator)),
        }
    }

    /// Submits if the value passes: the validator, if there is one, judges
    /// the input and its verdict is kept; without one, the last verdict decides.
    pub fn validate_to_submit(&mut self) -> (submit: bool)
        ensures
            old(self).validator is None ==> final(self).validator_result == old(self).validator_result,
            old(self).validator matches Some(v) ==> v.accepts(old(self).input.value@, final(self).validator_result),
            submit == final(self).validator_result is Ok,
            final(self).message == old(self).message,
            final(self).input == old(self).input,
            final(self).placeholder == old(self).placeholder,
            final(self).default_value == old(self).default_value,
            final(self).validator == old(self).validator,
    {
        let verdict = match &self.validator {
            Some(v) => Some(v.check(self.input.value.as_str())),
            None => None,
        };
        if let Some(r) = verdict {
            self.validator_result = r;
        }
        self.validator_result.is_ok()
    }

    /// Submits after running `validator` on the input: its verdict is kept and decides.
    pub fn validate_to_submit_with<F: Fn(&str) -> Result<(), &'a str>>(&mut self, validator: &F) -> (submit: bool)
        requires
            forall|s: &str| call_requires(*validator, (s,)),
        ensures
            exists|s: &str| s@ == old(self).input.value@ && call_ensures(*validator, (s,), final(self).validator_result),
            submit == final(self).validator_result is Ok,
            final(self).message == old(self).message,
            final(self).input == old(self).input,
            final(self).placeholder == old(self).placeholder,
            final(self).default_value == old(self).default_value,
            final(self).validator == old(self).validator,
    {
        let verdict = validator(self.input.value.as_str());
        self.validator_result = verdict;
        self.validator_result.is_ok()
    }

    /// Applies a key other than `Enter`.
    fn edit(&mut self, key: &KeyCode)
        requires
            old(self).ready(),
        ensures
            final(self).input@ == number_edit(old(self).input@, *key, T::spec_is_signed(), T::spec_is_float()),
            final(self).input.wf(),
            final(self).message == old(self).message,
            final(self).placeholder == old(self).placeholder,
            final(self).default_value == old(self).default_value,
            final(self).validator_result == old(self).validator_result,
            final(self).validator == old(self).validator,
    {
        match key {
            KeyCode::Char(c) => self.insert(*c),
            _ => self.input.edit(key),
        }
    }

    /// Handles a key; returns whether the prompt is submitted.
    pub fn handle_key(&mut self, key: &KeyCode) -> (submit: bool)
        requires
            old(self).ready(),
        ensures
            *key == KeyCode::Enter ==> {
                &&& old(self).validator is None ==> final(self).validator_result == old(self).validator_result
                &&& old(self).validator matches Some(v) ==> v.accepts(old(self).input.value@, final(self).validator_result)
                &&& submit == final(self).validator_result is Ok
                &&& final(self).input == old(self).input
                &&& final(self).message == old(self).message
                &&& final(self).placeholder == old(self).placeholder
                &&& final(self).default_value == old(self).default_value
            },
            *key != KeyCode::Enter ==> !submit
                && final(self).input@ == number_edit(old(self).input@, *key, T::spec_is_signed(), T::spec_is_float())
                && final(self).message == old(self).message
                && final(self).placeholder == old(self).placeholder
                && final(self).default_value == old(self).default_value
                && final(self).validator_result == old(self).validator_result,
            final(self).input.wf(),
            final(self).validator == old(self).validator,
    {
        match key {
            KeyCode::Enter => self.validate_to_submit(),
            _ => {
                self.edit(key);
                false
            },
        }
    }

    /// Handles a key with a validator that judges the input on `Enter`;
    /// returns whether the prompt is submitted.
    pub fn handle_key_with<F: Fn(&str) -> Result<(), &'a str>>(&mut self, key: &KeyCode, validator: &F) -> (submit: bool)
        requires
            old(self).ready(),
            forall|s: &str| call_requires(*validator, (s,)),
        ensures
            *key == KeyCode::Enter ==> {
                &&& exists|s: &str| s@ == old(self).input.value@ && call_ensures(*validator, (s,), final(self).validator_result)
                &&& submit == final(self).validator_result is Ok
                &&& final(self).input == old(self).input
            },
            *key != KeyCode::Enter ==> !submit
                && final(self).input@ == number_edit(old(self).input@, *key, T::spec_is_signed(), T::spec_is_float())
                && final(self).validator_result == old(self).validator_result,
            final(self).message == old(self).message,
            final(self).placeholder == old(self).placeholder,
            final(self).default_value == old(self).default_value,
            final(self).input.wf(),
            final(self).validator == old(self).validator,
    {
        match key {
            KeyCode::Enter => self.validate_to_submit_with(validator),
            _ => {
                self.edit(key);
                false
            },
        }
    }

    /// Types the characters of `chars` that are not control characters and
    /// that the number accepts where they are typed.
    pub fn type_chars(&mut self, chars: &Vec<char>)
        requires
            old(self).input.wf(),
            old(self).input.value@.len() + chars@.len() + 1 < usize::MAX,
        ensures
            final(self).input@ == number_type_chars(old(self).input@, chars@, T::spec_is_signed(), T::spec_is_float()),
            final(self).input.wf(),
            final(self).input.value@.len() <= old(self).input.value@.len() + chars@.len(),
            final(self).message == old(self).message,
            final(self).placeholder == old(self).placeholder,
            final(self).default_value == old(self).default_value,
            final(self).validator_result == old(self).validator_result,
            final(self).validator == old(self).validator,
    {
        let n = chars.len();
        let mut i: usize = 0;
        while i < n
            invariant
                n == chars@.len(),
                i <= n,
                self.input.wf(),
                self.input@ == number_type_chars(old(self).input@, chars@.take(i as int), T::spec_is_signed(), T::spec_is_float()),
                self.input.value@.len() <= old(self).input.value@.len() + i,
                old(self).input.value@.len() + n + 1 < usize::MAX,
                self.message == old(self).message,
                self.placeholder == old(self).placeholder,
                self.default_value == old(self).default_value,
                self.validator_result == old(self).validator_result,
                self.validator == old(self).validator,
            decreases n - i,
        {
            proof {
                assert(chars@.take(i + 1).drop_last() == chars@.take(i as int));
                assert(chars@.take(i + 1).last() == chars@[i as int]);
            }
            let c = chars[i];
            if !is_control(c) {
                self.insert(c);
            }
            i = i + 1;
        }
        proof {
            assert(chars@.take(n as int) == chars@);
        }
    }

    /// Handles a batch of keys: the characters are typed, then the key codes
    /// applied; returns whether `Enter` was among them and the last validation passed.
    pub fn handle_key_event(&mut self, key: &KeyEvent) -> (submit: bool)
        requires
            old(self).input.wf(),
            old(self).input.value@.len() + key.chars@.len() + 2 < usize::MAX,
        ensures
            final(self).input@ == line_apply_codes(
                number_type_chars(old(self).input@, key.chars@, T::spec_is_signed(), T::spec_is_float()),
                key.codes@,
            ),
            old(self).validator is None ==> final(self).validator_result == old(self).validator_result,
            !key.codes@.contains(KeyCode::Enter) ==> final(self).validator_result == old(self).validator_result,
            key.codes@.contains(KeyCode::Enter) ==> (old(self).validator matches Some(v) ==> v.accepts(
                submitted_value(line_apply_codes(number_type_chars(old(self).input@, key.chars@, T::spec_is_signed(), T::spec_is_float()), key.codes@.take(last_enter(key.codes@))).0, None),
                final(self).validator_result,
            )),
            submit == (key.codes@.contains(KeyCode::Enter) && final(self).validator_result is Ok),
            final(self).message == old(self).message,
            final(self).placeholder == old(self).placeholder,
            final(self).default_value == old(self).default_value,
            final(self).validator == old(self).validator,
            final(self).input.wf(),
    {
        self.type_chars(&key.chars);
        apply_codes_checked(&mut self.input, None, &key.codes, &self.validator, &mut self.validator_result)
    }

    /// Handles a batch of keys with a validator: the characters are typed,
    /// then the key codes applied; on each `Enter` the validator judges
    /// the input then. Returns whether there was an `Enter` and the last
    /// verdict passed.
    pub fn handle_key_event_with<F: Fn(&str) -> Result<(), &'a str>>(&mut self, key: &KeyEvent, validator: &F) -> (submit: bool)
        requires
            old(self).input.wf(),
            old(self).input.value@.len() + key.chars@.len() + 2 < usize::MAX,
            forall|s: &str| call_requires(*validator, (s,)),
        ensures
            ({
                let typed = number_type_chars(old(self).input@, key.chars@, T::spec_is_signed(), T::spec_is_float());
                let k = last_enter(key.codes@);
                &&& final(self).input@ == line_apply_codes(typed, key.codes@)
                &&& k < 0 ==> final(self).validator_result == old(self).validator_result && !submit
                &&& k >= 0 ==> {
                    &&& exists|s: &str|
                        s@ == line_apply_codes(typed, key.codes@.take(k)).0
                        && call_ensures(*validator, (s,), final(self).validator_result)
                    &&& submit == final(self).validator_result is Ok
                }
            }),
            final(self).message == old(self).message,
            final(self).placeholder == old(self).placeholder,
            final(self).default_value == old(self).default_value,
            final(self).input.wf(),
            final(self).validator == old(self).validator,
    {
        self.type_chars(&key.chars);
        apply_codes_with(&mut self.input, None, &key.codes, validator, &mut self.validator_result)
    }

    /// Whether a batch of keys concerns the prompt.
    pub fn will_handle_key_event(&self, key: &KeyEvent) -> (r: bool)
        ensures
            r == line_will_handle(*key),
    {
        line_will_handle_key(key)
    }
}

} // verus!
