//! The [`Toggle`] prompt: choose between two options.
use vstd::prelude::*;

use crate::key::{KeyCode, KeyEvent};
use crate::formatted::Formatted;
use crate::utils::renderer::DrawTime;

verus! {

/// The state after a key, `(active, submit)`: arrows and `h`/`l` focus an
/// option, `Enter`/`Backspace` submit the focused one.
pub open spec fn toggle_step(active: bool, key: KeyCode) -> (bool, bool) {
    match key {
        KeyCode::Left | KeyCode::Char('h') | KeyCode::Char('H') => (false, false),
        KeyCode::Right | KeyCode::Char('l') | KeyCode::Char('L') => (true, false),
        KeyCode::Enter | KeyCode::Backspace => (active, true),
        _ => (active, false),
    }
}

/// The state after the key codes of `codes`, in order: `(active, submit)`,
/// where `submit` tells whether any of them submitted.
pub open spec fn toggle_run(active: bool, codes: Seq<KeyCode>) -> (bool, bool)
    decreases codes.len(),
{
    if codes.len() == 0 {
        (active, false)
    } else {
        let before = toggle_run(active, codes.drop_last());
        let after = toggle_step(before.0, codes.last());
        (after.0, before.1 || after.1)
    }
}

/// Prompt to choose between two options.
///
/// | Key                  | Action                       |
/// | -------------------- | ---------------------------- |
/// | `Enter`, `Backspace` | Submit current/initial value |
/// | `Left`, `h`, `H`     | Focus the first option       |
/// | `Right`, `l`, `L`    | Focus the second option      |
pub struct Toggle<'a> {
    /// Message used to display in the prompt.
    pub message: &'a str,
    /// Options to display in the prompt.
    pub options: [&'a str; 2],
    /// Current state of the prompt: whether the second option is focused.
    pub active: bool,
}

impl<'a> Toggle<'a> {
    /// The prompt drawn by `formatter` in place of its default look.
    pub fn format<F>(self, formatter: F) -> (r: Formatted<Self, F>)
        where
            F: Fn(&Toggle<'a>, DrawTime) -> String,
        ensures
            r.prompt == self,
            r.formatter == formatter,
    {
        Formatted { prompt: self, formatter }
    }

    /// Create a new toggle prompt, on the first option.
    pub fn new(message: &'a str, options: [&'a str; 2]) -> (r: Self)
        ensures
            r.message == message,
            r.options == options,
            !r.active,
    {
        Toggle { message, options, active: false }
    }

    /// Set whether the prompt starts on the second option.
    pub fn initial(&mut self, value: bool) -> (r: &mut Self)
        ensures
            r.active == value,
            r.message == old(self).message,
            r.options == old(self).options,
            *final(self) == *final(r),
    {
        self.active = value;
        self
    }

    /// The focused option.
    pub fn get_value(&self) -> (r: &'a str)
        ensures
            r == self.options@[if self.active { 1int } else { 0int }],
    {
        if self.active { self.options[1] } else { self.options[0] }
    }

    /// Handles a key; returns whether the prompt is submitted.
    pub fn handle_key(&mut self, key: &KeyCode) -> (submit: bool)
        ensures
            (final(self).active, submit) == toggle_step(old(self).active, *key),
            final(self).message == old(self).message,
            final(self).options == old(self).options,
    {
        match key {
            KeyCode::Left => {
                self.active = false;
                false
            },
            KeyCode::Right => {
                self.active = true;
                false
            },
            KeyCode::Enter | KeyCode::Backspace => true,
            KeyCode::Char(c) => {
                let c = *c;
                if c == 'h' || c == 'H' {
                    self.active = false;
                } else if c == 'l' || c == 'L' {
                    self.active = true;
                }
                false
            },
            _ => false,
        }
    }

    /// Handles the key codes of a batch of keys, in order; returns whether any submitted.
    pub fn handle_key_event(&mut self, key: &KeyEvent) -> (submit: bool)
        ensures
            (final(self).active, submit) == toggle_run(old(self).active, key.codes@),
            final(self).message == old(self).message,
            final(self).options == old(self).options,
    {
        let n = key.codes.len();
        let mut i: usize = 0;
        let mut submit = false;
        while i < n
            invariant
                n == key.codes@.len(),
                i <= n,
                (self.active, submit) == toggle_run(old(self).active, key.codes@.take(i as int)),
                self.message == old(self).message,
                self.options == old(self).options,
            decreases n - i,
        {
            proof {
                assert(key.codes@.take(i + 1).drop_last() == key.codes@.take(i as int));
            }
            let s = self.handle_key(&key.codes[i]);
            submit = submit || s;
            i = i + 1;
        }
        proof {
            assert(key.codes@.take(n as int) == key.codes@);
        }
        submit
    }
}

} // verus!
