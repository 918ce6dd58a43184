//! The [`Confirm`] prompt: yes/no questions.
use vstd::prelude::*;

use crate::key::{KeyCode, KeyEvent};
use crate::formatted::Formatted;
use crate::utils::renderer::DrawTime;

verus! {

/// The state after a key, `(active, submit)`: arrows and `h`/`l` focus an
/// answer, `y`/`n` answer and submit, `Enter`/`Backspace` submit the focused one.
pub open spec fn confirm_step(active: bool, key: KeyCode) -> (bool, bool) {
    match key {
        KeyCode::Left | KeyCode::Char('h') | KeyCode::Char('H') => (false, false),
        KeyCode::Right | KeyCode::Char('l') | KeyCode::Char('L') => (true, false),
        KeyCode::Char('y') | KeyCode::Char('Y') => (true, true),
        KeyCode::Char('n') | KeyCode::Char('N') => (false, true),
        KeyCode::Enter | KeyCode::Backspace => (active, true),
        _ => (active, false),
    }
}

/// The state after the key codes of `codes`, in order: `(active, submit)`,
/// where `submit` tells whether any of them submitted.
pub open spec fn confirm_run(active: bool, codes: Seq<KeyCode>) -> (bool, bool)
    decreases codes.len(),
{
    if codes.len() == 0 {
        (active, false)
    } else {
        let before = confirm_run(active, codes.drop_last());
        let after = confirm_step(before.0, codes.last());
        (after.0, before.1 || after.1)
    }
}

/// Whether the confirm prompt reacts to a key.
pub open spec fn confirm_handles(key: KeyCode) -> bool {
    match key {
        KeyCode::Left | KeyCode::Right | KeyCode::Enter | KeyCode::Backspace => true,
        KeyCode::Char(c) => c == 'h' || c == 'H' || c == 'l' || c == 'L' || c == 'y' || c == 'Y' || c == 'n' || c == 'N',
        _ => false,
    }
}

/// Prompt to ask yes/no questions.
///
/// | Key                  | Action                       |
/// | -------------------- | ---------------------------- |
/// | `Enter`, `Backspace` | Submit current/initial value |
/// | `y`, `Y`             | Submit `true`                |
/// | `n`, `N`             | Submit `false`               |
/// | `Left`, `h`, `H`     | Focus `false`                |
/// | `Right`, `l`, `L`    | Focus `true`                 |
pub struct Confirm<'a> {
    /// Message used to display in the prompt.
    pub message: &'a str,
    /// Current state of the prompt.
    pub active: bool,
}

impl<'a> Confirm<'a> {
    /// The prompt drawn by `formatter` in place of its default look.
    pub fn format<F>(self, formatter: F) -> (r: Formatted<Self, F>)
        where
            F: Fn(&Confirm<'a>, DrawTime) -> String,
        ensures
            r.prompt == self,
            r.formatter == formatter,
    {
        Formatted { prompt: self, formatter }
    }

    /// Create a new confirm prompt, answering `false` at first.
    pub fn new(message: &'a str) -> (r: Self)
        ensures
            r.message == message,
            !r.active,
    {
        Confirm { message, active: false }
    }

    /// Set the initial answer.
    pub fn initial(&mut self, active: bool) -> (r: &mut Self)
        ensures
            r.active == active,
            r.message == old(self).message,
            *final(self) == *final(r),
    {
        self.active = active;
        self
    }

    /// Sets the answer and submits.
    pub fn update_and_submit(&mut self, active: bool) -> (submit: bool)
        ensures
            final(self).active == active,
            final(self).message == old(self).message,
            submit,
    {
        self.active = active;
        true
    }

    /// Handles a key; returns whether the prompt is submitted.
    pub fn handle_key(&mut self, key: &KeyCode) -> (submit: bool)
        ensures
            (final(self).active, submit) == confirm_step(old(self).active, *key),
            final(self).message == old(self).message,
    {
        match key {
            KeyCode::Left => {
                self.active = false;
                false
            },
            KeyCode::Right => {
                self.active = true;
                false
            },
            KeyCode::Enter | KeyCode::Backspace => true,
            KeyCode::Char(c) => {
                let c = *c;
                if c == 'h' || c == 'H' {
                    self.active = false;
                    false
                } else if c == 'l' || c == 'L' {
                    self.active = true;
                    false
                } else if c == 'y' || c == 'Y' {
                    self.update_and_submit(true)
                } else if c == 'n' || c == 'N' {
                    self.update_and_submit(false)
                } else {
                    false
                }
            },
            _ => false,
        }
    }

    /// Whether the prompt reacts to a key.
    pub fn will_handle_key(&self, key: &KeyCode) -> (r: bool)
        ensures
            r == confirm_handles(*key),
    {
        match key {
            KeyCode::Left | KeyCode::Right | KeyCode::Enter | KeyCode::Backspace => true,
            KeyCode::Char(c) => {
                let c = *c;
                c == 'h' || c == 'H' || c == 'l' || c == 'L' || c == 'y' || c == 'Y' || c == 'n' || c == 'N'
            },
            _ => false,
        }
    }

    /// Handles the key codes of a batch of keys, in order; returns whether any submitted.
    pub fn handle_key_event(&mut self, key: &KeyEvent) -> (submit: bool)
        ensures
            (final(self).active, submit) == confirm_run(old(self).active, key.codes@),
            final(self).message == old(self).message,
    {
        let n = key.codes.len();
        let mut i: usize = 0;
        let mut submit = false;
        while i < n
            invariant
                n == key.codes@.len(),
                i <= n,
                (self.active, submit) == confirm_run(old(self).active, key.codes@.take(i as int)),
                self.message == old(self).message,
            decreases n - i,
        {
            proof {
                assert(key.codes@.take(i + 1).drop_last() == key.codes@.take(i as int));
            }
            let s = self.handle_key(&key.codes[i]);
            submit = submit || s;
            i = i + 1;
        }
        proof {
            assert(key.codes@.take(n as int) == key.codes@);
        }
        submit
    }

    /// Whether the prompt reacts to any key code of a batch.
    pub fn will_handle_key_event(&self, key: &KeyEvent) -> (r: bool)
        ensures
            r == exists|i: int| 0 <= i < key.codes@.len() && confirm_handles(#[trigger] key.codes@[i]),
    {
        let n = key.codes.len();
        let mut i: usize = 0;
        while i < n
            invariant
                n == key.codes@.len(),
                i <= n,
                forall|j: int| 0 <= j < i ==> !confirm_handles(#[trigger] key.codes@[j]),
            decreases n - i,
        {
            if self.will_handle_key(&key.codes[i]) {
                return true;
            }
            i = i + 1;
        }
        false
    }
}

} // verus!
