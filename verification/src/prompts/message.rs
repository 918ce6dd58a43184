//! The [`Message`] prompt: show a message, maybe with a call to action.
use std::borrow::Cow;
use vstd::prelude::*;

use crate::error::{Error, Valuable};
use crate::key::{KeyCode, KeyEvent};
use crate::style::{DefaultStyle, Section, Style};
use crate::utils::renderer::{next_draw_time, DrawTime, Mark, Renderer};

verus! {

/// Prompt to show a message.
pub struct Message<'a> {
    /// Message used to display in the prompt.
    pub message: Cow<'a, str>,
    /// Call to action shown after the message, e.g., "Press any key".
    pub action: Option<Cow<'a, str>>,
    /// Whether the prompt waits for a key before it is done.
    pub wait_for_key: bool,
}

impl<'a> Message<'a> {
    /// Create a new message prompt that waits for a key.
    pub fn wait(message: &'a str) -> (r: Self)
        ensures
            r.message@ == message@,
            r.action is None,
            r.wait_for_key,
    {
        Message { message: Cow::Borrowed(message), action: None, wait_for_key: true }
    }

    /// Create a new message prompt with a call to action, e.g., "Press Any Key".
    pub fn call_to_action(message: &'a str, action: &'a str) -> (r: Self)
        ensures
            r.message@ == message@,
            r.action matches Some(a) && a@ == action@,
            r.wait_for_key,
    {
        Message { message: Cow::Borrowed(message), action: Some(Cow::Borrowed(action)), wait_for_key: true }
    }

    /// Create a new message prompt that does not wait.
    pub fn new(message: &'a str) -> (r: Self)
        ensures
            r.message@ == message@,
            r.action is None,
            !r.wait_for_key,
    {
        Message { message: Cow::Borrowed(message), action: None, wait_for_key: false }
    }

    /// Any key submits the prompt.
    pub fn handle_key(&mut self, key: &KeyCode) -> (submit: bool)
        ensures
            submit,
            *final(self) == *old(self),
    {
        true
    }

    /// Any key code of a batch submits the prompt.
    pub fn handle_key_event(&mut self, key: &KeyEvent) -> (submit: bool)
        ensures
            submit == (key.codes@.len() > 0),
            *final(self) == *old(self),
    {
        key.codes.len() > 0
    }

    /// The prompt takes any batch with a key code.
    pub fn will_handle_key_event(&self, key: &KeyEvent) -> (r: bool)
        ensures
            r == (key.codes@.len() > 0),
    {
        key.codes.len() > 0
    }

    /// The prompt takes any key.
    pub fn will_handle_key(&self, key: &KeyCode) -> (r: bool)
        ensures
            r,
    {
        true
    }
}


/// The text of a borrowed or owned string.
pub fn cow_str<'b>(s: &'b Cow<'_, str>) -> (r: &'b str)
    ensures
        r@ == s@,
{
    match s {
        Cow::Borrowed(b) => b,
        Cow::Owned(o) => o.as_str(),
    }
}

/// What a message draws: the message, then its call to action unless it is
/// the last draw, framed by the style's `Message` section.
pub open spec fn message_marks<S: Style>(m: &Message, style: &S, t: DrawTime) -> Seq<Mark> {
    let action = match m.action {
        Some(a) => if t != DrawTime::Last {
            style.begin_marks(Section::Action) + seq![Mark::Print(a@)] + style.end_marks(Section::Action)
        } else {
            Seq::empty()
        },
        None => Seq::empty(),
    };
    seq![Mark::PrePrompt] + style.begin_marks(Section::Message) + seq![Mark::Print(m.message@)] + action
        + style.end_marks(Section::Message) + seq![Mark::PostPrompt]
}

impl<'a> Message<'a> {
    /// The style can draw this message at draw time `t`.
    pub open spec fn can_draw<S: Style>(&self, style: &S, t: DrawTime) -> bool {
        &&& style.supports(Section::Message)
        &&& (t != DrawTime::Last && self.action is Some ==> style.supports(Section::Action))
    }

    /// Draws the message; a message that does not wait is done at once.
    pub fn draw_with_style<S: Style>(&self, r: &mut Renderer, style: &S)
        requires
            self.can_draw(style, old(r).draw_time),
        ensures
            final(r).log() == old(r).log() + message_marks(self, style, old(r).draw_time),
            final(r).draw_time == if self.wait_for_key {
                old(r).draw_time
            } else {
                next_draw_time(next_draw_time(old(r).draw_time))
            },
    {
        let draw_time = r.draw_time();
        r.pre_prompt();
        if !self.wait_for_key {
            r.update_draw_time();
            r.update_draw_time();
        }
        style.begin(r, Section::Message);
        r.print(cow_str(&self.message));
        if let DrawTime::Last = draw_time {
        } else {
            if let Some(action) = &self.action {
                style.begin(r, Section::Action);
                r.print(cow_str(action));
                style.end(r, Section::Action);
            }
        }
        style.end(r, Section::Message);
        r.post_prompt();
    }

    /// Draws the message in the default style.
    pub fn draw(&self, r: &mut Renderer)
        requires
            self.can_draw(&DefaultStyle { ascii: false }, old(r).draw_time),
        ensures
            final(r).log() == old(r).log() + message_marks(self, &DefaultStyle { ascii: false }, old(r).draw_time),
            final(r).draw_time == if self.wait_for_key {
                old(r).draw_time
            } else {
                next_draw_time(next_draw_time(old(r).draw_time))
            },
    {
        let style = DefaultStyle { ascii: false };
        self.draw_with_style(r, &style);
    }
}

impl<'a> Valuable for Message<'a> {
    type Output = ();

    open spec fn can_value(&self) -> bool {
        true
    }

    /// A message has no value to give; reading it always succeeds.
    fn value(&self) -> (r: Result<(), Error>)
        ensures
            r is Ok,
    {
        Ok(())
    }
}

} // verus!
