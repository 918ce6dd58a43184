//! Prompts drawn by a custom formatter: the formatter gets the prompt and the
//! draw time, and gives back what to draw.
use vstd::prelude::*;

use crate::utils::renderer::{DrawTime, Mark, Renderer};

verus! {

/// What a formatter gives back, and how it goes onto a renderer.
pub trait FormatOutput {
    /// The commands that drawing it adds, in order.
    spec fn marks(&self) -> Seq<Mark>;

    /// Draws it.
    fn draw_on(&self, r: &mut Renderer)
        ensures
            final(r).log() == old(r).log() + self.marks(),
            final(r).draw_time == old(r).draw_time,
    ;
}

/// Text alone, as the formatters of the choice prompts give it.
impl FormatOutput for String {
    open spec fn marks(&self) -> Seq<Mark> {
        seq![Mark::Print(self@)]
    }

    fn draw_on(&self, r: &mut Renderer) {
        r.print(self.as_str());
    }
}

/// Text and the cursor's column and line, as a text prompt's formatter gives them.
impl FormatOutput for (String, [usize; 2]) {
    open spec fn marks(&self) -> Seq<Mark> {
        seq![Mark::Print(self.0@), Mark::SetCursor(self.1@[0] as nat, self.1@[1] as nat)]
    }

    fn draw_on(&self, r: &mut Renderer) {
        r.print(self.0.as_str());
        r.set_cursor(self.1[0], self.1[1]);
    }
}

/// Text and, if the cursor is shown, its column and line, as a number
/// prompt's formatter gives them.
impl FormatOutput for (String, Option<[u16; 2]>) {
    open spec fn marks(&self) -> Seq<Mark> {
        match self.1 {
            Some(c) => seq![Mark::Print(self.0@), Mark::SetCursor(c@[0] as nat, c@[1] as nat)],
            None => seq![Mark::Print(self.0@)],
        }
    }

    fn draw_on(&self, r: &mut Renderer) {
        r.print(self.0.as_str());
        if let Some(c) = self.1 {
            r.set_cursor(c[0] as usize, c[1] as usize);
        }
    }
}

/// A prompt with the formatter that draws it in place of its default look.
pub struct Formatted<P, F> {
    pub prompt: P,
    pub formatter: F,
}

impl<P, F> Formatted<P, F> {
    /// Draws the prompt: what the formatter gives for the prompt and the
    /// renderer's draw time goes onto the renderer.
    pub fn draw<O: FormatOutput>(&self, r: &mut Renderer)
        where
            F: Fn(&P, DrawTime) -> O,
        requires
            call_requires(self.formatter, (&self.prompt, old(r).draw_time)),
        ensures
            exists|o: O|
                #[trigger] call_ensures(self.formatter, (&self.prompt, old(r).draw_time), o)
                    && final(r).log() == old(r).log() + o.marks(),
            final(r).draw_time == old(r).draw_time,
    {
        let out = (self.formatter)(&self.prompt, r.draw_time());
        out.draw_on(r);
    }
}

} // verus!
