//! Colored pieces of text, as the themes produce them.
use vstd::prelude::*;

use crate::strings::owned;
use crate::utils::renderer::Color;

verus! {

/// A piece of text with its colors and whether it is struck through.
#[derive(Debug)]
pub struct ColoredString {
    pub input: String,
    pub fgcolor: Option<Color>,
    pub bgcolor: Option<Color>,
    pub strikethrough: bool,
}

/// A piece of colored text as a value: text, text color, background, struck through.
pub type Piece = (Seq<char>, Option<Color>, Option<Color>, bool);

impl View for ColoredString {
    type V = Piece;

    open spec fn view(&self) -> Piece {
        (self.input@, self.fgcolor, self.bgcolor, self.strikethrough)
    }
}

/// Plain or colored text, as a value.
pub open spec fn piece(s: Seq<char>, fg: Option<Color>) -> Piece {
    (s, fg, None, false)
}

impl ColoredString {
    /// `s` in the color `fg` (or the default color).
    pub fn paint(s: &str, fg: Option<Color>) -> (r: Self)
        ensures
            r@ == piece(s@, fg),
    {
        ColoredString { input: owned(s), fgcolor: fg, bgcolor: None, strikethrough: false }
    }

    /// `s` in the color `fg`, taking the string.
    pub fn paint_string(s: String, fg: Option<Color>) -> (r: Self)
        ensures
            r@ == piece(s@, fg),
    {
        ColoredString { input: s, fgcolor: fg, bgcolor: None, strikethrough: false }
    }
}

/// A collection of colored strings, written one after another.
#[derive(Debug, Default)]
pub struct ColoredStrings(pub Vec<ColoredString>);

impl ColoredStrings {
    /// The pieces, as values.
    pub open spec fn pieces(&self) -> Seq<Piece> {
        self.0@.map_values(|c: ColoredString| c@)
    }

    /// Return a new empty container.
    pub fn new() -> (r: Self)
        ensures
            r.pieces() == Seq::<Piece>::empty(),
    {
        ColoredStrings(Vec::new())
    }

    /// Adds a piece at the end.
    pub fn push(&mut self, c: ColoredString)
        ensures
            final(self).pieces() == old(self).pieces().push(c@),
    {
        self.0.push(c);
        proof {
            assert(self.0@.map_values(|c: ColoredString| c@) == old(self).0@.map_values(|c: ColoredString| c@).push(c@));
        }
    }

    /// Adds `s` in the color `fg` at the end.
    pub fn push_str(&mut self, s: &str, fg: Option<Color>)
        ensures
            final(self).pieces() == old(self).pieces().push(piece(s@, fg)),
    {
        self.push(ColoredString::paint(s, fg));
    }

    /// Moves the pieces of `other` to the end, in order.
    pub fn extend(&mut self, other: ColoredStrings)
        ensures
            final(self).pieces() == old(self).pieces() + other.pieces(),
    {
        let mut rest = other.0;
        let ghost all = rest@;
        let ghost base = self.pieces();
        let n = rest.len();
        let mut m: usize = 0;
        while rest.len() > 0
            invariant
                m + rest@.len() == n,
                n == all.len(),
                rest@ == all.skip(m as int),
                self.pieces() == base + all.take(m as int).map_values(|c: ColoredString| c@),
            decreases rest@.len(),
        {
            let c = rest.remove(0);
            proof {
                assert(c == all[m as int]);
                assert(rest@ == all.skip(m + 1));
                assert(all.take(m + 1).map_values(|c: ColoredString| c@)
                    == all.take(m as int).map_values(|c: ColoredString| c@).push(c@));
            }
            self.push(c);
            m = m + 1;
        }
        proof {
            assert(all.take(n as int) == all);
        }
    }
}

} // verus!
