//! Keys as the prompts see them.
use vstd::prelude::*;

verus! {

/// A key that was pressed.
#[derive(Clone, Copy, Debug, PartialEq, Eq, Structural)]
pub enum KeyCode {
    Backspace,
    Enter,
    Left,
    Right,
    Up,
    Down,
    Home,
    End,
    PageUp,
    PageDown,
    Tab,
    BackTab,
    Delete,
    Insert,
    F(u8),
    Char(char),
    Null,
    Esc,
}

/// Whether the key aborts a prompt: `Esc`, or `Ctrl` with `c` or `d`.
pub open spec fn spec_is_abort(code: KeyCode, control: bool) -> bool {
    code == KeyCode::Esc || (control && (code == KeyCode::Char('c') || code == KeyCode::Char('d')))
}

/// Whether a key press (its code, and whether `Ctrl` was held) aborts a prompt.
pub fn is_abort(code: KeyCode, control: bool) -> (r: bool)
    ensures
        r == spec_is_abort(code, control),
{
    match code {
        KeyCode::Esc => true,
        KeyCode::Char(c) => control && (c == 'c' || c == 'd'),
        _ => false,
    }
}

/// The keys received since the last update: typed characters and key codes.
pub struct KeyEvent {
    pub chars: Vec<char>,
    pub codes: Vec<KeyCode>,
}

/// The characters of `texts`, one text after another.
pub open spec fn joined_chars(texts: Seq<Seq<char>>) -> Seq<char>
    decreases texts.len(),
{
    if texts.len() == 0 {
        Seq::empty()
    } else {
        joined_chars(texts.drop_last()) + texts.last()
    }
}

/// The codes of the keys that were pressed (not released), in order.
pub open spec fn pressed_codes(keys: Seq<(KeyCode, bool)>) -> Seq<KeyCode>
    decreases keys.len(),
{
    if keys.len() == 0 {
        Seq::empty()
    } else {
        let init = pressed_codes(keys.drop_last());
        if keys.last().1 { init.push(keys.last().0) } else { init }
    }
}

impl KeyEvent {
    /// The keys of an update: the characters of the received texts, and the
    /// codes of the key inputs that are presses (`true`), not releases.
    pub fn new(texts: &Vec<String>, keys: &Vec<(KeyCode, bool)>) -> (r: Self)
        ensures
            r.chars@ == joined_chars(texts@.map_values(|t: String| t@)),
            r.codes@ == pressed_codes(keys@),
    {
        let mut chars: Vec<char> = Vec::new();
        let n = texts.len();
        let mut i: usize = 0;
        while i < n
            invariant
                n == texts@.len(),
                i <= n,
                chars@ == joined_chars(texts@.take(i as int).map_values(|t: String| t@)),
            decreases n - i,
        {
            let t = texts[i].as_str();
            let m = t.unicode_len();
            let mut j: usize = 0;
            let ghost before = chars@;
            while j < m
                invariant
                    m == t@.len(),
                    j <= m,
                    chars@ == before + t@.take(j as int),
                decreases m - j,
            {
                chars.push(t.get_char(j));
                proof {
                    assert(t@.take(j + 1) == t@.take(j as int).push(t@[j as int]));
                }
                j = j + 1;
            }
            proof {
                assert(t@.take(m as int) == t@);
                let ts0 = texts@.take(i as int).map_values(|t: String| t@);
                let ts1 = texts@.take(i + 1).map_values(|t: String| t@);
                assert(ts1.drop_last() == ts0);
                assert(ts1.last() == t@);
            }
            i = i + 1;
        }
        proof {
            assert(texts@.take(n as int) == texts@);
        }
        let mut codes: Vec<KeyCode> = Vec::new();
        let k = keys.len();
        let mut i: usize = 0;
        while i < k
            invariant
                k == keys@.len(),
                i <= k,
                codes@ == pressed_codes(keys@.take(i as int)),
            decreases k - i,
        {
            proof {
                assert(keys@.take(i + 1).drop_last() == keys@.take(i as int));
                assert(keys@.take(i + 1).last() == keys@[i as int]);
            }
            let (code, pressed) = keys[i];
            if pressed {
                codes.push(code);
            }
            i = i + 1;
        }
        proof {
            assert(keys@.take(k as int) == keys@);
        }
        KeyEvent { chars, codes }
    }

    /// Whether nothing was received.
    pub fn is_empty(&self) -> (r: bool)
        ensures
            r == (self.chars@.len() == 0 && self.codes@.len() == 0),
    {
        self.chars.len() == 0 && self.codes.len() == 0
    }
}

impl KeyEvent {
    /// Whether `code` is among the key codes.
    pub fn has_code(&self, code: KeyCode) -> (r: bool)
        ensures
            r == self.codes@.contains(code),
    {
        let n = self.codes.len();
        let mut i: usize = 0;
        while i < n
            invariant
                n == self.codes@.len(),
                i <= n,
                forall|j: int| 0 <= j < i ==> self.codes@[j] != code,
            decreases n - i,
        {
            if self.codes[i] == code {
                return true;
            }
            i = i + 1;
        }
        false
    }
}

/// Whether `Esc` is among the key codes.
pub fn is_abort_key(key: &KeyEvent) -> (r: bool)
    ensures
        r == key.codes@.contains(KeyCode::Esc),
{
    key.has_code(KeyCode::Esc)
}

} // verus!
