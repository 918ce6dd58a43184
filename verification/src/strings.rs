//! Character-level editing helpers on `String`, stated over the string's
//! view as a sequence of characters.
use vstd::prelude::*;

verus! {

/// `String::push`: the string gains `c` at its end.
#[verifier::external_body]
pub(crate) fn push_char(s: &mut String, c: char)
    ensures
        final(s)@ == old(s)@.push(c),
{
    s.push(c);
}

/// The number of characters of `s`.
pub fn char_count(s: &str) -> (n: usize)
    ensures
        n == s@.len(),
{
    s.unicode_len()
}

/// A new string holding the characters of `s`.
pub fn owned(s: &str) -> (r: String)
    ensures
        r@ == s@,
{
    s.to_owned()
}

/// Appends the characters of `t` to `s`.
pub fn push_str(s: &mut String, t: &str)
    ensures
        final(s)@ == old(s)@ + t@,
{
    s.append(t);
}

/// `s` with `ch` placed before its `k`-th character.
pub fn insert_char(s: &String, k: usize, ch: char) -> (r: String)
    requires
        k <= s@.len(),
    ensures
        r@ == s@.take(k as int) + seq![ch] + s@.skip(k as int),
{
    let n = char_count(s.as_str());
    let mut out = String::new();
    let mut i: usize = 0;
    while i < n
        invariant
            n == s@.len(),
            i <= n,
            k <= n,
            out@ == (if i <= k {
                s@.take(i as int)
            } else {
                s@.take(k as int) + seq![ch] + s@.subrange(k as int, i as int)
            }),
        decreases n - i,
    {
        let c = s.as_str().get_char(i);
        if i == k {
            push_char(&mut out, ch);
        }
        push_char(&mut out, c);
        proof {
            assert(s@.take(i + 1) == s@.take(i as int).push(c));
            if i > k {
                assert(s@.subrange(k as int, i + 1) == s@.subrange(k as int, i as int).push(c));
            } else if i == k {
                assert(s@.subrange(k as int, i + 1) == seq![c]);
            }
        }
        i = i + 1;
    }
    if i == k {
        push_char(&mut out, ch);
    }
    proof {
        assert(s@.take(n as int) == s@);
        assert(s@.subrange(k as int, n as int) == s@.skip(k as int));
        assert(s@.skip(n as int) == Seq::<char>::empty());
    }
    out
}

/// `s` without its `k`-th character.
pub fn remove_char(s: &String, k: usize) -> (r: String)
    requires
        k < s@.len(),
    ensures
        r@ == s@.take(k as int) + s@.skip(k + 1),
{
    let n = char_count(s.as_str());
    let mut out = String::new();
    let mut i: usize = 0;
    while i < n
        invariant
            n == s@.len(),
            i <= n,
            k < n,
            out@ == (if i <= k {
                s@.take(i as int)
            } else {
                s@.take(k as int) + s@.subrange(k + 1, i as int)
            }),
        decreases n - i,
    {
        let c = s.as_str().get_char(i);
        if i != k {
            push_char(&mut out, c);
        }
        proof {
            assert(s@.take(i + 1) == s@.take(i as int).push(c));
            if i > k {
                assert(s@.subrange(k + 1, i + 1) == s@.subrange(k + 1, i as int).push(c));
            } else if i == k {
                assert(s@.subrange(k + 1, i + 1) == Seq::<char>::empty());
            }
        }
        i = i + 1;
    }
    proof {
        assert(s@.subrange(k + 1, n as int) == s@.skip(k + 1));
    }
    out
}

/// `n` copies of the characters of `s`, one after another.
pub open spec fn repeat_seq(s: Seq<char>, n: nat) -> Seq<char>
    decreases n,
{
    if n == 0 {
        Seq::empty()
    } else {
        repeat_seq(s, (n - 1) as nat) + s
    }
}

/// `str::repeat`: `s` written `n` times.
pub fn repeat(s: &str, n: usize) -> (r: String)
    ensures
        r@ == repeat_seq(s@, n as nat),
{
    let mut out = String::new();
    let mut i: usize = 0;
    while i < n
        invariant
            i <= n,
            out@ == repeat_seq(s@, i as nat),
        decreases n - i,
    {
        push_str(&mut out, s);
        i = i + 1;
    }
    out
}

/// The number of `'\n'` characters in `s`.
pub open spec fn newlines_in(s: Seq<char>) -> nat
    decreases s.len(),
{
    if s.len() == 0 {
        0
    } else {
        newlines_in(s.drop_last()) + (if s.last() == '\n' { 1nat } else { 0nat })
    }
}

} // verus!

verus! {

/// Whether `c` occurs in `s`.
pub fn contains_char(s: &str, c: char) -> (r: bool)
    ensures
        r == s@.contains(c),
{
    let n = char_count(s);
    let mut i: usize = 0;
    while i < n
        invariant
            n == s@.len(),
            i <= n,
            forall|j: int| 0 <= j < i ==> s@[j] != c,
        decreases n - i,
    {
        if s.get_char(i) == c {
            return true;
        }
        i = i + 1;
    }
    false
}

/// `char::is_ascii_digit`: whether `c` is one of `'0'` to `'9'`.
pub fn is_ascii_digit(c: char) -> (r: bool)
    ensures
        r == ('0' <= c && c <= '9'),
{
    '0' <= c && c <= '9'
}

} // verus!

verus! {

/// The characters of `s` from position `from` up to (not including) `to`.
pub fn substring(s: &str, from: usize, to: usize) -> (r: String)
    requires
        from <= to <= s@.len(),
    ensures
        r@ == s@.subrange(from as int, to as int),
{
    s.substring_char(from, to).to_owned()
}

} // verus!

verus! {

/// The decimal digit for `d` (below ten).
pub open spec fn digit_char(d: nat) -> char {
    if d == 0 { '0' } else if d == 1 { '1' } else if d == 2 { '2' } else if d == 3 { '3' } else if d == 4 {
        '4'
    } else if d == 5 { '5' } else if d == 6 { '6' } else if d == 7 { '7' } else if d == 8 { '8' } else { '9' }
}

/// The decimal writing of `n`, as `Display` shows an integer.
pub open spec fn spec_decimal(n: nat) -> Seq<char>
    decreases n,
{
    if n < 10 {
        seq![digit_char(n)]
    } else {
        spec_decimal(n / 10).push(digit_char(n % 10))
    }
}

/// The decimal writing of `n`.
pub fn decimal(n: usize) -> (r: String)
    ensures
        r@ == spec_decimal(n as nat),
    decreases n,
{
    let d = n % 10;
    let c = if d == 0 { '0' } else if d == 1 { '1' } else if d == 2 { '2' } else if d == 3 { '3' } else if d == 4 {
        '4'
    } else if d == 5 { '5' } else if d == 6 { '6' } else if d == 7 { '7' } else if d == 8 { '8' } else { '9' };
    if n < 10 {
        let mut s = String::new();
        push_char(&mut s, c);
        s
    } else {
        let mut s = decimal(n / 10);
        push_char(&mut s, c);
        s
    }
}

} // verus!

verus! {

/// Whether `c` is a control character (general category `Cc`).
pub open spec fn spec_is_control(c: char) -> bool {
    c <= '\u{1f}' || ('\u{7f}' <= c && c <= '\u{9f}')
}

/// `char::is_control`: whether `c` is a control character.
pub fn is_control(c: char) -> (r: bool)
    ensures
        r == spec_is_control(c),
{
    c <= '\u{1f}' || ('\u{7f}' <= c && c <= '\u{9f}')
}

} // verus!
