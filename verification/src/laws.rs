//! Properties that hold across the operations of the prompts.
use vstd::prelude::*;

use crate::key::KeyCode;
use crate::prompts::password::{password_error_marks, password_marks, password_placeholder_marks, Password};
use crate::style::Style;
use crate::prompts::confirm::{confirm_run, confirm_step};
use crate::prompts::toggle::toggle_run;
use crate::strings::spec_is_control;
use crate::node::{all_pieces, ends_line, group_lines, run_pieces, split_inclusive, Run};
use crate::prompts::multi_select::{count_active, MultiSelect, count_in_range, multi_run, spec_toggle, reaches_min, under_limit, with_active};
use crate::prompts::number::number_edit;
use crate::utils::num_like::NumLike;
use crate::prompts::select::{select_run, spec_count_pages, spec_next_item, spec_prev_item, SelectInput, SelectOption};
use crate::prompts::text::{
    is_line_code, line_apply_codes, line_backspace, line_edit, line_insert, line_move, line_type_chars, Direction,
};
use crate::text_style_adapter::{spec_cursorify, spec_write, with_background, TextStyle};
use crate::strings::repeat_seq;
use crate::utils::renderer::{next_draw_time, printed, Color, DrawTime};

verus! {

/// A line whose cursor stands within it.
pub open spec fn line_wf(v: (Seq<char>, nat)) -> bool {
    v.1 <= v.0.len()
}

/// Typing a character and then pressing `Backspace` gives back the line and the cursor.
pub proof fn law_backspace_undoes_insert(v: (Seq<char>, nat), c: char)
    requires
        line_wf(v),
    ensures
        line_backspace(line_insert(v, c)) == v,
{
    let w = line_insert(v, c);
    assert(w.0.take(w.1 - 1) + w.0.skip(w.1 as int) =~= v.0);
}

/// Every key other than `Enter` keeps the cursor within the line.
pub proof fn law_edit_keeps_cursor_in_line(v: (Seq<char>, nat), key: KeyCode)
    requires
        line_wf(v),
    ensures
        line_wf(line_edit(v, key)),
{
}

/// Moving left and then right gives back the cursor, unless it was at the start.
pub proof fn law_left_then_right(v: (Seq<char>, nat))
    requires
        0 < v.1 <= v.0.len(),
    ensures
        line_move(line_move(v, Direction::Left), Direction::Right) == v,
{
}

/// Moving right and then left gives back the cursor, unless it was at the end.
pub proof fn law_right_then_left(v: (Seq<char>, nat))
    requires
        v.1 < v.0.len(),
    ensures
        line_move(line_move(v, Direction::Right), Direction::Left) == v,
{
}

/// A number prompt for an unsigned integer type only ever holds digits.
pub proof fn law_unsigned_input_holds_digits(v: (Seq<char>, nat), key: KeyCode)
    requires
        line_wf(v),
        forall|i: int| 0 <= i < v.0.len() ==> '0' <= #[trigger] v.0[i] <= '9',
    ensures
        forall|i: int| 0 <= i < number_edit(v, key, false, false).0.len()
            ==> '0' <= #[trigger] number_edit(v, key, false, false).0[i] <= '9',
{
    let w = number_edit(v, key, false, false);
    assert forall|i: int| 0 <= i < w.0.len() implies '0' <= #[trigger] w.0[i] <= '9' by {
        match key {
            KeyCode::Char(c) => {
                if '0' <= c && c <= '9' {
                    if i < v.1 {
                        assert(w.0[i] == v.0[i]);
                    } else if i > v.1 {
                        assert(w.0[i] == v.0[i - 1]);
                    }
                }
            },
            KeyCode::Backspace => {
                if v.0.len() > 0 && v.1 > 0 {
                    if i < v.1 - 1 {
                        assert(w.0[i] == v.0[i]);
                    } else {
                        assert(w.0[i] == v.0[i + 1]);
                    }
                }
            },
            KeyCode::Delete => {
                if v.0.len() > 0 && v.1 < v.0.len() {
                    if i < v.1 {
                        assert(w.0[i] == v.0[i]);
                    } else {
                        assert(w.0[i] == v.0[i + 1]);
                    }
                }
            },
            _ => {},
        }
    }
}

/// In loop mode, focusing the next item and then the previous one comes back.
pub proof fn law_loop_next_then_prev(focused: nat, total: nat)
    requires
        focused < total,
    ensures
        spec_prev_item(spec_next_item(focused, total, true), total, true) == focused,
{
}

/// In loop mode, focusing the previous item and then the next one comes back.
pub proof fn law_loop_prev_then_next(focused: nat, total: nat)
    requires
        focused < total,
    ensures
        spec_next_item(spec_prev_item(focused, total, true), total, true) == focused,
{
}

/// Without loop mode the focus stops at both ends of the list.
pub proof fn law_no_loop_stops_at_ends(total: nat)
    requires
        total > 0,
    ensures
        spec_prev_item(0, total, false) == 0,
        spec_next_item((total - 1) as nat, total, false) == total - 1,
{
}

/// The focused item lies on one of the pages, and the pages hold all the items.
pub proof fn law_focused_page_exists(focused: nat, total: nat, per_page: nat)
    requires
        focused < total,
        per_page > 0,
    ensures
        focused / per_page < spec_count_pages(total, per_page),
        spec_count_pages(total, per_page) * per_page >= total,
{
    let q = total / per_page;
    let r = total % per_page;
    assert(q * per_page + r == total) by (nonlinear_arith)
        requires per_page > 0, q == total / per_page, r == total % per_page;
    assert(focused / per_page <= q) by (nonlinear_arith)
        requires per_page > 0, q == total / per_page, focused < total;
    if r == 0 {
        assert(focused / per_page < q) by (nonlinear_arith)
            requires per_page > 0, q * per_page == total, focused < total;
    }
    assert((q + 1) * per_page == q * per_page + per_page) by (nonlinear_arith);
}

/// Setting the `active` flag of option `f` changes the count of active options by the difference.
pub proof fn lemma_count_active_update<'a, T>(options: Seq<SelectOption<'a, T>>, f: int, b: bool)
    requires
        0 <= f < options.len(),
    ensures
        count_active(options.update(f, with_active(options[f], b)))
            == count_active(options) - (if options[f].active { 1int } else { 0int }) + (if b { 1int } else { 0int }),
    decreases options.len(),
{
    let u = options.update(f, with_active(options[f], b));
    if f == options.len() - 1 {
        assert(u.drop_last() == options.drop_last());
    } else {
        lemma_count_active_update(options.drop_last(), f, b);
        assert(u.drop_last() == options.drop_last().update(f, with_active(options[f], b)));
    }
}

/// The number of active options is at most the number of options, and at
/// least one when some option is active.
pub proof fn lemma_count_active_bounds<'a, T>(options: Seq<SelectOption<'a, T>>, f: int)
    ensures
        count_active(options) <= options.len(),
        0 <= f < options.len() && options[f].active ==> count_active(options) >= 1,
        0 <= f < options.len() && !options[f].active ==> count_active(options) < options.len(),
    decreases options.len(),
{
    if options.len() > 0 {
        lemma_count_active_bounds(options.drop_last(), f);
        if 0 <= f < options.len() - 1 {
            assert(options.drop_last()[f] == options[f]);
        }
    }
}

/// Toggling the focused option keeps the count of selections equal to the
/// number of active options, and within the maximum.
pub proof fn law_toggle_keeps_count<'a, T>(
    options: Seq<SelectOption<'a, T>>,
    focused: int,
    count: nat,
    max: Option<usize>,
)
    requires
        0 <= focused < options.len(),
        count == count_active(options),
    ensures
        spec_toggle(options, focused, count, max).1 == count_active(spec_toggle(options, focused, count, max).0),
        max matches Some(m) ==> (count <= m ==> spec_toggle(options, focused, count, max).1 <= m),
        spec_toggle(options, focused, count, max).0.len() == options.len(),
{
    let o = options[focused];
    if !o.disabled {
        if o.active {
            lemma_count_active_update(options, focused, false);
        } else if under_limit(count, max) {
            lemma_count_active_update(options, focused, true);
        }
    }
}

/// A multi-select prompt whose count of selections is the number of its
/// active options can always toggle its focused option: no counter runs over.
pub proof fn law_counted_prompt_can_toggle<'a, T>(p: &MultiSelect<'a, T>)
    requires
        p.input.focused < p.options@.len(),
        p.selected_count == count_active(p.options@),
    ensures
        p.can_toggle(),
{
    lemma_count_active_bounds(p.options@, p.input.focused as int);
    vstd::std_specs::vec::axiom_spec_len(&p.options);
}

/// Toggling the focused option changes the count of selections and the
/// number of active options alike: what one exceeds the other by stays.
pub proof fn lemma_toggle_keeps_surplus<'a, T>(
    options: Seq<SelectOption<'a, T>>,
    focused: int,
    count: nat,
    max: Option<usize>,
)
    requires
        0 <= focused < options.len(),
        count >= count_active(options),
    ensures
        spec_toggle(options, focused, count, max).1 - count_active(spec_toggle(options, focused, count, max).0)
            == count - count_active(options),
        spec_toggle(options, focused, count, max).0.len() == options.len(),
        spec_toggle(options, focused, count, max).1 <= count + 1,
{
    let o = options[focused];
    lemma_count_active_bounds(options, focused);
    if !o.disabled {
        if o.active {
            lemma_count_active_update(options, focused, false);
        } else if under_limit(count, max) {
            lemma_count_active_update(options, focused, true);
        }
    }
}

/// Toggling an option twice gives back the options when the first toggle
/// changed it.
pub proof fn law_toggle_twice<'a, T>(
    options: Seq<SelectOption<'a, T>>,
    focused: int,
    count: nat,
    max: Option<usize>,
)
    requires
        0 <= focused < options.len(),
        !options[focused].disabled,
        options[focused].active || under_limit(count, max),
        options[focused].active ==> count > 0,
        max matches Some(m) ==> count <= m,
    ensures
        ({
            let once = spec_toggle(options, focused, count, max);
            spec_toggle(once.0, focused, once.1, max) == (options, count)
        }),
{
    let once = spec_toggle(options, focused, count, max);
    let o = options[focused];
    if o.active {
        assert(under_limit(once.1, max));
        assert(once.0.update(focused, with_active(once.0[focused], true)) =~= options);
    } else {
        assert(once.0.update(focused, with_active(once.0[focused], false)) =~= options);
    }
}

/// The text of a sequence of runs.
pub open spec fn runs_text(v: Seq<(Seq<char>, Option<TextStyle>)>) -> Seq<char>
    decreases v.len(),
{
    if v.len() == 0 {
        Seq::empty()
    } else {
        runs_text(v.drop_last()) + v.last().0
    }
}

/// Writing text to a styled writer adds exactly that text to what it holds.
pub proof fn law_write_appends_text(v: Seq<(Seq<char>, Option<TextStyle>)>, s: Seq<char>, style: Option<TextStyle>)
    ensures
        runs_text(spec_write(v, s, style)) == runs_text(v) + s,
{
    let w = spec_write(v, s, style);
    if v.len() > 0 && v.last().1 == style {
        assert(w.drop_last() == v.drop_last());
        assert(runs_text(v) == runs_text(v.drop_last()) + v.last().0);
    } else {
        assert(w.drop_last() == v);
    }
}

/// The pieces that show the cursor hold the text of the run, with a space
/// added when the cursor is past its end.
pub proof fn law_cursorify_keeps_text(s: Seq<char>, style: Option<TextStyle>, i: nat, color: Color)
    requires
        i <= s.len(),
    ensures
        runs_text(spec_cursorify(s, style, i, color)) == if i < s.len() { s } else { s.push(' ') },
        spec_cursorify(s, style, i, color)[1].1 == with_background(style, color),
{
    let p = spec_cursorify(s, style, i, color);
    let under = if i < s.len() { seq![s[i as int]] } else { seq![' '] };
    let e = Seq::<(Seq<char>, Option<TextStyle>)>::empty();
    assert(runs_text(e) == Seq::<char>::empty());
    assert(e.push(p[0]).drop_last() == e);
    assert(runs_text(e.push(p[0])) == s.take(i as int)) by {
        assert(Seq::<char>::empty() + s.take(i as int) =~= s.take(i as int));
    }
    assert(e.push(p[0]).push(p[1]).drop_last() == e.push(p[0]));
    assert(runs_text(e.push(p[0]).push(p[1])) == s.take(i as int) + under);
    if i + 1 < s.len() {
        assert(p =~= e.push(p[0]).push(p[1]).push(p[2]));
        assert(p.drop_last() == e.push(p[0]).push(p[1]));
        assert(s.take(i as int) + under + s.skip(i + 1int) =~= s);
    } else {
        assert(p =~= e.push(p[0]).push(p[1]));
        if i < s.len() {
            assert(s.take(i as int) + under =~= s);
        } else {
            assert(s.take(i as int) + under =~= s.push(' '));
        }
    }
}

/// Draw times only go forward: `First`, then `Update`, then `Last`, which stays.
pub proof fn law_draw_time_forward(t: DrawTime)
    ensures
        next_draw_time(DrawTime::Last) == DrawTime::Last,
        next_draw_time(next_draw_time(t)) == DrawTime::Last,
        t == DrawTime::First ==> next_draw_time(t) == DrawTime::Update,
{
}

/// The pieces of the lines, one line after another.
pub open spec fn flatten_lines(ls: Seq<Seq<Run>>) -> Seq<Run>
    decreases ls.len(),
{
    if ls.len() == 0 {
        Seq::empty()
    } else {
        flatten_lines(ls.drop_last()) + ls.last()
    }
}

/// The text of two lists of runs, one after the other, is their texts joined.
pub proof fn lemma_runs_text_concat(a: Seq<Run>, b: Seq<Run>)
    ensures
        runs_text(a + b) == runs_text(a) + runs_text(b),
    decreases b.len(),
{
    if b.len() == 0 {
        assert(a + b =~= a);
        assert(runs_text(a) + Seq::<char>::empty() =~= runs_text(a));
    } else {
        lemma_runs_text_concat(a, b.drop_last());
        assert((a + b).drop_last() =~= a + b.drop_last());
        assert(runs_text(a) + runs_text(b.drop_last()) + b.last().0 =~= runs_text(a) + (runs_text(b.drop_last()) + b.last().0));
    }
}

/// Cutting a text after its newlines keeps the text.
pub proof fn lemma_split_inclusive_text(s: Seq<char>, style: Option<TextStyle>)
    ensures
        runs_text(split_inclusive(s).map_values(|p: Seq<char>| (p, style))) == s,
    decreases s.len(),
{
    if s.len() > 0 {
        let sp = split_inclusive(s.drop_last());
        let c = s.last();
        lemma_split_inclusive_text(s.drop_last(), style);
        let m = sp.map_values(|p: Seq<char>| (p, style));
        if sp.len() > 0 && sp.last().last() != '\n' {
            let m1 = split_inclusive(s).map_values(|p: Seq<char>| (p, style));
            assert(m1 =~= m.update(m.len() - 1, (sp.last().push(c), style)));
            assert(m1.drop_last() =~= m.drop_last());
            assert(runs_text(m) == runs_text(m.drop_last()) + sp.last());
            assert(runs_text(m.drop_last()) + sp.last().push(c) =~= (runs_text(m.drop_last()) + sp.last()).push(c));
        } else {
            let m1 = split_inclusive(s).map_values(|p: Seq<char>| (p, style));
            assert(m1 =~= m.push((seq![c], style)));
            assert(m1.drop_last() =~= m);
        }
        assert(s.drop_last().push(c) =~= s);
    }
}

/// Cutting runs in pieces keeps their text.
pub proof fn lemma_all_pieces_text(rs: Seq<Run>)
    ensures
        runs_text(all_pieces(rs)) == runs_text(rs),
    decreases rs.len(),
{
    if rs.len() > 0 {
        let r = rs.last();
        lemma_all_pieces_text(rs.drop_last());
        lemma_runs_text_concat(all_pieces(rs.drop_last()), run_pieces(r));
        if r.0.len() == 0 {
            assert(seq![r].drop_last() =~= Seq::<Run>::empty());
            assert(seq![r].last() == r);
            assert(runs_text(Seq::<Run>::empty()) == Seq::<char>::empty());
            assert(runs_text(seq![r]) == runs_text(seq![r].drop_last()) + r.0);
            assert(Seq::<char>::empty() + r.0 =~= r.0);
            assert(runs_text(seq![r]) =~= r.0);
        } else {
            lemma_split_inclusive_text(r.0, r.1);
        }
    }
}

/// Laying pieces out in lines keeps them all, in order.
pub proof fn law_lines_keep_pieces(ps: Seq<Run>)
    ensures
        flatten_lines(group_lines(ps)) == ps,
    decreases ps.len(),
{
    if ps.len() > 0 {
        let g = group_lines(ps.drop_last());
        let p = ps.last();
        law_lines_keep_pieces(ps.drop_last());
        if g.len() == 0 || ends_line(g.last().last()) {
            assert(g.push(seq![p]).drop_last() =~= g);
            assert(flatten_lines(g) + seq![p] =~= ps);
        } else {
            let g1 = g.update(g.len() - 1, g.last().push(p));
            assert(g1.drop_last() =~= g.drop_last());
            assert(flatten_lines(g) == flatten_lines(g.drop_last()) + g.last());
            assert(flatten_lines(g.drop_last()) + g.last().push(p) =~= (flatten_lines(g.drop_last()) + g.last()).push(p));
            assert(ps.drop_last().push(p) =~= ps);
        }
    }
}

/// The lines of a list of runs hold the text of the runs, in order.
pub proof fn law_lines_keep_text(rs: Seq<Run>)
    ensures
        runs_text(flatten_lines(group_lines(all_pieces(rs)))) == runs_text(rs),
{
    law_lines_keep_pieces(all_pieces(rs));
    lemma_all_pieces_text(rs);
}

/// Two batches of key codes handled one after the other act as one batch
/// holding both: the answer is the same, and it is submitted if either submitted.
pub proof fn law_confirm_batches_compose(active: bool, c1: Seq<KeyCode>, c2: Seq<KeyCode>)
    ensures
        ({
            let first = confirm_run(active, c1);
            let second = confirm_run(first.0, c2);
            confirm_run(active, c1 + c2) == (second.0, first.1 || second.1)
        }),
    decreases c2.len(),
{
    if c2.len() == 0 {
        assert(c1 + c2 =~= c1);
    } else {
        law_confirm_batches_compose(active, c1, c2.drop_last());
        assert((c1 + c2).drop_last() =~= c1 + c2.drop_last());
    }
}

/// Two batches of key codes handled one after the other act as one batch
/// holding both, for a toggle.
pub proof fn law_toggle_batches_compose(active: bool, c1: Seq<KeyCode>, c2: Seq<KeyCode>)
    ensures
        ({
            let first = toggle_run(active, c1);
            let second = toggle_run(first.0, c2);
            toggle_run(active, c1 + c2) == (second.0, first.1 || second.1)
        }),
    decreases c2.len(),
{
    if c2.len() == 0 {
        assert(c1 + c2 =~= c1);
    } else {
        law_toggle_batches_compose(active, c1, c2.drop_last());
        assert((c1 + c2).drop_last() =~= c1 + c2.drop_last());
    }
}

/// Editing key codes of two batches, one after the other, act as one batch holding both.
pub proof fn law_line_codes_compose(v: (Seq<char>, nat), c1: Seq<KeyCode>, c2: Seq<KeyCode>)
    ensures
        line_apply_codes(v, c1 + c2) == line_apply_codes(line_apply_codes(v, c1), c2),
    decreases c2.len(),
{
    if c2.len() == 0 {
        assert(c1 + c2 =~= c1);
    } else {
        law_line_codes_compose(v, c1, c2.drop_last());
        assert((c1 + c2).drop_last() =~= c1 + c2.drop_last());
    }
}

/// Characters typed in two batches, one after the other, act as one batch holding both.
pub proof fn law_line_chars_compose(v: (Seq<char>, nat), s1: Seq<char>, s2: Seq<char>)
    ensures
        line_type_chars(v, s1 + s2) == line_type_chars(line_type_chars(v, s1), s2),
    decreases s2.len(),
{
    if s2.len() == 0 {
        assert(s1 + s2 =~= s1);
    } else {
        law_line_chars_compose(v, s1, s2.drop_last());
        assert((s1 + s2).drop_last() =~= s1 + s2.drop_last());
    }
}

/// A printable character typed in a batch acts as the key of that character.
pub proof fn law_typed_char_is_key(v: (Seq<char>, nat), c: char)
    requires
        !spec_is_control(c),
    ensures
        line_type_chars(v, seq![c]) == line_edit(v, KeyCode::Char(c)),
{
    assert(seq![c].drop_last() =~= Seq::<char>::empty());
    assert(seq![c].last() == c);
    assert(line_type_chars(v, Seq::<char>::empty()) == v);
}

/// An editing key code in a batch acts as that key.
pub proof fn law_batch_code_is_key(v: (Seq<char>, nat), k: KeyCode)
    requires
        is_line_code(k),
    ensures
        line_apply_codes(v, seq![k]) == line_edit(v, k),
{
    assert(seq![k].drop_last() =~= Seq::<KeyCode>::empty());
    assert(seq![k].last() == k);
    assert(line_apply_codes(v, Seq::<KeyCode>::empty()) == v);
}

/// The options with those at `indices` (within the list) made active, one index after another.
pub open spec fn mark_active<'a, T>(options: Seq<SelectOption<'a, T>>, indices: Seq<usize>) -> Seq<SelectOption<'a, T>>
    decreases indices.len(),
{
    if indices.len() == 0 {
        options
    } else {
        let m = mark_active(options, indices.drop_last());
        let i = indices.last();
        if i < m.len() { m.update(i as int, with_active(m[i as int], true)) } else { m }
    }
}

/// Lists whose options are active at the same places have as many active options.
pub proof fn lemma_count_active_same_flags<'a, T>(a: Seq<SelectOption<'a, T>>, b: Seq<SelectOption<'a, T>>)
    requires
        a.len() == b.len(),
        forall|j: int| 0 <= j < a.len() ==> a[j].active == b[j].active,
    ensures
        count_active(a) == count_active(b),
    decreases a.len(),
{
    if a.len() > 0 {
        lemma_count_active_same_flags(a.drop_last(), b.drop_last());
        assert(a.last().active == b[b.len() - 1].active);
    }
}

/// Marking options active keeps the list's length, and an option is then
/// active when it was, or when its index is among `indices`.
pub proof fn lemma_mark_active_flags<'a, T>(options: Seq<SelectOption<'a, T>>, indices: Seq<usize>)
    requires
        options.len() <= usize::MAX,
    ensures
        mark_active(options, indices).len() == options.len(),
        forall|j: int| 0 <= j < options.len() ==>
            (#[trigger] mark_active(options, indices)[j]).active == (options[j].active || indices.contains(j as usize)),
    decreases indices.len(),
{
    if indices.len() > 0 {
        let init = indices.drop_last();
        let i = indices.last();
        lemma_mark_active_flags(options, init);
        let m = mark_active(options, init);
        assert(mark_active(options, indices) == if i < m.len() { m.update(i as int, with_active(m[i as int], true)) } else { m });
        assert forall|j: int| 0 <= j < options.len() implies
            (#[trigger] mark_active(options, indices)[j]).active == (options[j].active || indices.contains(j as usize)) by {
            if indices.contains(j as usize) && !init.contains(j as usize) {
                let w = choose|w: int| 0 <= w < indices.len() && indices[w] == j as usize;
                if w < indices.len() - 1 {
                    assert(init[w] == j as usize);
                }
            }
            if init.contains(j as usize) {
                let w = choose|w: int| 0 <= w < init.len() && init[w] == j as usize;
                assert(indices[w] == j as usize);
            }
            if j == i as int {
                assert(indices[indices.len() - 1] == j as usize);
            }
            assert(m[j].active == (options[j].active || init.contains(j as usize)));
        }
    }
}

/// Marking active options that are not active yet, each once, adds one
/// active option per index within the list.
pub proof fn lemma_mark_active_count<'a, T>(options: Seq<SelectOption<'a, T>>, indices: Seq<usize>)
    requires
        options.len() <= usize::MAX,
        indices.no_duplicates(),
        forall|k: int| 0 <= k < indices.len() && indices[k] < options.len() ==> !options[indices[k] as int].active,
    ensures
        count_active(mark_active(options, indices)) == count_active(options) + count_in_range(indices, options.len()),
    decreases indices.len(),
{
    if indices.len() > 0 {
        let init = indices.drop_last();
        let i = indices.last();
        assert forall|k: int| 0 <= k < init.len() && init[k] < options.len() implies !options[init[k] as int].active by {
            assert(init[k] == indices[k]);
        }
        lemma_mark_active_count(options, init);
        let m = mark_active(options, init);
        lemma_mark_active_flags(options, init);
        if i < options.len() {
            assert(!init.contains(i)) by {
                if init.contains(i) {
                    let w = choose|w: int| 0 <= w < init.len() && init[w] == i;
                    assert(indices[w] == indices[indices.len() - 1]);
                }
            }
            assert(!options[i as int].active) by {
                assert(indices[indices.len() - 1] == i);
            }
            assert(!m[i as int].active);
            lemma_count_active_update(m, i as int, true);
        }
    }
}

/// Selecting options that are not active yet, each index once, keeps the
/// count of selections equal to the number of active options.
pub proof fn law_selected_keeps_count<'a, T>(
    before: Seq<SelectOption<'a, T>>,
    after: Seq<SelectOption<'a, T>>,
    indices: Seq<usize>,
    count: nat,
)
    requires
        before.len() <= usize::MAX,
        count == count_active(before),
        indices.no_duplicates(),
        forall|k: int| 0 <= k < indices.len() && indices[k] < before.len() ==> !before[indices[k] as int].active,
        after.len() == before.len(),
        forall|j: int| 0 <= j < after.len() ==> after[j].active == (before[j].active || indices.contains(j as usize)),
    ensures
        count + count_in_range(indices, before.len()) == count_active(after),
{
    lemma_mark_active_flags(before, indices);
    lemma_mark_active_count(before, indices);
    let m = mark_active(before, indices);
    assert forall|j: int| 0 <= j < after.len() implies after[j].active == m[j].active by {
        assert(m[j].active == (before[j].active || indices.contains(j as usize)));
    }
    lemma_count_active_same_flags(after, m);
}

/// Two batches of key codes handled one after the other act as one batch
/// holding both, for a select prompt.
pub proof fn law_select_batches_compose<'a, T>(
    input: SelectInput,
    options: Seq<SelectOption<'a, T>>,
    c1: Seq<KeyCode>,
    c2: Seq<KeyCode>,
)
    ensures
        ({
            let first = select_run(input, options, c1);
            let second = select_run(first.0, options, c2);
            select_run(input, options, c1 + c2) == (second.0, first.1 || second.1)
        }),
    decreases c2.len(),
{
    if c2.len() == 0 {
        assert(c1 + c2 =~= c1);
    } else {
        law_select_batches_compose(input, options, c1, c2.drop_last());
        assert((c1 + c2).drop_last() =~= c1 + c2.drop_last());
    }
}

/// Two batches of key codes handled one after the other act as one batch
/// holding both, for a multi-select prompt.
pub proof fn law_multi_select_batches_compose<'a, T>(
    options: Seq<SelectOption<'a, T>>,
    count: nat,
    input: SelectInput,
    min: Option<usize>,
    max: Option<usize>,
    c1: Seq<KeyCode>,
    c2: Seq<KeyCode>,
)
    ensures
        ({
            let first = multi_run(options, count, input, min, max, c1);
            let second = multi_run(first.0, first.1, first.2, min, max, c2);
            multi_run(options, count, input, min, max, c1 + c2) == (second.0, second.1, second.2, first.3 || second.3)
        }),
    decreases c2.len(),
{
    if c2.len() == 0 {
        assert(c1 + c2 =~= c1);
    } else {
        law_multi_select_batches_compose(options, count, input, min, max, c1, c2.drop_last());
        assert((c1 + c2).drop_last() =~= c1 + c2.drop_last());
    }
}

/// What a password prompt draws depends on the typed password only through
/// its length: no character of it reaches the output.
pub proof fn law_password_draw_hides_value<'a, V, S: Style>(p1: Password<'a, V>, p2: Password<'a, V>, style: &S, t: DrawTime)
    requires
        p1.message == p2.message,
        p1.placeholder == p2.placeholder,
        p1.hidden == p2.hidden,
        p1.validator_result == p2.validator_result,
        p1.input.col == p2.input.col,
        p1.input.value@.len() == p2.input.value@.len(),
    ensures
        password_marks(&p1, style, t) == password_marks(&p2, style, t),
{
    assert(password_placeholder_marks(&p1, style) == password_placeholder_marks(&p2, style));
    assert(password_error_marks(&p1, style) == password_error_marks(&p2, style));
}

/// The text a password prompt draws depends on the typed password only
/// through its length, and not at all when it is hidden (beyond whether it
/// is empty): no character of it reaches the output, wherever the cursor stands.
pub proof fn law_password_text_hides_value<'a, V, S: Style>(p1: Password<'a, V>, p2: Password<'a, V>, style: &S, t: DrawTime)
    requires
        p1.message == p2.message,
        p1.placeholder == p2.placeholder,
        p1.hidden == p2.hidden,
        p1.validator_result == p2.validator_result,
        p1.input.value@.len() == p2.input.value@.len()
            || (p1.hidden && (p1.input.value@.len() == 0) == (p2.input.value@.len() == 0)),
    ensures
        printed(password_marks(&p1, style, t)) == printed(password_marks(&p2, style, t)),
{
    let m1 = password_marks(&p1, style, t);
    let m2 = password_marks(&p2, style, t);
    assert(password_placeholder_marks(&p1, style) == password_placeholder_marks(&p2, style));
    assert(password_error_marks(&p1, style) == password_error_marks(&p2, style));
    if !p1.hidden {
        assert(repeat_seq("*"@, p1.input.value@.len()) == repeat_seq("*"@, p2.input.value@.len()));
    }
    assert(m1.drop_last() =~= m2.drop_last());
    assert(printed(m1) == printed(m1.drop_last()) + Seq::<char>::empty());
    assert(printed(m2) == printed(m2.drop_last()) + Seq::<char>::empty());
    assert(printed(m1.drop_last()) + Seq::<char>::empty() =~= printed(m1.drop_last()));
    assert(printed(m2.drop_last()) + Seq::<char>::empty() =~= printed(m2.drop_last()));
}

/// The options and the count after toggling the options at `focuses`, one after another.
pub open spec fn toggle_all<'a, T>(
    options: Seq<SelectOption<'a, T>>,
    count: nat,
    max: Option<usize>,
    focuses: Seq<int>,
) -> (Seq<SelectOption<'a, T>>, nat)
    decreases focuses.len(),
{
    if focuses.len() == 0 {
        (options, count)
    } else {
        let before = toggle_all(options, count, max, focuses.drop_last());
        spec_toggle(before.0, focuses.last(), before.1, max)
    }
}

/// After any sequence of toggles, wherever the focus stands for each, the
/// count of selections is the number of active options, and stays within the maximum.
pub proof fn law_toggles_keep_count<'a, T>(
    options: Seq<SelectOption<'a, T>>,
    count: nat,
    max: Option<usize>,
    focuses: Seq<int>,
)
    requires
        count == count_active(options),
        max matches Some(m) ==> count <= m,
        forall|k: int| 0 <= k < focuses.len() ==> 0 <= #[trigger] focuses[k] < options.len(),
    ensures
        toggle_all(options, count, max, focuses).1 == count_active(toggle_all(options, count, max, focuses).0),
        toggle_all(options, count, max, focuses).0.len() == options.len(),
        max matches Some(m) ==> toggle_all(options, count, max, focuses).1 <= m,
    decreases focuses.len(),
{
    if focuses.len() > 0 {
        let init = focuses.drop_last();
        assert forall|k: int| 0 <= k < init.len() implies 0 <= #[trigger] init[k] < options.len() by {
            assert(init[k] == focuses[k]);
        }
        law_toggles_keep_count(options, count, max, init);
        let before = toggle_all(options, count, max, init);
        assert(0 <= focuses[focuses.len() - 1] < options.len());
        law_toggle_keeps_count(before.0, focuses.last(), before.1, max);
    }
}

/// `Delete` removes the character under the cursor and leaves the cursor
/// where it stood: the characters before it stay, those after it move one
/// place back.
pub proof fn law_delete_keeps_cursor(v: (Seq<char>, nat))
    requires
        v.1 < v.0.len(),
    ensures
        line_edit(v, KeyCode::Delete).1 == v.1,
        line_edit(v, KeyCode::Delete).0.len() + 1 == v.0.len(),
        forall|i: int| 0 <= i < v.1 ==> #[trigger] line_edit(v, KeyCode::Delete).0[i] == v.0[i],
        forall|i: int| v.1 <= i < v.0.len() - 1 ==> #[trigger] line_edit(v, KeyCode::Delete).0[i] == v.0[i + 1],
{
}

/// `Delete` then typing `c` puts `c` in place of the deleted character, with
/// the cursor just after it.
pub proof fn law_delete_then_type_replaces(v: (Seq<char>, nat), c: char)
    requires
        v.1 < v.0.len(),
    ensures
        line_edit(line_edit(v, KeyCode::Delete), KeyCode::Char(c)) == (v.0.update(v.1 as int, c), v.1 + 1),
{
    let d = line_edit(v, KeyCode::Delete);
    assert(line_edit(d, KeyCode::Char(c)).0 =~= v.0.update(v.1 as int, c));
}

/// `Delete` at the end of the line changes nothing.
pub proof fn law_delete_at_end_is_nothing(v: (Seq<char>, nat))
    requires
        v.1 >= v.0.len(),
    ensures
        line_edit(v, KeyCode::Delete) == v,
{
}

/// Going a page down moves the focus by the page size, or to the last item
/// when fewer items are left; going a page up moves it back by the page
/// size, or to the first item.
pub proof fn law_page_moves_by_page_size(input: SelectInput)
    requires
        input.wf(),
    ensures
        input.focused + input.items_per_page < input.total_items
            ==> input.spec_moved(crate::prompts::select::Direction::Right) == input.focused + input.items_per_page,
        input.focused + input.items_per_page >= input.total_items
            ==> input.spec_moved(crate::prompts::select::Direction::Right) == input.total_items - 1,
        input.focused >= input.items_per_page
            ==> input.spec_moved(crate::prompts::select::Direction::Left) + input.items_per_page == input.focused,
        input.focused < input.items_per_page ==> input.spec_moved(crate::prompts::select::Direction::Left) == 0,
        input.spec_moved(crate::prompts::select::Direction::Right) < input.total_items,
{
}

/// A page down followed by a page up comes back to the focus, when a whole
/// page lies below it.
pub proof fn law_page_down_then_up(input: SelectInput)
    requires
        input.wf(),
        input.focused + input.items_per_page < input.total_items,
    ensures
        ({
            let down = input.spec_moved(crate::prompts::select::Direction::Right);
            let after = SelectInput {
                focused: down as usize,
                items_per_page: input.items_per_page,
                loop_mode: input.loop_mode,
                total_items: input.total_items,
            };
            after.spec_moved(crate::prompts::select::Direction::Left) == input.focused
        }),
{
}

/// A count of selections reaches the minimum exactly when it is at least
/// the minimum, so more selections never stop a submission; with no
/// minimum every count does.
pub proof fn law_minimum_is_a_lower_bound(n: nat, k: nat, min: Option<usize>)
    ensures
        reaches_min(n, None),
        min matches Some(m) ==> (reaches_min(n, min) <==> n >= m),
        reaches_min(n, min) && n <= k ==> reaches_min(k, min),
{
}

/// The signed integer types take a sign, the unsigned ones do not, and
/// none of them takes a decimal point.
pub proof fn law_number_kinds()
    ensures
        <i8 as NumLike>::spec_is_signed(),
        <i16 as NumLike>::spec_is_signed(),
        <i32 as NumLike>::spec_is_signed(),
        <i64 as NumLike>::spec_is_signed(),
        <i128 as NumLike>::spec_is_signed(),
        <isize as NumLike>::spec_is_signed(),
        !<u8 as NumLike>::spec_is_signed(),
        !<u16 as NumLike>::spec_is_signed(),
        !<u32 as NumLike>::spec_is_signed(),
        !<u64 as NumLike>::spec_is_signed(),
        !<u128 as NumLike>::spec_is_signed(),
        !<usize as NumLike>::spec_is_signed(),
        !<i8 as NumLike>::spec_is_float(),
        !<i16 as NumLike>::spec_is_float(),
        !<i32 as NumLike>::spec_is_float(),
        !<i64 as NumLike>::spec_is_float(),
        !<i128 as NumLike>::spec_is_float(),
        !<isize as NumLike>::spec_is_float(),
        !<u8 as NumLike>::spec_is_float(),
        !<u16 as NumLike>::spec_is_float(),
        !<u32 as NumLike>::spec_is_float(),
        !<u64 as NumLike>::spec_is_float(),
        !<u128 as NumLike>::spec_is_float(),
        !<usize as NumLike>::spec_is_float(),
{
}

/// A minus sign typed at the start of the line of a number prompt goes in
/// for a signed type and is refused for an unsigned one.
pub proof fn law_minus_at_start<T: NumLike>(v: (Seq<char>, nat))
    requires
        v.1 == 0,
    ensures
        T::spec_is_signed() ==> number_edit(v, KeyCode::Char('-'), T::spec_is_signed(), T::spec_is_float())
            == (seq!['-'] + v.0, 1nat),
        !T::spec_is_signed() ==> number_edit(v, KeyCode::Char('-'), T::spec_is_signed(), T::spec_is_float()) == v,
{
    if T::spec_is_signed() {
        assert(v.0.take(0) + seq!['-'] + v.0.skip(0) =~= seq!['-'] + v.0);
    }
}

/// `Enter` and `Backspace` submit the answer that is focused, whichever it
/// is; `y`/`n` answer and submit; the arrows and `h`/`l` only move the focus.
pub proof fn law_confirm_submits_focused(active: bool)
    ensures
        confirm_step(active, KeyCode::Enter) == (active, true),
        confirm_step(active, KeyCode::Backspace) == (active, true),
        confirm_step(active, KeyCode::Char('y')) == (true, true),
        confirm_step(active, KeyCode::Char('n')) == (false, true),
        confirm_step(active, KeyCode::Left) == (false, false),
        confirm_step(active, KeyCode::Char('h')) == (false, false),
        confirm_step(active, KeyCode::Right) == (true, false),
        confirm_step(active, KeyCode::Char('l')) == (true, false),
        confirm_step(active, KeyCode::Esc) == (active, false),
{
}

} // verus!
