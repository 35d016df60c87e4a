use vstd::prelude::*;

use crate::key::Key;
use crate::mode::Mode;
use crate::model::EditState;
use crate::model::delete_backward;
use crate::model::insert_step;
use crate::model::normal_step;
use crate::model::split_line;
use crate::model::step;

verus! {

/// Law: every keystroke keeps the editing invariant — at least one
/// line, the cursor row inside the line list, and the cursor column at
/// most one past the end of its line.
pub proof fn lemma_step_preserves_invariant(s: EditState, key: Key, quit_on_interrupt: bool)
    requires
        s.wf(),
    ensures
        step(s, key, quit_on_interrupt).0.wf(),
{
    let s2 = step(s, key, quit_on_interrupt).0;
    if key == Key::Interrupt {
    } else if s.mode == Mode::Normal {
        assert(normal_step(s, key).0.wf());
    } else {
        match key {
            Key::Char(c) => {
                let line = s.lines[s.y as int];
                assert(s2.lines[s.y as int].len() == line.len() + 1);
                assert(s2.wf());
            },
            Key::Backspace => {
                lemma_delete_backward_wf(s);
            },
            Key::Enter => {
                lemma_split_line_wf(s);
            },
            _ => {
                assert(insert_step(s, key).0.wf());
            },
        }
    }
}

proof fn lemma_delete_backward_wf(s: EditState)
    requires
        s.wf(),
    ensures
        delete_backward(s).wf(),
{
    let s2 = delete_backward(s);
    if s.x > 0 {
        assert(s2.lines[s.y as int].len() == s.lines[s.y as int].len() - 1);
    } else if s.y > 0 {
        let merged = s.lines[s.y - 1] + s.lines[s.y as int];
        assert(s.lines.update(s.y - 1, merged).remove(s.y as int).len() == s.lines.len() - 1);
        assert(s2.lines[s.y - 1] == merged);
    }
}

proof fn lemma_split_line_wf(s: EditState)
    requires
        s.wf(),
    ensures
        split_line(s).wf(),
{
    let s2 = split_line(s);
    assert(s2.lines.len() == s.lines.len() + 1);
    assert(s2.lines[s.y + 1 as int].len() >= 0);
}

/// Law: moving left at the first column is a no-op that asks no
/// termination (the arrow in either mode, the letter key in Normal
/// mode).
pub proof fn lemma_left_at_line_start_noop(s: EditState, key: Key, quit_on_interrupt: bool)
    requires
        s.wf(),
        s.x == 0,
        key == Key::Left || (s.mode == Mode::Normal && key == Key::Char('h')),
    ensures
        step(s, key, quit_on_interrupt) == (s, false),
{
}

/// Law: moving right with the cursor at the end of its line is a no-op
/// that asks no termination.
pub proof fn lemma_right_at_line_end_noop(s: EditState, key: Key, quit_on_interrupt: bool)
    requires
        s.wf(),
        s.x == s.cur_len(),
        key == Key::Right || (s.mode == Mode::Normal && key == Key::Char('l')),
    ensures
        step(s, key, quit_on_interrupt) == (s, false),
{
}

/// Law: moving up on the first row is a no-op that asks no termination.
pub proof fn lemma_up_at_first_row_noop(s: EditState, key: Key, quit_on_interrupt: bool)
    requires
        s.wf(),
        s.y == 0,
        key == Key::Up || (s.mode == Mode::Normal && key == Key::Char('k')),
    ensures
        step(s, key, quit_on_interrupt) == (s, false),
{
}

/// Law: moving down on the last row is a no-op that asks no
/// termination.
pub proof fn lemma_down_at_last_row_noop(s: EditState, key: Key, quit_on_interrupt: bool)
    requires
        s.wf(),
        s.y == s.lines.len() - 1,
        key == Key::Down || (s.mode == Mode::Normal && key == Key::Char('j')),
    ensures
        step(s, key, quit_on_interrupt) == (s, false),
{
}

/// Law: splitting a line at the cursor and deleting backward right
/// after restores the original lines, the original cursor position and
/// the mode.
pub proof fn lemma_split_then_delete_restores(s: EditState, quit_on_interrupt: bool)
    requires
        s.wf(),
        s.mode == Mode::Insert,
    ensures
        step(step(s, Key::Enter, quit_on_interrupt).0, Key::Backspace, quit_on_interrupt).0 == s,
{
    let s1 = step(s, Key::Enter, quit_on_interrupt).0;
    let s2 = step(s1, Key::Backspace, quit_on_interrupt).0;
    let line = s.lines[s.y as int];
    let left = line.subrange(0, s.x as int);
    let right = line.subrange(s.x as int, line.len() as int);
    assert(s1 == split_line(s));
    assert(s1.lines == s.lines.update(s.y as int, left).insert(s.y + 1 as int, right));
    assert(s1.x == 0 && s1.y == s.y + 1);
    assert(s1.lines[s1.y - 1] == left);
    assert(s1.lines[s1.y as int] == right);
    assert(s2 == delete_backward(s1));
    assert(left + right =~= line);
    assert(s2.lines =~~= s.lines);
    assert(s2.x == left.len() == s.x);
    assert(s2 =~~= s);
}

} // verus!
