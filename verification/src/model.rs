use vstd::prelude::*;

use crate::key::Key;
use crate::mode::Mode;

verus! {

/// The mathematical state the dispatcher acts on: the lines of text, the
/// cursor position and the mode. Blink state, the buffer name and the
/// quit policy do not influence dispatch and stay outside.
#[verifier::ext_equal]
pub struct EditState {
    pub lines: Seq<Seq<char>>,
    pub x: nat,
    pub y: nat,
    pub mode: Mode,
}

impl EditState {
    /// The length of the line the cursor is on.
    pub open spec fn cur_len(self) -> nat {
        self.lines[self.y as int].len()
    }

    /// The editing invariant: at least one line, the cursor row inside
    /// the line list, and the cursor column at most one past the end of
    /// its line.
    pub open spec fn wf(self) -> bool {
        &&& self.lines.len() >= 1
        &&& self.y < self.lines.len()
        &&& self.x <= self.cur_len()
    }
}

/// A column clamped into a line of length `len`.
pub open spec fn clamp(x: nat, len: nat) -> nat {
    if x > len {
        len
    } else {
        x
    }
}

/// Move one column left, stopping at the start of the line.
pub open spec fn move_left(s: EditState) -> EditState {
    if s.x > 0 {
        EditState { x: (s.x - 1) as nat, ..s }
    } else {
        s
    }
}

/// Move one column right, stopping one past the end of the line.
pub open spec fn move_right(s: EditState) -> EditState {
    if s.x < s.cur_len() {
        EditState { x: s.x + 1, ..s }
    } else {
        s
    }
}

/// Move one row up, clamping the column to the new line; a no-op on the
/// first row.
pub open spec fn move_up(s: EditState) -> EditState {
    if s.y > 0 {
        let ny = (s.y - 1) as nat;
        EditState { y: ny, x: clamp(s.x, s.lines[ny as int].len()), ..s }
    } else {
        s
    }
}

/// Move one row down, clamping the column to the new line; a no-op on
/// the last row.
pub open spec fn move_down(s: EditState) -> EditState {
    if s.y + 1 < s.lines.len() {
        let ny = s.y + 1;
        EditState { y: ny, x: clamp(s.x, s.lines[ny as int].len()), ..s }
    } else {
        s
    }
}

/// Snap the column to the start of the line.
pub open spec fn line_start(s: EditState) -> EditState {
    EditState { x: 0nat, ..s }
}

/// Snap the column to the end of the line (one past the last character).
pub open spec fn line_end(s: EditState) -> EditState {
    EditState { x: s.cur_len(), ..s }
}

/// Switch to Insert mode; the cursor does not move.
pub open spec fn enter_insert(s: EditState) -> EditState {
    EditState { mode: Mode::Insert, ..s }
}

/// Switch back to Normal mode. Normal mode has no one-past-the-end
/// column on a non-empty line, so a cursor sitting there steps back onto
/// the last character.
pub open spec fn leave_insert(s: EditState) -> EditState {
    let len = s.cur_len();
    let nx = if len > 0 && s.x >= len {
        (len - 1) as nat
    } else {
        s.x
    };
    EditState { mode: Mode::Normal, x: nx, ..s }
}

/// Insert character `c` before column `x` of the current line (appending
/// when `x` is one past the end); the cursor advances one column.
pub open spec fn insert_char(s: EditState, c: char) -> EditState {
    let line = s.lines[s.y as int];
    let nl = line.subrange(0, s.x as int) + seq![c] + line.subrange(
        s.x as int,
        line.len() as int,
    );
    EditState { lines: s.lines.update(s.y as int, nl), x: s.x + 1, ..s }
}

/// Delete backward: remove the character before the cursor, or, at the
/// start of a line that is not the first, merge the line onto the end of
/// the previous one with the cursor at the join point. At the origin it
/// is a no-op.
pub open spec fn delete_backward(s: EditState) -> EditState {
    if s.x > 0 {
        let line = s.lines[s.y as int];
        let nl = line.subrange(0, s.x - 1) + line.subrange(s.x as int, line.len() as int);
        EditState { lines: s.lines.update(s.y as int, nl), x: (s.x - 1) as nat, ..s }
    } else if s.y > 0 {
        let prev = s.lines[s.y - 1];
        let cur = s.lines[s.y as int];
        EditState {
            lines: s.lines.update(s.y - 1, prev + cur).remove(s.y as int),
            x: prev.len(),
            y: (s.y - 1) as nat,
            ..s
        }
    } else {
        s
    }
}

/// Split the current line at the cursor: the suffix from the cursor on
/// becomes a new line right below, the current line keeps the prefix,
/// and the cursor moves to the start of the new line.
pub open spec fn split_line(s: EditState) -> EditState {
    let line = s.lines[s.y as int];
    let left = line.subrange(0, s.x as int);
    let right = line.subrange(s.x as int, line.len() as int);
    EditState {
        lines: s.lines.update(s.y as int, left).insert(s.y + 1 as int, right),
        x: 0nat,
        y: s.y + 1,
        ..s
    }
}

/// One Normal-mode keystroke: movement, line snapping, entering Insert
/// mode, or requesting termination with 'q'. The colon key changes
/// nothing here; the caller runs the command prompt when it sees it.
pub open spec fn normal_step(s: EditState, key: Key) -> (EditState, bool) {
    if key == Key::Char('i') {
        (enter_insert(s), false)
    } else if key == Key::Char('h') || key == Key::Left {
        (move_left(s), false)
    } else if key == Key::Char('j') || key == Key::Down {
        (move_down(s), false)
    } else if key == Key::Char('k') || key == Key::Up {
        (move_up(s), false)
    } else if key == Key::Char('l') || key == Key::Right {
        (move_right(s), false)
    } else if key == Key::Char('0') {
        (line_start(s), false)
    } else if key == Key::Char('$') {
        (line_end(s), false)
    } else if key == Key::Char('q') {
        (s, true)
    } else {
        (s, false)
    }
}

/// One Insert-mode keystroke: text entry, deletion, line splitting,
/// movement, or leaving for Normal mode.
pub open spec fn insert_step(s: EditState, key: Key) -> (EditState, bool) {
    match key {
        Key::Esc => (leave_insert(s), false),
        Key::Char(c) => (insert_char(s, c), false),
        Key::Backspace => (delete_backward(s), false),
        Key::Enter => (split_line(s), false),
        Key::Left => (move_left(s), false),
        Key::Right => (move_right(s), false),
        Key::Up => (move_up(s), false),
        Key::Down => (move_down(s), false),
        _ => (s, false),
    }
}

/// One keystroke of the whole editor: the interrupt chord terminates only
/// when the policy says so, every other key goes to the handler of the
/// active mode. The boolean is the termination flag handed back to the
/// event loop.
pub open spec fn step(s: EditState, key: Key, quit_on_interrupt: bool) -> (EditState, bool) {
    if key == Key::Interrupt {
        (s, quit_on_interrupt)
    } else if s.mode == Mode::Normal {
        normal_step(s, key)
    } else {
        insert_step(s, key)
    }
}

} // verus!
