use vstd::prelude::*;
use vstd::string::StrSliceExecFns;

use crate::buffer::Buffer;
use crate::cursor::Cursor;
use crate::cursor::DEFAULT_BLINK_INTERVAL_MS;
use crate::key::Key;
use crate::mode::Mode;
use crate::model::EditState;
use crate::model::delete_backward;
use crate::model::enter_insert;
use crate::model::insert_char;
use crate::model::insert_step;
use crate::model::leave_insert;
use crate::model::line_end;
use crate::model::line_start;
use crate::model::move_down;
use crate::model::move_left;
use crate::model::move_right;
use crate::model::move_up;
use crate::model::normal_step;
use crate::model::split_line;
use crate::model::step;
use crate::text::join_lines;
use crate::text::line_concat;
use crate::text::line_insert;
use crate::text::line_remove;
use crate::text::line_split;
use crate::text::lemma_join_lines_push;
use crate::text::load_lines;
use crate::text::push_char;
use crate::text::split_content;

verus! {

/// The editor: buffer, cursor and mode, plus the policy for the
/// interrupt chord. Keystrokes come in through `handle_keypress`, frames
/// go out through the render module, and the surrounding program does
/// all reading and writing of the terminal and of files.
pub struct Editor {
    pub cursor: Cursor,
    pub buffer: Buffer,
    pub mode: Mode,
    /// Whether the interrupt chord ends the session. Off by default: the
    /// chord is deliberately suppressed, but the policy is a field so a
    /// caller can decide otherwise.
    pub quit_on_interrupt: bool,
}

/// Everything dispatch leaves alone: the buffer name and metadata, the
/// blink state, and the quit policy.
pub open spec fn frame_eq(a: Editor, b: Editor) -> bool {
    &&& a.buffer.buffer_name@ == b.buffer.buffer_name@
    &&& a.buffer.lines == b.buffer.lines
    &&& a.buffer.active_line == b.buffer.active_line
    &&& a.cursor.visible == b.cursor.visible
    &&& a.cursor.blink_interval == b.cursor.blink_interval
    &&& a.cursor.last_blink == b.cursor.last_blink
    &&& a.quit_on_interrupt == b.quit_on_interrupt
}

impl Editor {
    /// The state the dispatcher acts on.
    pub open spec fn state(self) -> EditState {
        EditState {
            lines: self.buffer.text(),
            x: self.cursor.x as nat,
            y: self.cursor.y as nat,
            mode: self.mode,
        }
    }

    /// The editing invariant of the whole editor.
    pub open spec fn wf(self) -> bool {
        self.state().wf()
    }

    /// A fresh editor: Normal mode, cursor at the origin, the buffer
    /// holding the given file content split into lines (a single empty
    /// line when there is no content), named after the given file.
    pub fn new(filename: Option<String>, content: Option<String>) -> (e: Editor)
        ensures
            e.buffer.buffer_name@ == (match filename {
                Some(n) => n@,
                None => Seq::<char>::empty(),
            }),
            e.buffer.text() == (match content {
                Some(c) => load_lines(c@),
                None => seq![Seq::<char>::empty()],
            }),
            e.buffer.lines == 0,
            e.buffer.active_line == 0,
            e.cursor.x == 0,
            e.cursor.y == 0,
            e.cursor.visible,
            e.cursor.blink_interval == DEFAULT_BLINK_INTERVAL_MS,
            e.cursor.last_blink == 0,
            e.mode == Mode::Normal,
            !e.quit_on_interrupt,
            e.wf(),
    {
        let buffer_text: Vec<String> = match &content {
            Some(c) => {
                let mut ls = split_content(c.as_str());
                if ls.len() == 0 {
                    ls.push(String::new());
                    proof {
                        assert(ls.deep_view() =~= seq![Seq::<char>::empty()]);
                    }
                }
                ls
            },
            None => {
                let mut ls: Vec<String> = Vec::new();
                ls.push(String::new());
                proof {
                    assert(ls.deep_view() =~= seq![Seq::<char>::empty()]);
                }
                ls
            },
        };
        let buffer_name = match filename {
            Some(n) => n,
            None => String::new(),
        };
        let buffer = Buffer { lines: 0, active_line: 0, buffer_name, buffer_text };
        Editor { cursor: Cursor::new(), buffer, mode: Mode::Normal, quit_on_interrupt: false }
    }

    /// Dispatch one keystroke by mode, as `step` says; the result asks
    /// the event loop to terminate. The colon key does not change the
    /// state: the caller sees it through `requests_command_prompt` and
    /// runs the prompt itself.
    pub fn handle_keypress(&mut self, key: Key) -> (quit: bool)
        requires
            old(self).wf(),
            old(self).cursor.x < usize::MAX,
        ensures
            final(self).state() == step(old(self).state(), key, old(self).quit_on_interrupt).0,
            quit == step(old(self).state(), key, old(self).quit_on_interrupt).1,
            final(self).wf(),
            frame_eq(*old(self), *final(self)),
    {
        if matches!(key, Key::Interrupt) {
            self.quit_on_interrupt
        } else {
            match self.mode {
                Mode::Normal => self.handle_normal_key(key),
                Mode::Insert => self.handle_insert_key(key),
            }
        }
    }

    /// Whether this keystroke asks for the colon-command prompt instead
    /// of an edit.
    pub fn requests_command_prompt(&self, key: Key) -> (r: bool)
        ensures
            r == (self.mode == Mode::Normal && key == Key::Char(':')),
    {
        matches!(self.mode, Mode::Normal) && matches!(key, Key::Char(':'))
    }

    /// Advance the cursor blink state for one render tick at `now`
    /// milliseconds; nothing else changes.
    pub fn update_cursor_blink(&mut self, now: u64)
        ensures
            final(self).cursor == old(self).cursor.blink_spec(old(self).mode, now),
            final(self).buffer == old(self).buffer,
            final(self).mode == old(self).mode,
            final(self).quit_on_interrupt == old(self).quit_on_interrupt,
    {
        let mode = self.mode;
        self.cursor.blink(mode, now);
    }

    /// The exact bytes a save writes: every line followed by a line
    /// terminator, in order.
    pub fn saved_content(&self) -> (r: String)
        ensures
            r@ == join_lines(self.buffer.text()),
    {
        let mut out = String::new();
        let mut i: usize = 0;
        let n = self.buffer.buffer_text.len();
        while i < n
            invariant
                i <= n,
                n == self.buffer.buffer_text@.len(),
                out@ == join_lines(self.buffer.text().take(i as int)),
            decreases n - i,
        {
            let ghost pre = self.buffer.text().take(i as int);
            out.append(self.buffer.buffer_text[i].as_str());
            push_char(&mut out, '\n');
            proof {
                lemma_join_lines_push(pre, self.buffer.text()[i as int]);
                assert(self.buffer.text().take(i + 1 as int) =~= pre.push(
                    self.buffer.text()[i as int],
                ));
            }
            i += 1;
        }
        proof {
            assert(self.buffer.text().take(n as int) =~= self.buffer.text());
        }
        out
    }

    /// Whether a save must first ask for a file name.
    pub fn needs_filename(&self) -> (r: bool)
        ensures
            r == (self.buffer.buffer_name@.len() == 0),
    {
        self.buffer.buffer_name.as_str().is_empty()
    }

    /// Bind the buffer to the path it was written to; nothing else
    /// changes.
    pub fn bind_filename(&mut self, name: String)
        ensures
            final(self).buffer.buffer_name@ == name@,
            final(self).buffer.buffer_text == old(self).buffer.buffer_text,
            final(self).buffer.lines == old(self).buffer.lines,
            final(self).buffer.active_line == old(self).buffer.active_line,
            final(self).cursor == old(self).cursor,
            final(self).mode == old(self).mode,
            final(self).quit_on_interrupt == old(self).quit_on_interrupt,
    {
        self.buffer.buffer_name = name;
    }

    /// One Normal-mode keystroke, as `normal_step` says.
    fn handle_normal_key(&mut self, key: Key) -> (quit: bool)
        requires
            old(self).wf(),
            old(self).mode == Mode::Normal,
            key != Key::Interrupt,
        ensures
            final(self).state() == normal_step(old(self).state(), key).0,
            quit == normal_step(old(self).state(), key).1,
            final(self).wf(),
            frame_eq(*old(self), *final(self)),
    {
        match key {
            Key::Char(ch) => {
                if ch == 'i' {
                    self.mode = Mode::Insert;
                    proof {
                        assert(self.state() =~~= enter_insert(old(self).state()));
                    }
                    false
                } else if ch == 'h' {
                    self.do_move_left();
                    false
                } else if ch == 'j' {
                    self.do_move_down();
                    false
                } else if ch == 'k' {
                    self.do_move_up();
                    false
                } else if ch == 'l' {
                    self.do_move_right();
                    false
                } else if ch == '0' {
                    self.cursor.x = 0;
                    proof {
                        assert(self.state() =~~= line_start(old(self).state()));
                    }
                    false
                } else if ch == '$' {
                    self.do_line_end();
                    false
                } else {
                    ch == 'q'
                }
            },
            Key::Left => {
                self.do_move_left();
                false
            },
            Key::Down => {
                self.do_move_down();
                false
            },
            Key::Up => {
                self.do_move_up();
                false
            },
            Key::Right => {
                self.do_move_right();
                false
            },
            _ => false,
        }
    }

    /// One Insert-mode keystroke, as `insert_step` says.
    fn handle_insert_key(&mut self, key: Key) -> (quit: bool)
        requires
            old(self).wf(),
            old(self).mode == Mode::Insert,
            old(self).cursor.x < usize::MAX,
            key != Key::Interrupt,
        ensures
            final(self).state() == insert_step(old(self).state(), key).0,
            quit == insert_step(old(self).state(), key).1,
            final(self).wf(),
            frame_eq(*old(self), *final(self)),
    {
        match key {
            Key::Esc => {
                self.do_leave_insert();
                false
            },
            Key::Char(ch) => {
                self.do_insert_char(ch);
                false
            },
            Key::Backspace => {
                self.do_delete_backward();
                false
            },
            Key::Enter => {
                self.do_split_line();
                false
            },
            Key::Left => {
                self.do_move_left();
                false
            },
            Key::Right => {
                self.do_move_right();
                false
            },
            Key::Up => {
                self.do_move_up();
                false
            },
            Key::Down => {
                self.do_move_down();
                false
            },
            _ => false,
        }
    }

    /// The length, in characters, of the line the cursor is on.
    fn current_line_len(&self) -> (n: usize)
        requires
            self.cursor.y < self.buffer.buffer_text@.len(),
        ensures
            n == self.state().cur_len(),
    {
        self.buffer.buffer_text[self.cursor.y].as_str().unicode_len()
    }

    fn do_move_left(&mut self)
        requires
            old(self).wf(),
        ensures
            final(self).state() == move_left(old(self).state()),
            final(self).wf(),
            frame_eq(*old(self), *final(self)),
    {
        if self.cursor.x > 0 {
            self.cursor.x = self.cursor.x - 1;
        }
        proof {
            assert(self.state() =~~= move_left(old(self).state()));
        }
    }

    fn do_move_right(&mut self)
        requires
            old(self).wf(),
        ensures
            final(self).state() == move_right(old(self).state()),
            final(self).wf(),
            frame_eq(*old(self), *final(self)),
    {
        let len = self.current_line_len();
        if self.cursor.x < len {
            self.cursor.x = self.cursor.x + 1;
        }
        proof {
            assert(self.state() =~~= move_right(old(self).state()));
        }
    }

    fn do_move_up(&mut self)
        requires
            old(self).wf(),
        ensures
            final(self).state() == move_up(old(self).state()),
            final(self).wf(),
            frame_eq(*old(self), *final(self)),
    {
        if self.cursor.y > 0 {
            self.cursor.y = self.cursor.y - 1;
            let len = self.current_line_len();
            if self.cursor.x > len {
                self.cursor.x = len;
            }
        }
        proof {
            assert(self.state() =~~= move_up(old(self).state()));
        }
    }

    fn do_move_down(&mut self)
        requires
            old(self).wf(),
        ensures
            final(self).state() == move_down(old(self).state()),
            final(self).wf(),
            frame_eq(*old(self), *final(self)),
    {
        let n = self.buffer.buffer_text.len();
        proof {
            assert(old(self).state().lines.len() == n);
        }
        if self.cursor.y < n - 1 {
            self.cursor.y = self.cursor.y + 1;
            let len = self.current_line_len();
            if self.cursor.x > len {
                self.cursor.x = len;
            }
        }
        proof {
            assert(self.state() =~~= move_down(old(self).state()));
        }
    }

    fn do_line_end(&mut self)
        requires
            old(self).wf(),
        ensures
            final(self).state() == line_end(old(self).state()),
            final(self).wf(),
            frame_eq(*old(self), *final(self)),
    {
        let len = self.current_line_len();
        self.cursor.x = len;
        proof {
            assert(self.state() =~~= line_end(old(self).state()));
        }
    }

    fn do_leave_insert(&mut self)
        requires
            old(self).wf(),
        ensures
            final(self).state() == leave_insert(old(self).state()),
            final(self).wf(),
            frame_eq(*old(self), *final(self)),
    {
        self.mode = Mode::Normal;
        let len = self.current_line_len();
        if len > 0 && self.cursor.x >= len {
            self.cursor.x = len - 1;
        }
        proof {
            assert(self.state() =~~= leave_insert(old(self).state()));
        }
    }

    fn do_insert_char(&mut self, c: char)
        requires
            old(self).wf(),
            old(self).cursor.x < usize::MAX,
        ensures
            final(self).state() == insert_char(old(self).state(), c),
            final(self).wf(),
            frame_eq(*old(self), *final(self)),
    {
        let y = self.cursor.y;
        let x = self.cursor.x;
        let nl = line_insert(self.buffer.buffer_text[y].as_str(), x, c);
        self.buffer.buffer_text[y] = nl;
        self.cursor.x = x + 1;
        proof {
            assert(self.state() =~~= insert_char(old(self).state(), c));
        }
    }

    fn do_delete_backward(&mut self)
        requires
            old(self).wf(),
        ensures
            final(self).state() == delete_backward(old(self).state()),
            final(self).wf(),
            frame_eq(*old(self), *final(self)),
    {
        let y = self.cursor.y;
        let x = self.cursor.x;
        if x > 0 {
            let nl = line_remove(self.buffer.buffer_text[y].as_str(), x);
            self.buffer.buffer_text[y] = nl;
            self.cursor.x = x - 1;
            proof {
                assert(self.state() =~~= delete_backward(old(self).state()));
            }
        } else if y > 0 {
            let cur = self.buffer.buffer_text.remove(y);
            let joined = line_concat(self.buffer.buffer_text[y - 1].as_str(), cur.as_str());
            let prev_len = self.buffer.buffer_text[y - 1].as_str().unicode_len();
            self.buffer.buffer_text[y - 1] = joined;
            self.cursor.y = y - 1;
            self.cursor.x = prev_len;
            proof {
                assert(self.state() =~~= delete_backward(old(self).state()));
            }
        } else {
            proof {
                assert(self.state() =~~= delete_backward(old(self).state()));
            }
        }
    }

    fn do_split_line(&mut self)
        requires
            old(self).wf(),
        ensures
            final(self).state() == split_line(old(self).state()),
            final(self).wf(),
            frame_eq(*old(self), *final(self)),
    {
        let y = self.cursor.y;
        let x = self.cursor.x;
        let n = self.buffer.buffer_text.len();
        proof {
            assert(old(self).state().lines.len() == n);
        }
        let (left, right) = line_split(self.buffer.buffer_text[y].as_str(), x);
        self.buffer.buffer_text[y] = left;
        self.buffer.buffer_text.insert(y + 1, right);
        self.cursor.y = y + 1;
        self.cursor.x = 0;
        proof {
            assert(self.state() =~~= split_line(old(self).state()));
        }
    }
}

} // verus!
