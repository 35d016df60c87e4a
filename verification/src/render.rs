use vstd::prelude::*;
use vstd::string::StrSliceExecFns;
use vstd::string::StringExecFns;

use crate::editor::Editor;
use crate::mode::Mode;
use crate::model::EditState;
use crate::text::push_char;

verus! {

/// How a piece of text is to be shown on the character grid.
#[derive(Clone, Copy, PartialEq, Eq, Structural, Debug)]
pub enum Style {
    /// Ordinary buffer text.
    Plain,
    /// The gutter number of the line the cursor is on.
    GutterActive,
    /// A gutter number of any other line.
    GutterInactive,
    /// The solid block the Normal-mode cursor draws over its character.
    CursorBlock,
    /// The thin bar the Insert-mode cursor draws before its character.
    CursorBar,
    /// The status line near the bottom.
    StatusBar,
}

/// One drawing instruction: put `text` at grid position (`col`, `row`)
/// in the given style. A frame is a list of these, applied in order to
/// a cleared grid; later instructions overdraw earlier ones.
pub struct DrawOp {
    pub col: usize,
    pub row: usize,
    pub text: String,
    pub style: Style,
}

/// The mathematical content of one drawing instruction.
#[verifier::ext_equal]
pub struct DrawOpModel {
    pub col: nat,
    pub row: nat,
    pub text: Seq<char>,
    pub style: Style,
}

impl View for DrawOp {
    type V = DrawOpModel;

    open spec fn view(&self) -> DrawOpModel {
        DrawOpModel {
            col: self.col as nat,
            row: self.row as nat,
            text: self.text@,
            style: self.style,
        }
    }
}

/// The contents of a whole frame.
pub open spec fn plan_view(ops: Seq<DrawOp>) -> Seq<DrawOpModel> {
    ops.map_values(|op: DrawOp| op@)
}

/// The digit character for a value below ten.
pub open spec fn digit_char(d: nat) -> char {
    if d == 0 {
        '0'
    } else if d == 1 {
        '1'
    } else if d == 2 {
        '2'
    } else if d == 3 {
        '3'
    } else if d == 4 {
        '4'
    } else if d == 5 {
        '5'
    } else if d == 6 {
        '6'
    } else if d == 7 {
        '7'
    } else if d == 8 {
        '8'
    } else {
        '9'
    }
}

/// The decimal digits of `n`, most significant first.
pub open spec fn dec_rep(n: nat) -> Seq<char>
    decreases n,
{
    if n < 10 {
        seq![digit_char(n)]
    } else {
        dec_rep(n / 10).push(digit_char(n % 10))
    }
}

pub open spec fn pow10(k: nat) -> nat
    decreases k,
{
    if k == 0 {
        1
    } else {
        10 * pow10((k - 1) as nat)
    }
}

pub proof fn lemma_dec_rep_len(n: nat, k: nat)
    requires
        k >= 1,
        n < pow10(k),
    ensures
        dec_rep(n).len() <= k,
    decreases k,
{
    if n < 10 {
    } else {
        assert(pow10(k) == 10 * pow10((k - 1) as nat));
        assert(n / 10 < pow10((k - 1) as nat)) by (nonlinear_arith)
            requires
                n < 10 * pow10((k - 1) as nat),
                n >= 10,
        ;
        assert(k >= 2) by {
            if k == 1 {
                assert(pow10(k) == 10);
            }
        }
        lemma_dec_rep_len(n / 10, (k - 1) as nat);
    }
}

/// No line number of this machine needs more than twenty digits.
pub proof fn lemma_dec_rep_len_usize(n: nat)
    requires
        n <= usize::MAX,
    ensures
        dec_rep(n).len() <= 20,
{
    reveal_with_fuel(pow10, 21);
    assert(n < pow10(20));
    lemma_dec_rep_len(n, 20);
}

/// `s` padded with spaces on the left up to width `w`.
pub open spec fn pad_left(s: Seq<char>, w: nat) -> Seq<char> {
    if s.len() >= w {
        s
    } else {
        Seq::new((w - s.len()) as nat, |i: int| ' ') + s
    }
}

fn digit_char_of(d: usize) -> (c: char)
    requires
        d < 10,
    ensures
        c == digit_char(d as nat),
{
    if d == 0 {
        '0'
    } else if d == 1 {
        '1'
    } else if d == 2 {
        '2'
    } else if d == 3 {
        '3'
    } else if d == 4 {
        '4'
    } else if d == 5 {
        '5'
    } else if d == 6 {
        '6'
    } else if d == 7 {
        '7'
    } else if d == 8 {
        '8'
    } else {
        '9'
    }
}

/// `n` written in decimal.
pub fn fmt_usize(n: usize) -> (r: String)
    ensures
        r@ == dec_rep(n as nat),
    decreases n,
{
    if n < 10 {
        let mut s = String::new();
        push_char(&mut s, digit_char_of(n));
        proof {
            assert(s@ =~= dec_rep(n as nat));
        }
        s
    } else {
        let mut s = fmt_usize(n / 10);
        push_char(&mut s, digit_char_of(n % 10));
        proof {
            assert(s@ =~= dec_rep(n as nat));
        }
        s
    }
}

/// A line number, right-aligned to the gutter width and followed by one
/// space.
fn fmt_line_number(num: usize, width: usize) -> (r: String)
    ensures
        r@ == pad_left(dec_rep(num as nat), width as nat).push(' '),
{
    let digits = fmt_usize(num);
    let dl = digits.unicode_len();
    let pad: usize = if width > dl {
        width - dl
    } else {
        0
    };
    let mut out = String::new();
    let mut i: usize = 0;
    while i < pad
        invariant
            i <= pad,
            out@ == Seq::new(i as nat, |j: int| ' '),
        decreases pad - i,
    {
        push_char(&mut out, ' ');
        i += 1;
        proof {
            assert(out@ =~= Seq::new(i as nat, |j: int| ' '));
        }
    }
    out.append(digits.as_str());
    push_char(&mut out, ' ');
    proof {
        assert(out@ =~= pad_left(dec_rep(num as nat), width as nat).push(' '));
    }
    out
}

/// The label the status line shows for each mode.
pub open spec fn mode_label(m: Mode) -> Seq<char> {
    if m == Mode::Normal {
        "NORMAL"@
    } else {
        "INSERT"@
    }
}

/// The status line: the mode label and the 1-based line and column.
pub open spec fn status_text_spec(mode: Mode, x: nat, y: nat) -> Seq<char> {
    mode_label(mode) + " | Line: "@ + dec_rep(y + 1) + ", Col: "@ + dec_rep(x + 1) + " "@
}

pub fn status_text(mode: Mode, x: usize, y: usize) -> (r: String)
    requires
        x < usize::MAX,
        y < usize::MAX,
    ensures
        r@ == status_text_spec(mode, x as nat, y as nat),
{
    let mut out = if matches!(mode, Mode::Normal) {
        String::from_str("NORMAL")
    } else {
        String::from_str("INSERT")
    };
    out.append(" | Line: ");
    let line_digits = fmt_usize(y + 1);
    out.append(line_digits.as_str());
    out.append(", Col: ");
    let col_digits = fmt_usize(x + 1);
    out.append(col_digits.as_str());
    out.append(" ");
    proof {
        assert(out@ =~= status_text_spec(mode, x as nat, y as nat));
    }
    out
}

/// The width of the gutter: as many cells as the largest line number
/// has digits.
pub open spec fn gutter_width(line_count: nat) -> nat {
    dec_rep(line_count).len()
}

/// The gutter cell of one row: its 1-based number, right-aligned, with
/// the row the cursor is on set off from the rest.
pub open spec fn gutter_op(s: EditState, w: nat, row: nat) -> DrawOpModel {
    DrawOpModel {
        col: 0,
        row,
        text: pad_left(dec_rep(row + 1), w).push(' '),
        style: if row == s.y {
            Style::GutterActive
        } else {
            Style::GutterInactive
        },
    }
}

/// The text of one row, drawn right after the gutter.
pub open spec fn text_op(s: EditState, w: nat, row: nat) -> DrawOpModel {
    DrawOpModel { col: w + 1, row, text: s.lines[row as int], style: Style::Plain }
}

/// The gutter and text of the first `n` rows, top to bottom.
pub open spec fn rows_ops(s: EditState, w: nat, n: nat) -> Seq<DrawOpModel>
    decreases n,
{
    if n == 0 {
        Seq::empty()
    } else {
        rows_ops(s, w, (n - 1) as nat) + seq![
            gutter_op(s, w, (n - 1) as nat),
            text_op(s, w, (n - 1) as nat),
        ]
    }
}

/// What the cursor cell shows: Insert mode draws a thin bar before the
/// character, Normal mode a block over the character under the cursor
/// (over a blank at the end of the line).
pub open spec fn cursor_glyph(s: EditState) -> Seq<char> {
    if s.mode == Mode::Insert {
        seq!['|']
    } else if s.x < s.cur_len() {
        seq![s.lines[s.y as int][s.x as int]]
    } else {
        seq![' ']
    }
}

/// The cursor cell at its screen position.
pub open spec fn cursor_op(s: EditState, w: nat) -> DrawOpModel {
    DrawOpModel {
        col: w + 1 + s.x,
        row: s.y,
        text: cursor_glyph(s),
        style: if s.mode == Mode::Normal {
            Style::CursorBlock
        } else {
            Style::CursorBar
        },
    }
}

/// The status line two rows above the bottom of the grid.
pub open spec fn status_op(s: EditState, term_height: nat) -> DrawOpModel {
    DrawOpModel {
        col: 0,
        row: (term_height - 2) as nat,
        text: status_text_spec(s.mode, s.x, s.y),
        style: Style::StatusBar,
    }
}

/// A whole frame: every row with its gutter, then the cursor cell when
/// it is visible, then the status line.
pub open spec fn render_ops(s: EditState, visible: bool, term_height: nat) -> Seq<DrawOpModel> {
    let w = gutter_width(s.lines.len());
    rows_ops(s, w, s.lines.len()) + (if visible {
        seq![cursor_op(s, w)]
    } else {
        Seq::<DrawOpModel>::empty()
    }) + seq![status_op(s, term_height)]
}

impl Editor {
    /// The drawing instructions for one frame of the current state,
    /// exactly as `render_ops` says. The grid must be at least two rows
    /// high for the status line to have its place.
    pub fn render_plan(&self, term_height: usize) -> (ops: Vec<DrawOp>)
        requires
            self.wf(),
            self.cursor.x <= usize::MAX - 21,
            self.cursor.y < usize::MAX,
            term_height >= 2,
        ensures
            plan_view(ops@) == render_ops(self.state(), self.cursor.visible, term_height as nat),
    {
        let ghost s = self.state();
        let n = self.buffer.buffer_text.len();
        let width_digits = fmt_usize(n);
        let w = width_digits.unicode_len();
        proof {
            assert(w == gutter_width(s.lines.len()));
            lemma_dec_rep_len_usize(n as nat);
        }
        let mut ops: Vec<DrawOp> = Vec::new();
        let mut row: usize = 0;
        while row < n
            invariant
                row <= n,
                n == self.buffer.buffer_text@.len(),
                s == self.state(),
                self.wf(),
                w == gutter_width(s.lines.len()),
                w <= 20,
                plan_view(ops@) == rows_ops(s, w as nat, row as nat),
            decreases n - row,
        {
            let ghost ops0 = plan_view(ops@);
            let gutter_text = fmt_line_number(row + 1, w);
            let gutter_style = if row == self.cursor.y {
                Style::GutterActive
            } else {
                Style::GutterInactive
            };
            ops.push(DrawOp { col: 0, row, text: gutter_text, style: gutter_style });
            let line = self.buffer.buffer_text[row].clone();
            ops.push(DrawOp { col: w + 1, row, text: line, style: Style::Plain });
            row += 1;
            proof {
                assert(plan_view(ops@) =~= ops0 + seq![
                    gutter_op(s, w as nat, (row - 1) as nat),
                    text_op(s, w as nat, (row - 1) as nat),
                ]);
                assert(plan_view(ops@) =~= rows_ops(s, w as nat, row as nat));
            }
        }
        if self.cursor.visible {
            let ghost ops0 = plan_view(ops@);
            let mut glyph = String::new();
            let cursor_style: Style;
            if matches!(self.mode, Mode::Insert) {
                push_char(&mut glyph, '|');
                cursor_style = Style::CursorBar;
            } else {
                let len = self.buffer.buffer_text[self.cursor.y].as_str().unicode_len();
                if self.cursor.x < len {
                    let c = self.buffer.buffer_text[self.cursor.y].as_str().get_char(
                        self.cursor.x,
                    );
                    push_char(&mut glyph, c);
                } else {
                    push_char(&mut glyph, ' ');
                }
                cursor_style = Style::CursorBlock;
            }
            ops.push(
                DrawOp {
                    col: w + 1 + self.cursor.x,
                    row: self.cursor.y,
                    text: glyph,
                    style: cursor_style,
                },
            );
            proof {
                assert(glyph@ =~= cursor_glyph(s));
                assert(plan_view(ops@) =~= ops0 + seq![cursor_op(s, w as nat)]);
            }
        }
        let ghost ops1 = plan_view(ops@);
        let status = status_text(self.mode, self.cursor.x, self.cursor.y);
        ops.push(DrawOp { col: 0, row: term_height - 2, text: status, style: Style::StatusBar });
        proof {
            assert(plan_view(ops@) =~= ops1 + seq![status_op(s, term_height as nat)]);
            assert(plan_view(ops@) =~= render_ops(s, self.cursor.visible, term_height as nat));
        }
        ops
    }

    /// One render tick: advance the blink state at `now`, then lay out
    /// the frame for the state as it now is.
    pub fn render(&mut self, now: u64, term_height: usize) -> (ops: Vec<DrawOp>)
        requires
            old(self).wf(),
            old(self).cursor.x <= usize::MAX - 21,
            old(self).cursor.y < usize::MAX,
            term_height >= 2,
        ensures
            final(self).cursor == old(self).cursor.blink_spec(old(self).mode, now),
            final(self).buffer == old(self).buffer,
            final(self).mode == old(self).mode,
            final(self).quit_on_interrupt == old(self).quit_on_interrupt,
            final(self).state() == old(self).state(),
            final(self).wf(),
            plan_view(ops@) == render_ops(
                old(self).state(),
                final(self).cursor.visible,
                term_height as nat,
            ),
    {
        self.update_cursor_blink(now);
        proof {
            assert(self.state() =~~= old(self).state());
        }
        self.render_plan(term_height)
    }
}

} // verus!
