use vstd::prelude::*;

verus! {

/// A keystroke as the dispatch logic sees it. The surrounding program
/// translates whatever its input backend reports into this type before
/// handing it to the editor.
#[derive(Clone, Copy, PartialEq, Eq, Structural, Debug)]
pub enum Key {
    /// A printable character (also carries the letter keys that Normal
    /// mode binds to movement and commands).
    Char(char),
    Left,
    Right,
    Up,
    Down,
    Enter,
    Backspace,
    Esc,
    /// The interrupt chord (control plus 'c'). Deliberately does not end
    /// the session unless the editor is configured to let it.
    Interrupt,
    /// Any key the editor does not bind; always a no-op.
    Other,
}

} // verus!
