use vstd::prelude::*;

verus! {

/// Interaction mode of the editor. Exactly one is active at a time:
/// Normal interprets keys as navigation and commands, Insert interprets
/// them as text entry.
#[derive(Clone, Copy, PartialEq, Eq, Structural, Debug)]
pub enum Mode {
    Normal,
    Insert,
}

} // verus!
