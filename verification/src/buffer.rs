use vstd::prelude::*;

verus! {

/// The in-memory file content being edited: an ordered list of text
/// lines plus the name it will be saved under. The `lines` and
/// `active_line` fields are denormalized metadata kept by callers.
pub struct Buffer {
    pub lines: usize,
    pub active_line: usize,
    pub buffer_name: String,
    pub buffer_text: Vec<String>,
}

impl Buffer {
    /// The text as a sequence of lines of characters.
    pub open spec fn text(self) -> Seq<Seq<char>> {
        self.buffer_text.deep_view()
    }

    /// A buffer is well formed when it holds at least one line.
    pub open spec fn wf(self) -> bool {
        self.buffer_text@.len() >= 1
    }

    pub fn new(
        lines: usize,
        active_line: usize,
        buffer_name: String,
        buffer_text: Vec<String>,
    ) -> (b: Buffer)
        ensures
            b.lines == lines,
            b.active_line == active_line,
            b.buffer_name@ == buffer_name@,
            b.buffer_text@ == buffer_text@,
    {
        Buffer { lines, active_line, buffer_name, buffer_text }
    }
}

} // verus!
