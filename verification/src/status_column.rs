use vstd::prelude::*;

verus! {

/// Gutter bookkeeping for rendering: which line is active and how many
/// lines the buffer holds. It has no invariants of its own; the caller
/// keeps it in step with the buffer and the cursor.
pub struct StatusColumn {
    pub active_line: usize,
    pub total_lines: usize,
}

impl StatusColumn {
    /// A status column; an absent count stands for zero.
    pub fn new(active_line: Option<usize>, total_lines: Option<usize>) -> (s: StatusColumn)
        ensures
            s.active_line == (match active_line {
                Some(a) => a,
                None => 0usize,
            }),
            s.total_lines == (match total_lines {
                Some(t) => t,
                None => 0usize,
            }),
    {
        StatusColumn {
            active_line: active_line.unwrap_or(0),
            total_lines: total_lines.unwrap_or(0),
        }
    }

    /// Record that the active line moved.
    pub fn move_active_line(&mut self, current_line_in_buffer: usize)
        ensures
            final(self).active_line == current_line_in_buffer,
            final(self).total_lines == old(self).total_lines,
    {
        self.active_line = current_line_in_buffer
    }
}

} // verus!
