use vstd::prelude::*;

use crate::mode::Mode;

verus! {

/// Default number of milliseconds between blink toggles in Insert mode.
pub const DEFAULT_BLINK_INTERVAL_MS: u64 = 400;

/// The edit position and its visual blink state. `x` is a zero-based
/// character column, `y` a zero-based line index; the position one past
/// the end of a line is a valid column. Timestamps are milliseconds on a
/// caller-supplied monotonic clock.
pub struct Cursor {
    pub x: usize,
    pub y: usize,
    pub visible: bool,
    pub blink_interval: u64,
    pub last_blink: u64,
}

impl Cursor {
    /// What one blink tick at time `now` does to the cursor: Normal mode
    /// forces it visible (navigation never blinks); Insert mode toggles
    /// visibility, and resets the toggle timestamp, each time the blink
    /// interval has elapsed since the last toggle.
    pub open spec fn blink_spec(self, mode: Mode, now: u64) -> Cursor {
        if mode == Mode::Normal {
            Cursor { visible: true, ..self }
        } else if now >= self.last_blink && now - self.last_blink >= self.blink_interval {
            Cursor { visible: !self.visible, last_blink: now, ..self }
        } else {
            self
        }
    }

    /// A visible cursor at the origin with the blink clock at zero.
    pub fn new() -> (c: Cursor)
        ensures
            c.x == 0,
            c.y == 0,
            c.visible,
            c.blink_interval == DEFAULT_BLINK_INTERVAL_MS,
            c.last_blink == 0,
    {
        Cursor {
            x: 0,
            y: 0,
            visible: true,
            blink_interval: DEFAULT_BLINK_INTERVAL_MS,
            last_blink: 0,
        }
    }

    /// Advance the blink state for one render tick at `now` milliseconds.
    pub fn blink(&mut self, mode: Mode, now: u64)
        ensures
            *final(self) == old(self).blink_spec(mode, now),
    {
        if matches!(mode, Mode::Normal) {
            self.visible = true;
        } else if now >= self.last_blink && now - self.last_blink >= self.blink_interval {
            self.visible = !self.visible;
            self.last_blink = now;
        }
    }
}

} // verus!
