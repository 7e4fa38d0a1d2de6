//! The double tap on Shift that toggles the sidebar.

use vstd::prelude::*;

verus! {

/// How long after a tap on Shift a second one still makes a double tap, in
/// nanoseconds.
pub const DOUBLE_TAP_NANOS: u128 = 350000000;

/// What the window remembers of the taps on Shift.
#[derive(Debug, Clone, Copy, PartialEq, Eq)]
pub struct ShiftTaps {
    /// Whether Shift went down alone and no other key since.
    pub clean: bool,
    /// When a clean tap on Shift last ended, as nanoseconds on a clock that
    /// never goes back.
    pub last_release: Option<u128>,
}

impl Default for ShiftTaps {
    fn default() -> (taps: ShiftTaps)
        ensures
            taps == (ShiftTaps { clean: false, last_release: None }),
    {
        ShiftTaps { clean: false, last_release: None }
    }
}

impl ShiftTaps {
    /// The taps after a key went down. Shift begins a clean tap if no other
    /// modifier is held; any other key spoils the tap.
    pub open spec fn pressed(self, is_shift: bool, other_modifiers: bool) -> ShiftTaps {
        if is_shift {
            if other_modifiers {
                self
            } else {
                ShiftTaps { clean: true, ..self }
            }
        } else {
            ShiftTaps { clean: false, ..self }
        }
    }

    /// Whether the release of Shift at `now` ends a double tap: the tap is
    /// clean, and the clean tap before it ended less than the threshold ago.
    pub open spec fn is_double_tap(self, now: u128) -> bool {
        self.clean && self.last_release is Some && (if now >= self.last_release->0 {
            now - self.last_release->0
        } else {
            0
        }) < DOUBLE_TAP_NANOS
    }

    /// The taps after Shift went up at `now`: a double tap is forgotten, so
    /// that a third tap begins anew; any other clean tap is remembered.
    pub open spec fn released(self, now: u128) -> ShiftTaps {
        if !self.clean {
            self
        } else if self.is_double_tap(now) {
            ShiftTaps { last_release: None, ..self }
        } else {
            ShiftTaps { last_release: Some(now), ..self }
        }
    }

    /// A key went down: Shift if `is_shift`, with or without other modifiers
    /// held.
    pub fn key_pressed(&mut self, is_shift: bool, other_modifiers: bool)
        ensures
            *final(self) == old(self).pressed(is_shift, other_modifiers),
    {
        if is_shift {
            if !other_modifiers {
                self.clean = true;
            }
        } else {
            self.clean = false;
        }
    }

    /// Shift went up at `now`. Tells whether that ends a double tap, which
    /// toggles the sidebar.
    pub fn shift_released(&mut self, now: u128) -> (double_tap: bool)
        ensures
            double_tap == old(self).is_double_tap(now),
            *final(self) == old(self).released(now),
    {
        if !self.clean {
            return false;
        }
        match self.last_release {
            Some(last) => {
                let elapsed = if now >= last {
                    now - last
                } else {
                    0
                };
                if elapsed < DOUBLE_TAP_NANOS {
                    self.last_release = None;
                    return true;
                }
            },
            None => {},
        }
        self.last_release = Some(now);
        false
    }
}

} // verus!
