//! Waiting for the appearance preference to change, by polling.
//!
//! The caller takes a first detection as the baseline and then detects again
//! as often as it likes; the first detection that differs from the baseline
//! is the new mode, and the wait ends there.
use vstd::prelude::*;
use crate::Mode;

verus! {

/// A wait for the mode to leave `baseline`.
pub struct Watcher {
    pub baseline: Mode,
}

impl Watcher {
    /// Start waiting for the mode to differ from `baseline`.
    pub fn new(baseline: Mode) -> (w: Watcher)
        ensures
            w.baseline == baseline,
    {
        Watcher { baseline }
    }

    /// The mode the wait started from.
    pub fn baseline(&self) -> (m: Mode)
        ensures
            m == self.baseline,
    {
        self.baseline
    }

    /// Take one more detection: `Some` of it where it left the baseline, which
    /// ends the wait, and `None` while it has not.
    pub fn observe(&self, current: Mode) -> (r: Option<Mode>)
        ensures
            r == (if current == self.baseline {
                None
            } else {
                Some(current)
            }),
    {
        if current == self.baseline {
            None
        } else {
            Some(current)
        }
    }
}

} // verus!
