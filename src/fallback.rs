//! Platforms with no known place for the preference.
use vstd::prelude::*;
use crate::Mode;

verus! {

/// Always light: nothing can be asked here.
pub fn detect() -> (m: Mode)
    ensures
        m == Mode::Light,
{
    Mode::Light
}

} // verus!
