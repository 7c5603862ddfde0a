//! Platforms whose desktop environment reports the theme name through a
//! settings command; a name that mentions dark asks for a dark appearance.
use vstd::prelude::*;
use crate::Mode;
use crate::marker::{contains_folded, dark_marker, mentions_dark};

verus! {

/// The mode that the command's output stands for; a failed command means light.
pub open spec fn mode_of_output(output: Option<Seq<char>>) -> Mode {
    match output {
        Some(text) => if contains_folded(text, dark_marker()) {
            Mode::Dark
        } else {
            Mode::Light
        },
        None => Mode::Light,
    }
}

/// The mode for what the settings command printed, or `None` where the
/// command could not be run or did not succeed.
pub fn detect(output: Option<&str>) -> (m: Mode)
    ensures
        m == mode_of_output(
            match output {
                Some(s) => Some(s@),
                None => None,
            },
        ),
{
    match output {
        Some(text) => if mentions_dark(text) {
            Mode::Dark
        } else {
            Mode::Light
        },
        None => Mode::Light,
    }
}

} // verus!
