//! Platforms that keep the preference as a numeric registry value under the
//! current user's personalization key: `0` asks for dark applications.
use vstd::prelude::*;
use crate::Mode;

verus! {

/// The mode that a registry value stands for; an absent value means light.
pub open spec fn mode_of_value(value: Option<u32>) -> Mode {
    if value == Some(0u32) {
        Mode::Dark
    } else {
        Mode::Light
    }
}

/// The mode for the registry value read, or `None` where it could not be read.
pub fn detect(value: Option<u32>) -> (m: Mode)
    ensures
        m == mode_of_value(value),
{
    match value {
        Some(0) => Mode::Dark,
        _ => Mode::Light,
    }
}

} // verus!
