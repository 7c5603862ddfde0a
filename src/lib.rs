//! Detect whether the operating system prefers a dark or a light appearance.
//!
//! Each platform keeps the preference somewhere else: a numeric registry
//! value, a string-valued user default, or a theme name that a desktop
//! settings command prints. The caller performs that query and hands the
//! raw answer to [`detect`] as a [`Reading`]; the library decides the mode.
//! Any failed query or unsupported platform resolves to [`Mode::Light`].
use vstd::prelude::*;
use crate::desktop::mode_of_output;
use crate::registry::mode_of_value;
use crate::user_defaults::mode_of_style;

pub mod desktop;
pub mod fallback;
pub mod marker;
pub mod registry;
pub mod user_defaults;
pub mod watcher;

verus! {

/// The operating system's appearance preference.
#[derive(Clone, Copy, Debug, PartialEq, Eq, Structural)]
pub enum Mode {
    Dark,
    Light,
}

/// The raw answer of one platform's settings query.
pub enum Reading {
    /// The personalization registry value, `None` where it could not be read.
    Registry(Option<u32>),
    /// The interface-style user default, `None` where it is not set.
    Preference(Option<String>),
    /// The output of the desktop settings command, `None` where it failed.
    DesktopCommand(Option<String>),
    /// A platform with no known settings query.
    Unsupported,
}

/// The characters of a text that may be missing.
pub open spec fn text_of(text: Option<String>) -> Option<Seq<char>> {
    match text {
        Some(s) => Some(s@),
        None => None,
    }
}

/// The mode that a reading stands for.
pub open spec fn mode_of(reading: Reading) -> Mode {
    match reading {
        Reading::Registry(value) => mode_of_value(value),
        Reading::Preference(style) => mode_of_style(text_of(style)),
        Reading::DesktopCommand(output) => mode_of_output(text_of(output)),
        Reading::Unsupported => Mode::Light,
    }
}

/// The reading says nothing: the query failed, or there is none to make.
pub open spec fn query_failed(reading: Reading) -> bool {
    match reading {
        Reading::Registry(value) => value is None,
        Reading::Preference(style) => style is None,
        Reading::DesktopCommand(output) => output is None,
        Reading::Unsupported => true,
    }
}

/// Decide whether dark or light mode is enabled from what the platform's
/// settings query returned; where it could tell nothing, the mode is light.
pub fn detect(reading: &Reading) -> (m: Mode)
    ensures
        m == mode_of(*reading),
{
    match reading {
        Reading::Registry(value) => registry::detect(*value),
        Reading::Preference(style) => match style {
            Some(s) => user_defaults::detect(Some(s.as_str())),
            None => user_defaults::detect(None),
        },
        Reading::DesktopCommand(output) => match output {
            Some(s) => desktop::detect(Some(s.as_str())),
            None => desktop::detect(None),
        },
        Reading::Unsupported => fallback::detect(),
    }
}

/// Every reading gives one of the two modes, and nothing else.
pub proof fn lemma_mode_is_dark_or_light(reading: Reading)
    ensures
        mode_of(reading) == Mode::Dark || mode_of(reading) == Mode::Light,
{
}

/// Two detections of an unchanged setting agree.
pub proof fn lemma_detect_idempotent(first: Reading, second: Reading)
    requires
        first == second,
    ensures
        mode_of(first) == mode_of(second),
{
}

/// Where the query failed, or the platform has none, the mode is light.
pub proof fn lemma_failed_query_is_light(reading: Reading)
    requires
        query_failed(reading),
    ensures
        mode_of(reading) == Mode::Light,
{
}

} // verus!
