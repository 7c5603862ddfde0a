//! Platforms that keep the preference as a string-valued user default naming
//! the interface style; the default is absent when the style is light.
use vstd::prelude::*;
use crate::Mode;
use crate::marker::{contains_folded, dark_marker, fold_case, mentions_dark, occurs_at};

verus! {

/// The mode that a style preference stands for; an absent preference means light.
pub open spec fn mode_of_style(style: Option<Seq<char>>) -> Mode {
    match style {
        Some(s) => if contains_folded(s, dark_marker()) {
            Mode::Dark
        } else {
            Mode::Light
        },
        None => Mode::Light,
    }
}

/// The mode for the style preference read, or `None` where it is absent.
pub fn detect(style: Option<&str>) -> (m: Mode)
    ensures
        m == mode_of_style(
            match style {
                Some(s) => Some(s@),
                None => None,
            },
        ),
{
    match style {
        Some(s) => if mentions_dark(s) {
            Mode::Dark
        } else {
            Mode::Light
        },
        None => Mode::Light,
    }
}

/// A style that spells the dark marker, in any mix of letter case, means dark.
pub proof fn lemma_dark_style_any_case(style: Seq<char>)
    requires
        style.len() == dark_marker().len(),
        forall|j: int| 0 <= j < style.len() ==> #[trigger] fold_case(style[j]) == dark_marker()[j],
    ensures
        mode_of_style(Some(style)) == Mode::Dark,
{
    assert forall|j: int| 0 <= j < dark_marker().len() implies fold_case(#[trigger] style[0 + j])
        == fold_case(dark_marker()[j]) by {
        assert(style[0 + j] == style[j]);
    }
    assert(occurs_at(style, dark_marker(), 0));
}

} // verus!
