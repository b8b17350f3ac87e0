//! How scrollbars are shown, as the `scrollbar-mode` keyword selects it.
use vstd::prelude::*;

use crate::text::names_equal;

verus! {

/// How scrollbars are shown.
#[derive(Debug, Clone, Copy, PartialEq, Structural)]
pub enum ScrollbarMode {
    Auto,
    Classic,
    Overlay,
    /// No scrollbar (the `none` keyword).
    NoScrollbars,
}

impl ScrollbarMode {
    /// The mode a keyword selects: `classic`, `overlay` or `none`; anything
    /// else selects `Auto`.
    pub open spec fn spec_from_keyword(keyword: Seq<char>) -> ScrollbarMode {
        if keyword == "classic"@ {
            ScrollbarMode::Classic
        } else if keyword == "overlay"@ {
            ScrollbarMode::Overlay
        } else if keyword == "none"@ {
            ScrollbarMode::NoScrollbars
        } else {
            ScrollbarMode::Auto
        }
    }

    /// The mode a keyword selects: `classic`, `overlay` or `none`; anything
    /// else selects `Auto`, the empty keyword that stands for a missing value
    /// included.
    pub fn from_css_keyword(keyword: &str) -> (r: ScrollbarMode)
        ensures
            r == Self::spec_from_keyword(keyword@),
    {
        if names_equal(keyword, "classic") {
            ScrollbarMode::Classic
        } else if names_equal(keyword, "overlay") {
            ScrollbarMode::Overlay
        } else if names_equal(keyword, "none") {
            ScrollbarMode::NoScrollbars
        } else {
            ScrollbarMode::Auto
        }
    }
}

} // verus!
