//! Media-query modifiers.
use vstd::prelude::*;

verus! {

/// The modifier in front of a media query.
#[derive(Debug, Clone, Copy, PartialEq, Eq, Structural)]
pub enum MediaModifier {
    Not,
    Only,
}

} // verus!
