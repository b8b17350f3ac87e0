//! Selector arguments of the node query methods.
use vstd::prelude::*;

verus! {

/// A selector as the node query methods take it.
pub struct QuerySelector {}

} // verus!
