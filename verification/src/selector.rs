//! Parsed selectors: compound selectors with their attribute and pseudo parts.
use vstd::prelude::*;

use crate::css_pseudo::CssPseudo;

verus! {

/// One compound selector: an optional tag, classes, an optional id,
/// attribute tests and pseudo-classes or -elements.
#[derive(Debug, Clone, PartialEq)]
pub struct CompoundSelector {
    pub tag: Option<String>,
    pub classes: Vec<String>,
    pub id: Option<String>,
    pub attrs: Vec<AttributeSelector>,
    pub pseudos: Vec<PseudoSelector>,
}

impl Default for CompoundSelector {
    fn default() -> (r: Self)
        ensures
            r.tag is None,
            r.classes@.len() == 0,
            r.id is None,
            r.attrs@.len() == 0,
            r.pseudos@.len() == 0,
    {
        CompoundSelector {
            tag: None,
            classes: Vec::new(),
            id: None,
            attrs: Vec::new(),
            pseudos: Vec::new(),
        }
    }
}

/// An attribute test such as `[lang|="en" i]`.
#[derive(Debug, Clone, PartialEq)]
pub struct AttributeSelector {
    pub name: String,
    pub op: Option<AttrOp>,
    pub value: Option<String>,
    pub modifier: Option<char>,
}

/// How an attribute test compares the attribute's value.
#[derive(Debug, Clone, Copy, PartialEq, Eq, Structural)]
pub enum AttrOp {
    /// `=`
    Eq,
    /// `*=`
    Contains,
    /// `^=`
    StartsWith,
    /// `$=`
    EndsWith,
    /// `~=`
    Includes,
    /// `|=`
    Hyphen,
}

/// A pseudo-class or pseudo-element with its argument, if any.
#[derive(Debug, Clone, PartialEq)]
pub struct PseudoSelector {
    pub pseudo: CssPseudo,
    pub arg: Option<String>,
}

} // verus!
