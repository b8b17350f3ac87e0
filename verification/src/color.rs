//! CSS colour values as written.
use vstd::prelude::*;

verus! {

/// A CSS colour as it was written: a functional notation with its channels, a
/// hex literal or a named colour.
#[derive(Debug, Clone, PartialEq, Eq, Hash)]
pub enum CssColor {
    Rgb(u8, u8, u8),
    Rgba(u8, u8, u8, u8),
    Hsl(u16, u8, u8),
    Hsla(u16, u8, u8, u8),
    Hwb(u16, u8, u8),
    Hwba(u16, u8, u8, u8),
    Hex(String),
    Named(String),
}

} // verus!
