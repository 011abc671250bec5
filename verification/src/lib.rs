//! Teletext page decoding: turns a parsed HTML document that mimics a
//! fixed character-cell grid into rows of colored text cells, and renders
//! those cells as terminal escape sequences.

use vstd::prelude::*;

pub mod cell;
pub mod color;
pub mod dom;
pub mod glyph;
pub mod page;
pub mod render;

verus! {

/// The errors of the page-to-grid transformation.
#[derive(Debug, Clone, Copy, PartialEq, Eq, Structural)]
pub enum Error {
    /// A cell element's first child is an unsupported node kind.
    InvalidChild,
    /// The document does not match the fixed navigation path of a
    /// teletext page.
    ParseStructure,
}

impl Error {
    /// A short description of the error, for the caller's display.
    pub fn message(&self) -> (r: String)
        ensures
            *self == Error::InvalidChild ==> r@ == "Element has invalid child"@,
            *self == Error::ParseStructure ==> r@
                == "Document does not match the teletext page structure"@,
    {
        match self {
            Error::InvalidChild => String::from_str("Element has invalid child"),
            Error::ParseStructure => String::from_str(
                "Document does not match the teletext page structure",
            ),
        }
    }
}

/// Relies on std's String::push: appends the given character to the end
/// of the string.
#[verifier::external_body]
pub(crate) fn string_push(s: &mut String, c: char)
    ensures
        final(s)@ == old(s)@.push(c),
{
    s.push(c)
}

/// One colored cell of a teletext grid: a run of text sharing one
/// foreground and one background color (24-bit RGB each).
#[derive(Debug, Clone)]
pub struct TeletextText {
    pub text: String,
    pub fg_color: u32,
    pub bg_color: u32,
}

impl TeletextText {
    /// The blank sentinel cell: no content and no color intent.
    /// Its colors are 0/0, which is never produced by defaulting
    /// (defaults are 0xFFFFFF / 0x000000).
    pub fn new() -> (r: Self)
        ensures
            r.text@ == Seq::<char>::empty(),
            r.fg_color == 0,
            r.bg_color == 0,
    {
        Self { text: String::new(), fg_color: 0, bg_color: 0 }
    }
}

impl Default for TeletextText {
    /// The default cell is the blank sentinel.
    fn default() -> (r: Self)
        ensures
            r.text@ == Seq::<char>::empty(),
            r.fg_color == 0,
            r.bg_color == 0,
    {
        Self::new()
    }
}

} // verus!
