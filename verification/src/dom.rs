//! The generic parsed document tree the library works on.
//!
//! An external HTML parser produces a tree of this shape; the caller
//! converts its output into these nodes before handing them to the page
//! navigator and the cell parser.

use vstd::prelude::*;

verus! {

/// One node of the parsed document tree: an element with tag name,
/// class list and children; a text node; or any other, unsupported node
/// kind (a comment, for instance).
pub enum Node {
    Element(Element),
    Text(String),
    Other,
}

/// An element node of the parsed document tree.
pub struct Element {
    pub name: String,
    pub classes: Vec<String>,
    pub children: Vec<Node>,
}

} // verus!
