//! Cell parser: converts one grid-cell element of the document tree into
//! a `TeletextText`, resolving colors from the element's class list and,
//! for a single nested styling element, overriding the outer foreground
//! with the nested one.

use vstd::prelude::*;
use crate::color::{
    class_views, colors_of_classes, get_colors_from_classes, resolve_bg, resolve_fg,
};
use crate::dom::{Element, Node};
use crate::glyph::{convert_linedraw_string, spec_translate_text};
use crate::{Error, TeletextText};

verus! {

/// The mathematical value of a resolved cell: its text and its 24-bit
/// foreground and background colors.
pub struct CellValue {
    pub text: Seq<char>,
    pub fg: u32,
    pub bg: u32,
}

impl View for TeletextText {
    type V = CellValue;

    open spec fn view(&self) -> CellValue {
        CellValue { text: self.text@, fg: self.fg_color, bg: self.bg_color }
    }
}

/// What html_escape's entity decoding returns for a given text.
pub uninterp spec fn decoded_entities(s: Seq<char>) -> Seq<char>;

/// Relies on html_escape::decode_html_entities: decodes exact named and
/// numeric character references, each of which starts with `&`; a text
/// without `&` holds no reference and comes back unchanged (the decoder
/// returns its input borrowed in that case).
#[verifier::external_body]
fn decode_entities_raw(s: &str) -> (r: String)
    ensures
        r@ == decoded_entities(s@),
        (forall|i: int| 0 <= i < s@.len() ==> s@[i] != '&') ==> r@ == s@,
{
    html_escape::decode_html_entities(s).into_owned()
}

/// Decodes HTML character references in `text`. Decoding is a no-op on a
/// text containing no entities; in particular on one without the `&`
/// that starts every reference.
pub fn decode_entities(text: &str) -> (r: String)
    ensures
        r@ == decoded_entities(text@),
        (forall|i: int| 0 <= i < text@.len() ==> text@[i] != '&') ==> r@ == text@,
{
    decode_entities_raw(text)
}

/// Whether the class list carries the marker that flags a cell for
/// line-drawing glyph translation.
pub open spec fn has_linedraw_marker(classes: Seq<String>) -> bool {
    exists|i: int| 0 <= i < classes.len() && (#[trigger] classes[i])@
        == "teletextlinedrawregular"@
}

fn has_marker(classes: &Vec<String>) -> (r: bool)
    ensures
        r == has_linedraw_marker(classes@),
{
    let needle = String::from_str("teletextlinedrawregular");
    let mut i: usize = 0;
    while i < classes.len()
        invariant
            i <= classes@.len(),
            needle@ == "teletextlinedrawregular"@,
            forall|j: int| 0 <= j < i ==> (#[trigger] classes@[j])@
                != "teletextlinedrawregular"@,
        decreases classes@.len() - i,
    {
        if classes[i] == needle {
            return true;
        }
        i = i + 1;
    }
    false
}

/// The final resolution step of a cell: colors defaulted where absent,
/// and the text passed through the glyph translator when the element
/// carries the line-drawing marker.
pub open spec fn finish_cell(
    text: Seq<char>,
    fg: Option<u32>,
    bg: Option<u32>,
    classes: Seq<String>,
) -> CellValue {
    CellValue {
        text: if has_linedraw_marker(classes) {
            spec_translate_text(text)
        } else {
            text
        },
        fg: resolve_fg(fg),
        bg: resolve_bg(bg),
    }
}

/// The cell a grid-cell element resolves to, or `None` when its first
/// child is an unsupported node kind:
/// - a line-break tag yields the blank sentinel (empty text, colors 0/0);
/// - with no children the cell is empty with the element's own colors;
/// - a text child supplies the cell text, with entities decoded;
/// - an element child supplies its recursively resolved text, and its own
///   class list overrides the outer foreground when it carries one (the
///   nested background is ignored).
pub open spec fn spec_from_element(e: Element) -> Option<CellValue>
    decreases e,
{
    if e.name@ == "br"@ {
        Some(CellValue { text: Seq::empty(), fg: 0, bg: 0 })
    } else {
        let cand = colors_of_classes(class_views(e.classes@));
        if e.children@.len() == 0 {
            Some(finish_cell(Seq::empty(), cand.0, cand.1, e.classes@))
        } else {
            match e.children@[0] {
                Node::Text(t) => Some(
                    finish_cell(decoded_entities(t@), cand.0, cand.1, e.classes@),
                ),
                Node::Element(sub) => match spec_from_element(sub) {
                    None => None,
                    Some(c) => {
                        let sub_fg = colors_of_classes(class_views(sub.classes@)).0;
                        let fg = if sub_fg is Some {
                            sub_fg
                        } else {
                            cand.0
                        };
                        Some(finish_cell(c.text, fg, cand.1, e.classes@))
                    },
                },
                Node::Other => None,
            }
        }
    }
}

impl TeletextText {
    /// Converts one grid-cell element into a resolved cell, or reports
    /// an unsupported first child.
    pub fn from_element(element: &Element) -> (r: Result<TeletextText, Error>)
        ensures
            match spec_from_element(*element) {
                Some(c) => r matches Ok(cell) && cell@ == c,
                None => r == Err::<TeletextText, Error>(Error::InvalidChild),
            },
        decreases *element,
    {
        let br = String::from_str("br");
        if element.name == br {
            return Ok(TeletextText::new());
        }
        let (fg_cand, bg_cand) = get_colors_from_classes(&element.classes);
        if element.children.len() == 0 {
            proof {
                assert(spec_translate_text(Seq::<char>::empty()) =~= Seq::<char>::empty());
            }
            return Ok(
                TeletextText {
                    text: String::new(),
                    fg_color: resolve_fg_exec(fg_cand),
                    bg_color: resolve_bg_exec(bg_cand),
                },
            );
        }
        let text0: String;
        let fg1: Option<u32>;
        match &element.children[0] {
            Node::Text(t) => {
                text0 = decode_entities(t.as_str());
                fg1 = fg_cand;
            },
            Node::Element(sub) => {
                let sub_cell = match TeletextText::from_element(sub) {
                    Ok(c) => c,
                    Err(er) => {
                        return Err(er);
                    },
                };
                let (sub_fg, _sub_bg) = get_colors_from_classes(&sub.classes);
                fg1 = match sub_fg {
                    Some(v) => Some(v),
                    None => fg_cand,
                };
                text0 = sub_cell.text;
            },
            Node::Other => {
                return Err(Error::InvalidChild);
            },
        }
        let text = if has_marker(&element.classes) {
            convert_linedraw_string(text0.as_str())
        } else {
            text0
        };
        Ok(
            TeletextText {
                text,
                fg_color: resolve_fg_exec(fg1),
                bg_color: resolve_bg_exec(bg_cand),
            },
        )
    }
}

fn resolve_fg_exec(c: Option<u32>) -> (r: u32)
    ensures
        r == resolve_fg(c),
{
    match c {
        Some(v) => v,
        None => 0xFFFFFF,
    }
}

fn resolve_bg_exec(c: Option<u32>) -> (r: u32)
    ensures
        r == resolve_bg(c),
{
    match c {
        Some(v) => v,
        None => 0x000000,
    }
}

} // verus!
