//! Page navigator: walks the fixed document shape to the grid container
//! and parses its rows of cells.
//!
//! The path is fixed by the upstream markup generator: the document
//! root's first child, that element's second child (the body
//! equivalent), and that element's second child (the grid container),
//! whose children are the rows; each row's children are the cells. Any
//! missing index or unexpected node kind on the way fails with
//! `Error::ParseStructure`.

use vstd::prelude::*;
use crate::cell::{spec_from_element, CellValue};
use crate::dom::{Element, Node};
use crate::{Error, TeletextText};

verus! {

/// The element at index `i` of a child list, if the index exists and
/// holds an element node.
pub open spec fn child_element(nodes: Seq<Node>, i: int) -> Option<Element> {
    if 0 <= i < nodes.len() {
        match nodes[i] {
            Node::Element(e) => Some(e),
            _ => None,
        }
    } else {
        None
    }
}

/// The cell values of one row of built cells.
pub open spec fn cell_views(row: Seq<TeletextText>) -> Seq<CellValue> {
    row.map_values(|c: TeletextText| c@)
}

/// The cell values of a whole built grid.
pub open spec fn row_views(page: Seq<Vec<TeletextText>>) -> Seq<Seq<CellValue>> {
    page.map_values(|row: Vec<TeletextText>| cell_views(row@))
}

/// The cells of one row, in order, the first failure winning: a
/// non-element child breaks the structure; an unsupported node inside a
/// cell is an invalid child.
pub open spec fn spec_parse_cells(cells: Seq<Node>) -> Result<Seq<CellValue>, Error>
    decreases cells.len(),
{
    if cells.len() == 0 {
        Ok(Seq::empty())
    } else {
        match cells[0] {
            Node::Element(e) => match spec_from_element(e) {
                None => Err(Error::InvalidChild),
                Some(c) => match spec_parse_cells(cells.skip(1)) {
                    Ok(rest) => Ok(seq![c] + rest),
                    Err(er) => Err(er),
                },
            },
            _ => Err(Error::ParseStructure),
        }
    }
}

/// The rows of the grid, in order; every row must be an element node.
pub open spec fn spec_parse_rows(rows: Seq<Node>) -> Result<Seq<Seq<CellValue>>, Error>
    decreases rows.len(),
{
    if rows.len() == 0 {
        Ok(Seq::empty())
    } else {
        match rows[0] {
            Node::Element(row) => match spec_parse_cells(row.children@) {
                Ok(cells) => match spec_parse_rows(rows.skip(1)) {
                    Ok(rest) => Ok(seq![cells] + rest),
                    Err(er) => Err(er),
                },
                Err(er) => Err(er),
            },
            _ => Err(Error::ParseStructure),
        }
    }
}

/// The full page: the grid container reached from the document root by
/// the fixed path (first child, second child, second child), and its
/// children parsed as rows.
pub open spec fn spec_parse_page(doc: Seq<Node>) -> Result<Seq<Seq<CellValue>>, Error> {
    match child_element(doc, 0) {
        None => Err(Error::ParseStructure),
        Some(content) => match child_element(content.children@, 1) {
            None => Err(Error::ParseStructure),
            Some(body) => match child_element(body.children@, 1) {
                None => Err(Error::ParseStructure),
                Some(grid) => spec_parse_rows(grid.children@),
            },
        },
    }
}

fn get_child_element(nodes: &Vec<Node>, i: usize) -> (r: Result<&Element, Error>)
    ensures
        match child_element(nodes@, i as int) {
            Some(e) => r matches Ok(el) && *el == e,
            None => r == Err::<&Element, Error>(Error::ParseStructure),
        },
{
    if i < nodes.len() {
        match &nodes[i] {
            Node::Element(e) => Ok(e),
            _ => Err(Error::ParseStructure),
        }
    } else {
        Err(Error::ParseStructure)
    }
}

fn parse_cells(cells: &Vec<Node>) -> (r: Result<Vec<TeletextText>, Error>)
    ensures
        match spec_parse_cells(cells@) {
            Ok(s) => r matches Ok(row) && cell_views(row@) == s,
            Err(er) => r == Err::<Vec<TeletextText>, Error>(er),
        },
{
    let mut out: Vec<TeletextText> = Vec::new();
    let mut i: usize = 0;
    proof {
        assert(cells@.skip(0) =~= cells@);
        assert(cell_views(out@) =~= Seq::<CellValue>::empty());
    }
    while i < cells.len()
        invariant
            i <= cells@.len(),
            spec_parse_cells(cells@) == (match spec_parse_cells(cells@.skip(i as int)) {
                Ok(rest) => Ok::<Seq<CellValue>, Error>(cell_views(out@) + rest),
                Err(er) => Err(er),
            }),
        decreases cells@.len() - i,
    {
        let ghost suf = cells@.skip(i as int);
        proof {
            assert(suf[0] == cells@[i as int]);
            assert(suf.skip(1) =~= cells@.skip(i + 1));
        }
        match &cells[i] {
            Node::Element(e) => {
                match TeletextText::from_element(e) {
                    Ok(cell) => {
                        let ghost old_out = out@;
                        out.push(cell);
                        proof {
                            let c = spec_from_element(*e)->Some_0;
                            assert(cell_views(out@) =~= cell_views(old_out) + seq![c]);
                            if spec_parse_cells(cells@.skip(i + 1)) is Ok {
                                let rest = spec_parse_cells(cells@.skip(i + 1))->Ok_0;
                                assert((cell_views(old_out) + (seq![c] + rest)) =~= (
                                cell_views(old_out) + seq![c]) + rest);
                            }
                        }
                    },
                    Err(er) => {
                        return Err(er);
                    },
                }
            },
            _ => {
                return Err(Error::ParseStructure);
            },
        }
        i = i + 1;
    }
    proof {
        assert(cells@.skip(cells@.len() as int) =~= Seq::<Node>::empty());
        assert(cell_views(out@) + Seq::<CellValue>::empty() =~= cell_views(out@));
    }
    Ok(out)
}

fn parse_rows(rows: &Vec<Node>) -> (r: Result<Vec<Vec<TeletextText>>, Error>)
    ensures
        match spec_parse_rows(rows@) {
            Ok(s) => r matches Ok(page) && row_views(page@) == s,
            Err(er) => r == Err::<Vec<Vec<TeletextText>>, Error>(er),
        },
{
    let mut out: Vec<Vec<TeletextText>> = Vec::new();
    let mut i: usize = 0;
    proof {
        assert(rows@.skip(0) =~= rows@);
        assert(row_views(out@) =~= Seq::<Seq<CellValue>>::empty());
    }
    while i < rows.len()
        invariant
            i <= rows@.len(),
            spec_parse_rows(rows@) == (match spec_parse_rows(rows@.skip(i as int)) {
                Ok(rest) => Ok::<Seq<Seq<CellValue>>, Error>(row_views(out@) + rest),
                Err(er) => Err(er),
            }),
        decreases rows@.len() - i,
    {
        let ghost suf = rows@.skip(i as int);
        proof {
            assert(suf[0] == rows@[i as int]);
            assert(suf.skip(1) =~= rows@.skip(i + 1));
        }
        match &rows[i] {
            Node::Element(row_el) => {
                match parse_cells(&row_el.children) {
                    Ok(row) => {
                        let ghost old_out = out@;
                        let ghost cs = cell_views(row@);
                        out.push(row);
                        proof {
                            assert(row_views(out@) =~= row_views(old_out) + seq![cs]);
                            if spec_parse_rows(rows@.skip(i + 1)) is Ok {
                                let rest = spec_parse_rows(rows@.skip(i + 1))->Ok_0;
                                assert((row_views(old_out) + (seq![cs] + rest)) =~= (
                                row_views(old_out) + seq![cs]) + rest);
                            }
                        }
                    },
                    Err(er) => {
                        return Err(er);
                    },
                }
            },
            _ => {
                return Err(Error::ParseStructure);
            },
        }
        i = i + 1;
    }
    proof {
        assert(rows@.skip(rows@.len() as int) =~= Seq::<Node>::empty());
        assert(row_views(out@) + Seq::<Seq<CellValue>>::empty() =~= row_views(out@));
    }
    Ok(out)
}

/// Walks the fixed document shape to the grid container and converts it
/// into the teletext grid: rows of resolved cells, in source order.
pub fn parse_page(doc: &Vec<Node>) -> (r: Result<Vec<Vec<TeletextText>>, Error>)
    ensures
        match spec_parse_page(doc@) {
            Ok(s) => r matches Ok(page) && row_views(page@) == s,
            Err(er) => r == Err::<Vec<Vec<TeletextText>>, Error>(er),
        },
{
    let content = match get_child_element(doc, 0) {
        Ok(e) => e,
        Err(er) => {
            return Err(er);
        },
    };
    let body = match get_child_element(&content.children, 1) {
        Ok(e) => e,
        Err(er) => {
            return Err(er);
        },
    };
    let grid = match get_child_element(&body.children, 1) {
        Ok(e) => e,
        Err(er) => {
            return Err(er);
        },
    };
    parse_rows(&grid.children)
}

} // verus!
