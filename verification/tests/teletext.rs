use zdftext::cell::decode_entities;
use zdftext::color::get_colors_from_classes;
use zdftext::dom::{Element, Node};
use zdftext::glyph::{convert_linedraw_char, convert_linedraw_string};
use zdftext::page::parse_page;
use zdftext::render::{extract_colors, render_page};
use zdftext::{Error, TeletextText};

fn strings(v: &[&str]) -> Vec<String> {
    v.iter().map(|s| s.to_string()).collect()
}

fn elem(name: &str, classes: &[&str], children: Vec<Node>) -> Element {
    Element {
        name: name.to_string(),
        classes: strings(classes),
        children,
    }
}

fn text(t: &str) -> Node {
    Node::Text(t.to_string())
}

#[test]
fn fg_token_yields_value() {
    let r = get_colors_from_classes(&strings(&["c00ff00"]));
    assert_eq!(r, (Some(0x00FF00), None));
}

#[test]
fn bg_token_yields_value() {
    let r = get_colors_from_classes(&strings(&["bcff0000"]));
    assert_eq!(r, (None, Some(0xFF0000)));
}

#[test]
fn hex_payload_lengths_one_to_six() {
    assert_eq!(get_colors_from_classes(&strings(&["cf"])).0, Some(0xF));
    assert_eq!(get_colors_from_classes(&strings(&["cABC"])).0, Some(0xABC));
    assert_eq!(
        get_colors_from_classes(&strings(&["cffffff"])).0,
        Some(0xFFFFFF)
    );
    assert_eq!(
        get_colors_from_classes(&strings(&["bc123456"])).1,
        Some(0x123456)
    );
}

#[test]
fn last_token_of_each_kind_wins() {
    let r = get_colors_from_classes(&strings(&["c1", "c2", "bca", "bcb"]));
    assert_eq!(r, (Some(0x2), Some(0xB)));
}

#[test]
fn malformed_token_is_discarded_silently() {
    // A non-hex payload leaves the previously gathered candidate standing.
    let r = get_colors_from_classes(&strings(&["c12", "czz"]));
    assert_eq!(r, (Some(0x12), None));
    // A payload of more than six digits is not a color token.
    let r = get_colors_from_classes(&strings(&["bc123456", "bc1234567"]));
    assert_eq!(r, (None, Some(0x123456)));
    // An empty payload is not a color token.
    assert_eq!(get_colors_from_classes(&strings(&["c"])), (None, None));
    assert_eq!(get_colors_from_classes(&strings(&["bc"])), (None, None));
}

#[test]
fn no_tokens_yield_no_candidates() {
    assert_eq!(
        get_colors_from_classes(&strings(&["foo", "teletextlinedrawregular"])),
        (None, None)
    );
}

#[test]
fn defaults_apply_without_tokens() {
    let cell = TeletextText::from_element(&elem("td", &["foo"], vec![])).unwrap();
    assert_eq!(cell.text, "");
    assert_eq!(cell.fg_color, 0xFFFFFF);
    assert_eq!(cell.bg_color, 0x000000);
}

#[test]
fn translation_passes_unmapped_characters_through() {
    assert_eq!(convert_linedraw_char('A'), 'A');
    assert_eq!(convert_linedraw_char(convert_linedraw_char('A')), 'A');
    assert_eq!(convert_linedraw_char(' '), ' ');
}

#[test]
fn translation_maps_mosaic_characters() {
    assert_eq!(convert_linedraw_char('\u{21}'), '\u{1FB00}');
    assert_eq!(convert_linedraw_char('\u{35}'), '\u{258C}');
    assert_eq!(convert_linedraw_char('\u{6A}'), '\u{2590}');
    assert_eq!(convert_linedraw_char('\u{7F}'), '\u{2588}');
    assert_eq!(convert_linedraw_string("!A\u{7F}"), "\u{1FB00}A\u{2588}");
}

#[test]
fn entity_decoding_is_noop_without_entities() {
    assert_eq!(decode_entities("hello world"), "hello world");
    assert_eq!(decode_entities(""), "");
}

#[test]
fn entity_decoding_decodes_references() {
    assert_eq!(decode_entities("a &amp; b"), "a & b");
    assert_eq!(decode_entities("&lt;br&gt;"), "<br>");
}

#[test]
fn cell_with_text_child_and_colors() {
    let cell =
        TeletextText::from_element(&elem("td", &["c00ff00", "bcff0000"], vec![text("Hi")]))
            .unwrap();
    assert_eq!(cell.text, "Hi");
    assert_eq!(cell.fg_color, 0x00FF00);
    assert_eq!(cell.bg_color, 0xFF0000);
}

#[test]
fn line_break_yields_blank_sentinel() {
    let cell = TeletextText::from_element(&elem("br", &[], vec![])).unwrap();
    assert_eq!(cell.text, "");
    assert_eq!(cell.fg_color, 0);
    assert_eq!(cell.bg_color, 0);
    // Distinguishable from a default-colored empty cell.
    let empty = TeletextText::from_element(&elem("td", &[], vec![])).unwrap();
    assert_ne!(cell.fg_color, empty.fg_color);
}

#[test]
fn new_and_default_are_the_blank_sentinel() {
    let a = TeletextText::new();
    let b = TeletextText::default();
    assert_eq!(a.text, b.text);
    assert_eq!(a.fg_color, 0);
    assert_eq!(b.bg_color, 0);
}

#[test]
fn nested_foreground_overrides_outer() {
    let nested = elem("span", &["c112233"], vec![text("X")]);
    let cell = TeletextText::from_element(&elem(
        "td",
        &["bc000033"],
        vec![Node::Element(nested)],
    ))
    .unwrap();
    assert_eq!(cell.text, "X");
    assert_eq!(cell.fg_color, 0x112233);
    assert_eq!(cell.bg_color, 0x000033);
}

#[test]
fn nested_without_foreground_keeps_outer() {
    let nested = elem("span", &[], vec![text("Y")]);
    let cell = TeletextText::from_element(&elem(
        "td",
        &["c111111"],
        vec![Node::Element(nested)],
    ))
    .unwrap();
    assert_eq!(cell.text, "Y");
    assert_eq!(cell.fg_color, 0x111111);
}

#[test]
fn nested_background_is_ignored() {
    let nested = elem("span", &["bcff0000"], vec![text("Z")]);
    let cell =
        TeletextText::from_element(&elem("td", &[], vec![Node::Element(nested)])).unwrap();
    assert_eq!(cell.bg_color, 0x000000);
}

#[test]
fn linedraw_marker_translates_cell_text() {
    let cell = TeletextText::from_element(&elem(
        "td",
        &["teletextlinedrawregular"],
        vec![text("!")],
    ))
    .unwrap();
    assert_eq!(cell.text, "\u{1FB00}");
    // A code point absent from the table passes through unchanged.
    let cell = TeletextText::from_element(&elem(
        "td",
        &["teletextlinedrawregular"],
        vec![text("A")],
    ))
    .unwrap();
    assert_eq!(cell.text, "A");
}

#[test]
fn unmarked_cell_text_is_not_translated() {
    let cell = TeletextText::from_element(&elem("td", &[], vec![text("!")])).unwrap();
    assert_eq!(cell.text, "!");
}

#[test]
fn unsupported_first_child_is_invalid() {
    let r = TeletextText::from_element(&elem("td", &[], vec![Node::Other]));
    assert_eq!(r.unwrap_err(), Error::InvalidChild);
}

fn grid_document(rows: Vec<Node>) -> Vec<Node> {
    let grid = elem("div", &[], rows);
    let body = elem(
        "body",
        &[],
        vec![Node::Element(elem("nav", &[], vec![])), Node::Element(grid)],
    );
    let content = elem(
        "html",
        &[],
        vec![Node::Element(elem("head", &[], vec![])), Node::Element(body)],
    );
    vec![Node::Element(content)]
}

#[test]
fn full_document_parses_to_grid() {
    let row1 = elem(
        "tr",
        &[],
        vec![
            Node::Element(elem("td", &["c00ff00"], vec![text("ab")])),
            Node::Element(elem("br", &[], vec![])),
        ],
    );
    let row2 = elem("tr", &[], vec![Node::Element(elem("td", &[], vec![text("c")]))]);
    let doc = grid_document(vec![Node::Element(row1), Node::Element(row2)]);
    let page = parse_page(&doc).unwrap();
    assert_eq!(page.len(), 2);
    assert_eq!(page[0].len(), 2);
    assert_eq!(page[1].len(), 1);
    assert_eq!(page[0][0].text, "ab");
    assert_eq!(page[0][0].fg_color, 0x00FF00);
    assert_eq!(page[0][1].fg_color, 0);
    assert_eq!(page[1][0].text, "c");
}

#[test]
fn too_few_children_on_the_path_is_a_structure_error() {
    // The element that should contain the grid has fewer than two
    // children, so the second-child hop fails and no rows are produced.
    let body = elem("body", &[], vec![Node::Element(elem("nav", &[], vec![]))]);
    let content = elem(
        "html",
        &[],
        vec![Node::Element(elem("head", &[], vec![])), Node::Element(body)],
    );
    let doc = vec![Node::Element(content)];
    let r = parse_page(&doc);
    assert_eq!(r.unwrap_err(), Error::ParseStructure);
}

#[test]
fn empty_document_is_a_structure_error() {
    let r = parse_page(&vec![]);
    assert_eq!(r.unwrap_err(), Error::ParseStructure);
}

#[test]
fn non_element_row_is_a_structure_error() {
    let doc = grid_document(vec![text("not a row")]);
    assert_eq!(parse_page(&doc).unwrap_err(), Error::ParseStructure);
}

#[test]
fn non_element_cell_is_a_structure_error() {
    let row = elem("tr", &[], vec![text("not a cell")]);
    let doc = grid_document(vec![Node::Element(row)]);
    assert_eq!(parse_page(&doc).unwrap_err(), Error::ParseStructure);
}

#[test]
fn invalid_child_propagates_through_the_page() {
    let row = elem(
        "tr",
        &[],
        vec![Node::Element(elem("td", &[], vec![Node::Other]))],
    );
    let doc = grid_document(vec![Node::Element(row)]);
    assert_eq!(parse_page(&doc).unwrap_err(), Error::InvalidChild);
}

#[test]
fn extract_colors_splits_channels() {
    assert_eq!(extract_colors(0x123456), (0x12, 0x34, 0x56));
    assert_eq!(extract_colors(0xFFFFFF), (0xFF, 0xFF, 0xFF));
    assert_eq!(extract_colors(0), (0, 0, 0));
}

#[test]
fn colored_string_is_exact_escape_output() {
    let cell = TeletextText {
        text: "Hi".to_string(),
        fg_color: 0x00FF00,
        bg_color: 0xFF0000,
    };
    assert_eq!(
        cell.to_colored_string(),
        "\u{1b}[48;2;255;0;0m\u{1b}[38;2;0;255;0mHi\u{1b}[m"
    );
}

#[test]
fn rendered_page_terminates_rows_with_newlines() {
    let cell = TeletextText {
        text: "x".to_string(),
        fg_color: 0xFFFFFF,
        bg_color: 0,
    };
    let page = vec![vec![cell], vec![]];
    let out = render_page(&page);
    assert_eq!(
        out,
        "\u{1b}[48;2;0;0;0m\u{1b}[38;2;255;255;255mx\u{1b}[m\n\n"
    );
}

#[test]
fn error_messages() {
    assert_eq!(Error::InvalidChild.message(), "Element has invalid child");
    assert_eq!(
        Error::ParseStructure.message(),
        "Document does not match the teletext page structure"
    );
}
