//! Renderer: turns the teletext grid into colored terminal output, one
//! line per row, cells concatenated without separators, each cell
//! wrapped in its own color escape sequences and followed by a reset.

use vstd::prelude::*;
use crate::cell::CellValue;
use crate::page::{cell_views, row_views};
use crate::string_push;
use crate::TeletextText;

verus! {

/// The red channel of a packed 24-bit color.
pub open spec fn spec_red(v: u32) -> u8 {
    ((v >> 16) & 0xFF) as u8
}

/// The green channel of a packed 24-bit color.
pub open spec fn spec_green(v: u32) -> u8 {
    ((v >> 8) & 0xFF) as u8
}

/// The blue channel of a packed 24-bit color.
pub open spec fn spec_blue(v: u32) -> u8 {
    (v & 0xFF) as u8
}

/// Splits a combined RGB value into its red, green and blue channels.
pub fn extract_colors(combined_colors: u32) -> (r: (u8, u8, u8))
    ensures
        r.0 == spec_red(combined_colors),
        r.1 == spec_green(combined_colors),
        r.2 == spec_blue(combined_colors),
{
    let red = ((combined_colors >> 16) & 0xFF) as u8;
    let green = ((combined_colors >> 8) & 0xFF) as u8;
    let blue = (combined_colors & 0xFF) as u8;
    (red, green, blue)
}

/// The decimal digit `d` as a character.
pub open spec fn digit_char(d: int) -> char {
    if d == 0 {
        '0'
    } else if d == 1 {
        '1'
    } else if d == 2 {
        '2'
    } else if d == 3 {
        '3'
    } else if d == 4 {
        '4'
    } else if d == 5 {
        '5'
    } else if d == 6 {
        '6'
    } else if d == 7 {
        '7'
    } else if d == 8 {
        '8'
    } else {
        '9'
    }
}

/// The decimal representation of `n`, without padding.
pub open spec fn dec_rep(n: int) -> Seq<char>
    recommends
        0 <= n,
    decreases n,
{
    if n <= 9 {
        seq![digit_char(n)]
    } else {
        dec_rep(n / 10).push(digit_char(n % 10))
    }
}

/// The ANSI true-color foreground sequence for the given channels.
pub open spec fn fg_escape(r: u8, g: u8, b: u8) -> Seq<char> {
    seq!['\u{1b}', '[', '3', '8', ';', '2', ';'] + dec_rep(r as int) + seq![';'] + dec_rep(
        g as int,
    ) + seq![';'] + dec_rep(b as int) + seq!['m']
}

/// The ANSI true-color background sequence for the given channels.
pub open spec fn bg_escape(r: u8, g: u8, b: u8) -> Seq<char> {
    seq!['\u{1b}', '[', '4', '8', ';', '2', ';'] + dec_rep(r as int) + seq![';'] + dec_rep(
        g as int,
    ) + seq![';'] + dec_rep(b as int) + seq!['m']
}

/// The ANSI sequence resetting all SGR parameters.
pub open spec fn reset_escape() -> Seq<char> {
    seq!['\u{1b}', '[', 'm']
}

/// Relies on termion::color::Rgb::fg_string: the ANSI foreground
/// sequence "\x1B[38;2;<r>;<g>;<b>m" with unpadded decimal channels.
#[verifier::external_body]
fn fg_escape_str(r: u8, g: u8, b: u8) -> (s: String)
    ensures
        s@ == fg_escape(r, g, b),
{
    termion::color::Rgb(r, g, b).fg_string()
}

/// Relies on termion::color::Rgb::bg_string: the ANSI background
/// sequence "\x1B[48;2;<r>;<g>;<b>m" with unpadded decimal channels.
#[verifier::external_body]
fn bg_escape_str(r: u8, g: u8, b: u8) -> (s: String)
    ensures
        s@ == bg_escape(r, g, b),
{
    termion::color::Rgb(r, g, b).bg_string()
}

/// Relies on termion::style::Reset's Display: the ANSI reset "\x1B[m".
#[verifier::external_body]
fn reset_str() -> (s: String)
    ensures
        s@ == reset_escape(),
{
    format!("{}", termion::style::Reset)
}

/// One rendered cell: background and foreground escapes, the text, and a
/// style reset.
pub open spec fn rendered_cell(c: CellValue) -> Seq<char> {
    bg_escape(spec_red(c.bg), spec_green(c.bg), spec_blue(c.bg)) + fg_escape(
        spec_red(c.fg),
        spec_green(c.fg),
        spec_blue(c.fg),
    ) + c.text + reset_escape()
}

/// One rendered row: its cells in order, with no separator between them.
pub open spec fn rendered_cells(row: Seq<CellValue>) -> Seq<char>
    decreases row.len(),
{
    if row.len() == 0 {
        Seq::empty()
    } else {
        rendered_cells(row.drop_last()) + rendered_cell(row.last())
    }
}

/// The rendered page: each row's cells followed by a row terminator.
pub open spec fn rendered_page(page: Seq<Seq<CellValue>>) -> Seq<char>
    decreases page.len(),
{
    if page.len() == 0 {
        Seq::empty()
    } else {
        rendered_page(page.drop_last()) + rendered_cells(page.last()) + seq!['\n']
    }
}

impl TeletextText {
    /// The cell as terminal output: its background and foreground escape
    /// sequences, its text, and a style reset.
    pub fn to_colored_string(&self) -> (r: String)
        ensures
            r@ == rendered_cell(self@),
    {
        let (bg_r, bg_g, bg_b) = extract_colors(self.bg_color);
        let (fg_r, fg_g, fg_b) = extract_colors(self.fg_color);
        let mut out = bg_escape_str(bg_r, bg_g, bg_b);
        let fg_part = fg_escape_str(fg_r, fg_g, fg_b);
        out.append(fg_part.as_str());
        out.append(self.text.as_str());
        let reset = reset_str();
        out.append(reset.as_str());
        out
    }
}

/// Renders the whole grid: for each row in order, each cell's colored
/// text with no separator, and a newline after the last cell of the row.
pub fn render_page(page: &Vec<Vec<TeletextText>>) -> (r: String)
    ensures
        r@ == rendered_page(row_views(page@)),
{
    let mut out = String::new();
    let mut i: usize = 0;
    proof {
        assert(row_views(page@).take(0) =~= Seq::<Seq<CellValue>>::empty());
    }
    while i < page.len()
        invariant
            i <= page@.len(),
            out@ == rendered_page(row_views(page@).take(i as int)),
        decreases page@.len() - i,
    {
        let row = &page[i];
        let ghost rv = cell_views(row@);
        let mut j: usize = 0;
        proof {
            assert(rv.take(0) =~= Seq::<CellValue>::empty());
        }
        while j < row.len()
            invariant
                j <= row@.len(),
                rv == cell_views(row@),
                out@ == rendered_page(row_views(page@).take(i as int)) + rendered_cells(
                    rv.take(j as int),
                ),
            decreases row@.len() - j,
        {
            let colored = row[j].to_colored_string();
            out.append(colored.as_str());
            proof {
                assert(rv.take(j + 1).drop_last() =~= rv.take(j as int));
                assert(rv.take(j + 1).last() == row@[j as int]@);
            }
            j = j + 1;
        }
        string_push(&mut out, '\n');
        proof {
            assert(rv.take(row@.len() as int) =~= rv);
            let rows = row_views(page@);
            assert(rows.take(i + 1).drop_last() =~= rows.take(i as int));
            assert(rows.take(i + 1).last() == rv);
            assert(out@ =~= rendered_page(rows.take(i + 1)));
        }
        i = i + 1;
    }
    proof {
        assert(row_views(page@).take(page@.len() as int) =~= row_views(page@));
    }
    out
}

} // verus!
