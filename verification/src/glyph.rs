//! Glyph translator: remaps teletext semigraphic (line-drawing) code
//! points to terminal-renderable glyphs.
//!
//! The table covers the teletext G1 block-mosaic set: code points
//! 0x21-0x3F and 0x60-0x7F, each standing for a 2x3 pattern of filled
//! cells, remapped to the equivalent Unicode sextant or block-element
//! glyph. Any code point outside the table passes through unchanged.

use vstd::prelude::*;
use crate::string_push;

verus! {

/// Whether `c` lies in the translation table's domain.
pub open spec fn in_table(c: char) -> bool {
    (0x21 <= c as u32 && c as u32 <= 0x3F) || (0x60 <= c as u32 && c as u32 <= 0x7F)
}

/// The translation table: the mapped glyph for a table entry, the
/// character itself otherwise.
pub open spec fn spec_translate_char(c: char) -> char {
    if c == '\u{21}' {
        '\u{1fb00}'
    } else if c == '\u{22}' {
        '\u{1fb01}'
    } else if c == '\u{23}' {
        '\u{1fb02}'
    } else if c == '\u{24}' {
        '\u{1fb03}'
    } else if c == '\u{25}' {
        '\u{1fb04}'
    } else if c == '\u{26}' {
        '\u{1fb05}'
    } else if c == '\u{27}' {
        '\u{1fb06}'
    } else if c == '\u{28}' {
        '\u{1fb07}'
    } else if c == '\u{29}' {
        '\u{1fb08}'
    } else if c == '\u{2a}' {
        '\u{1fb09}'
    } else if c == '\u{2b}' {
        '\u{1fb0a}'
    } else if c == '\u{2c}' {
        '\u{1fb0b}'
    } else if c == '\u{2d}' {
        '\u{1fb0c}'
    } else if c == '\u{2e}' {
        '\u{1fb0d}'
    } else if c == '\u{2f}' {
        '\u{1fb0e}'
    } else if c == '\u{30}' {
        '\u{1fb0f}'
    } else if c == '\u{31}' {
        '\u{1fb10}'
    } else if c == '\u{32}' {
        '\u{1fb11}'
    } else if c == '\u{33}' {
        '\u{1fb12}'
    } else if c == '\u{34}' {
        '\u{1fb13}'
    } else if c == '\u{35}' {
        '\u{258c}'
    } else if c == '\u{36}' {
        '\u{1fb14}'
    } else if c == '\u{37}' {
        '\u{1fb15}'
    } else if c == '\u{38}' {
        '\u{1fb16}'
    } else if c == '\u{39}' {
        '\u{1fb17}'
    } else if c == '\u{3a}' {
        '\u{1fb18}'
    } else if c == '\u{3b}' {
        '\u{1fb19}'
    } else if c == '\u{3c}' {
        '\u{1fb1a}'
    } else if c == '\u{3d}' {
        '\u{1fb1b}'
    } else if c == '\u{3e}' {
        '\u{1fb1c}'
    } else if c == '\u{3f}' {
        '\u{1fb1d}'
    } else if c == '\u{60}' {
        '\u{1fb1e}'
    } else if c == '\u{61}' {
        '\u{1fb1f}'
    } else if c == '\u{62}' {
        '\u{1fb20}'
    } else if c == '\u{63}' {
        '\u{1fb21}'
    } else if c == '\u{64}' {
        '\u{1fb22}'
    } else if c == '\u{65}' {
        '\u{1fb23}'
    } else if c == '\u{66}' {
        '\u{1fb24}'
    } else if c == '\u{67}' {
        '\u{1fb25}'
    } else if c == '\u{68}' {
        '\u{1fb26}'
    } else if c == '\u{69}' {
        '\u{1fb27}'
    } else if c == '\u{6a}' {
        '\u{2590}'
    } else if c == '\u{6b}' {
        '\u{1fb28}'
    } else if c == '\u{6c}' {
        '\u{1fb29}'
    } else if c == '\u{6d}' {
        '\u{1fb2a}'
    } else if c == '\u{6e}' {
        '\u{1fb2b}'
    } else if c == '\u{6f}' {
        '\u{1fb2c}'
    } else if c == '\u{70}' {
        '\u{1fb2d}'
    } else if c == '\u{71}' {
        '\u{1fb2e}'
    } else if c == '\u{72}' {
        '\u{1fb2f}'
    } else if c == '\u{73}' {
        '\u{1fb30}'
    } else if c == '\u{74}' {
        '\u{1fb31}'
    } else if c == '\u{75}' {
        '\u{1fb32}'
    } else if c == '\u{76}' {
        '\u{1fb33}'
    } else if c == '\u{77}' {
        '\u{1fb34}'
    } else if c == '\u{78}' {
        '\u{1fb35}'
    } else if c == '\u{79}' {
        '\u{1fb36}'
    } else if c == '\u{7a}' {
        '\u{1fb37}'
    } else if c == '\u{7b}' {
        '\u{1fb38}'
    } else if c == '\u{7c}' {
        '\u{1fb39}'
    } else if c == '\u{7d}' {
        '\u{1fb3a}'
    } else if c == '\u{7e}' {
        '\u{1fb3b}'
    } else if c == '\u{7f}' {
        '\u{2588}'
    } else {
        c
    }
}

/// Per-character translation lifted to a text: one-to-one, order and
/// length preserving.
pub open spec fn spec_translate_text(s: Seq<char>) -> Seq<char> {
    s.map_values(|c: char| spec_translate_char(c))
}

/// Translation is the identity on characters outside the table, and
/// therefore idempotent there.
pub proof fn lemma_translate_outside_table(c: char)
    requires
        !in_table(c),
    ensures
        spec_translate_char(c) == c,
        spec_translate_char(spec_translate_char(c)) == spec_translate_char(c),
{
}

/// Maps one line-drawing character to its display glyph; characters
/// absent from the table are returned unchanged.
pub fn convert_linedraw_char(linedraw_char: char) -> (r: char)
    ensures
        r == spec_translate_char(linedraw_char),
{
    let c = linedraw_char;
    if c == '\u{21}' {
        '\u{1fb00}'
    } else if c == '\u{22}' {
        '\u{1fb01}'
    } else if c == '\u{23}' {
        '\u{1fb02}'
    } else if c == '\u{24}' {
        '\u{1fb03}'
    } else if c == '\u{25}' {
        '\u{1fb04}'
    } else if c == '\u{26}' {
        '\u{1fb05}'
    } else if c == '\u{27}' {
        '\u{1fb06}'
    } else if c == '\u{28}' {
        '\u{1fb07}'
    } else if c == '\u{29}' {
        '\u{1fb08}'
    } else if c == '\u{2a}' {
        '\u{1fb09}'
    } else if c == '\u{2b}' {
        '\u{1fb0a}'
    } else if c == '\u{2c}' {
        '\u{1fb0b}'
    } else if c == '\u{2d}' {
        '\u{1fb0c}'
    } else if c == '\u{2e}' {
        '\u{1fb0d}'
    } else if c == '\u{2f}' {
        '\u{1fb0e}'
    } else if c == '\u{30}' {
        '\u{1fb0f}'
    } else if c == '\u{31}' {
        '\u{1fb10}'
    } else if c == '\u{32}' {
        '\u{1fb11}'
    } else if c == '\u{33}' {
        '\u{1fb12}'
    } else if c == '\u{34}' {
        '\u{1fb13}'
    } else if c == '\u{35}' {
        '\u{258c}'
    } else if c == '\u{36}' {
        '\u{1fb14}'
    } else if c == '\u{37}' {
        '\u{1fb15}'
    } else if c == '\u{38}' {
        '\u{1fb16}'
    } else if c == '\u{39}' {
        '\u{1fb17}'
    } else if c == '\u{3a}' {
        '\u{1fb18}'
    } else if c == '\u{3b}' {
        '\u{1fb19}'
    } else if c == '\u{3c}' {
        '\u{1fb1a}'
    } else if c == '\u{3d}' {
        '\u{1fb1b}'
    } else if c == '\u{3e}' {
        '\u{1fb1c}'
    } else if c == '\u{3f}' {
        '\u{1fb1d}'
    } else if c == '\u{60}' {
        '\u{1fb1e}'
    } else if c == '\u{61}' {
        '\u{1fb1f}'
    } else if c == '\u{62}' {
        '\u{1fb20}'
    } else if c == '\u{63}' {
        '\u{1fb21}'
    } else if c == '\u{64}' {
        '\u{1fb22}'
    } else if c == '\u{65}' {
        '\u{1fb23}'
    } else if c == '\u{66}' {
        '\u{1fb24}'
    } else if c == '\u{67}' {
        '\u{1fb25}'
    } else if c == '\u{68}' {
        '\u{1fb26}'
    } else if c == '\u{69}' {
        '\u{1fb27}'
    } else if c == '\u{6a}' {
        '\u{2590}'
    } else if c == '\u{6b}' {
        '\u{1fb28}'
    } else if c == '\u{6c}' {
        '\u{1fb29}'
    } else if c == '\u{6d}' {
        '\u{1fb2a}'
    } else if c == '\u{6e}' {
        '\u{1fb2b}'
    } else if c == '\u{6f}' {
        '\u{1fb2c}'
    } else if c == '\u{70}' {
        '\u{1fb2d}'
    } else if c == '\u{71}' {
        '\u{1fb2e}'
    } else if c == '\u{72}' {
        '\u{1fb2f}'
    } else if c == '\u{73}' {
        '\u{1fb30}'
    } else if c == '\u{74}' {
        '\u{1fb31}'
    } else if c == '\u{75}' {
        '\u{1fb32}'
    } else if c == '\u{76}' {
        '\u{1fb33}'
    } else if c == '\u{77}' {
        '\u{1fb34}'
    } else if c == '\u{78}' {
        '\u{1fb35}'
    } else if c == '\u{79}' {
        '\u{1fb36}'
    } else if c == '\u{7a}' {
        '\u{1fb37}'
    } else if c == '\u{7b}' {
        '\u{1fb38}'
    } else if c == '\u{7c}' {
        '\u{1fb39}'
    } else if c == '\u{7d}' {
        '\u{1fb3a}'
    } else if c == '\u{7e}' {
        '\u{1fb3b}'
    } else if c == '\u{7f}' {
        '\u{2588}'
    } else {
        c
    }
}

/// Applies the glyph translation to every character of `text`,
/// preserving order and length.
pub fn convert_linedraw_string(text: &str) -> (r: String)
    ensures
        r@ == spec_translate_text(text@),
        r@.len() == text@.len(),
        forall|i: int| 0 <= i < text@.len() ==> r@[i] == spec_translate_char(#[trigger] text@[i]),
{
    let len = text.unicode_len();
    let mut out = String::new();
    let mut i: usize = 0;
    while i < len
        invariant
            i <= len,
            len == text@.len(),
            out@ == spec_translate_text(text@.take(i as int)),
        decreases len - i,
    {
        let c = text.get_char(i);
        let mapped = convert_linedraw_char(c);
        string_push(&mut out, mapped);
        proof {
            assert(out@ =~= spec_translate_text(text@.take(i + 1)));
        }
        i = i + 1;
    }
    proof {
        assert(text@.take(len as int) =~= text@);
    }
    out
}

} // verus!
