//! Color codec: extracts foreground/background RGB candidates from the
//! CSS-class naming convention of teletext pages.
//!
//! A class `c<hex>` (1-6 hex digits) is a foreground token, `bc<hex>` a
//! background token. Later tokens of the same kind overwrite earlier ones.
//! A token whose payload is not 1-6 hex digits is discarded silently and
//! leaves the previously gathered candidate untouched.

use vstd::prelude::*;

verus! {

/// Whether `c` is an ASCII hexadecimal digit.
pub open spec fn is_hex_digit(c: char) -> bool {
    (0x30 <= c as u32 && c as u32 <= 0x39)  // '0'..='9'
    || (0x61 <= c as u32 && c as u32 <= 0x66)  // 'a'..='f'
    || (0x41 <= c as u32 && c as u32 <= 0x46)  // 'A'..='F'
}

/// Numeric value of a hex digit.
pub open spec fn hex_digit_value(c: char) -> int
    recommends
        is_hex_digit(c),
{
    if 0x30 <= c as u32 && c as u32 <= 0x39 {
        c as u32 - 0x30
    } else if 0x61 <= c as u32 && c as u32 <= 0x66 {
        c as u32 - 0x57
    } else {
        c as u32 - 0x37
    }
}

/// A color payload: 1 to 6 hex digits.
pub open spec fn valid_hex_payload(s: Seq<char>) -> bool {
    1 <= s.len() <= 6 && forall|i: int| 0 <= i < s.len() ==> is_hex_digit(#[trigger] s[i])
}

/// Numeric value of a big-endian hex digit string.
pub open spec fn hex_value(s: Seq<char>) -> int
    decreases s.len(),
{
    if s.len() == 0 {
        0
    } else {
        hex_value(s.drop_last()) * 16 + hex_digit_value(s.last())
    }
}

/// A hex string of at most 6 digits stays under 2^24 (and shorter
/// prefixes under the matching power of 16), so the value fits in
/// 24 bits as the data model promises.
pub proof fn lemma_hex_value_bound(s: Seq<char>)
    requires
        forall|i: int| 0 <= i < s.len() ==> is_hex_digit(#[trigger] s[i]),
    ensures
        0 <= hex_value(s),
        s.len() <= 5 ==> hex_value(s) < 0x100000,
        s.len() <= 6 ==> hex_value(s) < 0x1000000,
    decreases s.len(),
{
    if s.len() > 0 {
        lemma_hex_value_bound(s.drop_last());
        if s.len() <= 6 {
            assert(hex_value(s.drop_last()) < 0x100000);
        }
        if s.len() <= 5 {
            assert(s.drop_last().len() <= 4);
            assert(hex_value(s.drop_last()) * 16 < 0x100000) by {
                lemma_hex_small_prefixes(s.drop_last());
            }
        }
    }
}

/// Helper bounds for the shorter prefix lengths.
proof fn lemma_hex_small_prefixes(s: Seq<char>)
    requires
        forall|i: int| 0 <= i < s.len() ==> is_hex_digit(#[trigger] s[i]),
    ensures
        0 <= hex_value(s),
        s.len() <= 1 ==> hex_value(s) < 0x10,
        s.len() <= 2 ==> hex_value(s) < 0x100,
        s.len() <= 3 ==> hex_value(s) < 0x1000,
        s.len() <= 4 ==> hex_value(s) < 0x10000,
    decreases s.len(),
{
    if s.len() > 0 {
        lemma_hex_small_prefixes(s.drop_last());
    }
}

/// Whether the class carries the background prefix `bc`.
pub open spec fn is_bg_class(s: Seq<char>) -> bool {
    s.len() >= 2 && s[0] == 'b' && s[1] == 'c'
}

/// Whether the class carries the foreground prefix `c` (a `bc` class is
/// claimed by the background rule first).
pub open spec fn is_fg_class(s: Seq<char>) -> bool {
    !is_bg_class(s) && s.len() >= 1 && s[0] == 'c'
}

/// The background value carried by a `bc`-prefixed class, if its payload
/// is well formed.
pub open spec fn bg_token_value(s: Seq<char>) -> Option<u32>
    recommends
        is_bg_class(s),
{
    if valid_hex_payload(s.skip(2)) {
        Some(hex_value(s.skip(2)) as u32)
    } else {
        None
    }
}

/// The foreground value carried by a `c`-prefixed class, if its payload
/// is well formed.
pub open spec fn fg_token_value(s: Seq<char>) -> Option<u32>
    recommends
        is_fg_class(s),
{
    if valid_hex_payload(s.skip(1)) {
        Some(hex_value(s.skip(1)) as u32)
    } else {
        None
    }
}

/// One step of the codec: how a single class updates the gathered
/// `(foreground, background)` candidates.
pub open spec fn apply_class(acc: (Option<u32>, Option<u32>), s: Seq<char>) -> (Option<
    u32,
>, Option<u32>) {
    if is_bg_class(s) {
        match bg_token_value(s) {
            Some(v) => (acc.0, Some(v)),
            None => acc,
        }
    } else if is_fg_class(s) {
        match fg_token_value(s) {
            Some(v) => (Some(v), acc.1),
            None => acc,
        }
    } else {
        acc
    }
}

/// The codec over a whole class list, first to last; the last valid token
/// of each kind wins.
pub open spec fn colors_of_classes(classes: Seq<Seq<char>>) -> (Option<u32>, Option<u32>)
    decreases classes.len(),
{
    if classes.len() == 0 {
        (None, None)
    } else {
        apply_class(colors_of_classes(classes.drop_last()), classes.last())
    }
}

/// The character sequences of a list of class strings.
pub open spec fn class_views(classes: Seq<String>) -> Seq<Seq<char>> {
    classes.map_values(|s: String| s@)
}

/// A missing foreground candidate defaults to white.
pub open spec fn resolve_fg(c: Option<u32>) -> u32 {
    match c {
        Some(v) => v,
        None => 0xFFFFFF,
    }
}

/// A missing background candidate defaults to black.
pub open spec fn resolve_bg(c: Option<u32>) -> u32 {
    match c {
        Some(v) => v,
        None => 0x000000,
    }
}

/// For every well-formed payload `h`, the token `c<h>` carries foreground
/// `hex_value(h)` and the token `bc<h>` carries background `hex_value(h)`;
/// a class list holding just that token resolves to exactly that color.
pub proof fn lemma_color_token_value(h: Seq<char>)
    requires
        valid_hex_payload(h),
    ensures
        fg_token_value(seq!['c'] + h) == Some(hex_value(h) as u32),
        bg_token_value(seq!['b', 'c'] + h) == Some(hex_value(h) as u32),
        colors_of_classes(seq![seq!['c'] + h]) == (Some(hex_value(h) as u32), None::<u32>),
        colors_of_classes(seq![seq!['b', 'c'] + h]) == (
            None::<u32>,
            Some(hex_value(h) as u32),
        ),
{
    let f = seq!['c'] + h;
    let b = seq!['b', 'c'] + h;
    assert(f.skip(1) =~= h);
    assert(b.skip(2) =~= h);
    assert(!is_bg_class(f));
    assert(is_bg_class(b));
    assert(colors_of_classes(Seq::<Seq<char>>::empty()) == (None::<u32>, None::<u32>));
    assert(seq![f].drop_last() =~= Seq::<Seq<char>>::empty());
    assert(seq![b].drop_last() =~= Seq::<Seq<char>>::empty());
    assert(seq![f].last() == f);
    assert(seq![b].last() == b);
}

/// A class list in which no class carries a valid `c`/`bc` token leaves
/// both candidates empty, so a cell built from it gets the defaults:
/// foreground 0xFFFFFF, background 0x000000.
pub proof fn lemma_no_color_tokens(classes: Seq<Seq<char>>)
    requires
        forall|i: int| 0 <= i < classes.len() ==> !(is_bg_class(#[trigger] classes[i])
            && bg_token_value(classes[i]) is Some) && !(is_fg_class(classes[i])
            && fg_token_value(classes[i]) is Some),
    ensures
        colors_of_classes(classes) == (None::<u32>, None::<u32>),
        resolve_fg(colors_of_classes(classes).0) == 0xFFFFFF,
        resolve_bg(colors_of_classes(classes).1) == 0x000000,
    decreases classes.len(),
{
    if classes.len() > 0 {
        lemma_no_color_tokens(classes.drop_last());
    }
}

/// Parses the payload of a color token: the characters of `s` from
/// position `from` on, read as 1-6 hex digits.
fn parse_hex_payload(s: &String, from: usize) -> (r: Option<u32>)
    requires
        from <= s@.len(),
    ensures
        r == (if valid_hex_payload(s@.skip(from as int)) {
            Some(hex_value(s@.skip(from as int)) as u32)
        } else {
            None::<u32>
        }),
{
    let ghost payload = s@.skip(from as int);
    let len = s.as_str().unicode_len();
    let n = len - from;
    if n == 0 || n > 6 {
        return None;
    }
    let mut v: u32 = 0;
    let mut i: usize = from;
    while i < len
        invariant
            from <= i <= len,
            len == s@.len(),
            n == len - from,
            1 <= n <= 6,
            payload == s@.skip(from as int),
            forall|j: int| from <= j < i ==> is_hex_digit(#[trigger] s@[j]),
            v == hex_value(s@.subrange(from as int, i as int)),
        decreases len - i,
    {
        let c = s.as_str().get_char(i);
        let u = c as u32;
        let d: u32;
        if 0x30 <= u && u <= 0x39 {
            d = u - 0x30;
        } else if 0x61 <= u && u <= 0x66 {
            d = u - 0x57;
        } else if 0x41 <= u && u <= 0x46 {
            d = u - 0x37;
        } else {
            proof {
                assert(payload[i - from] == s@[i as int]);
                assert(!valid_hex_payload(payload));
            }
            return None;
        }
        proof {
            let pre = s@.subrange(from as int, i as int);
            assert(pre.len() == i - from <= 5);
            lemma_hex_value_bound(pre);
            assert(v < 0x100000);
            assert(s@.subrange(from as int, i + 1 as int).drop_last() =~= pre);
            assert(s@.subrange(from as int, i + 1 as int).last() == s@[i as int]);
        }
        v = v * 16 + d;
        i = i + 1;
    }
    proof {
        assert(s@.subrange(from as int, len as int) =~= payload);
        assert(valid_hex_payload(payload));
    }
    Some(v)
}

/// Runs the color codec over a class list: the foreground and background
/// candidates carried by its `c`/`bc` tokens, the last valid token of each
/// kind winning, malformed tokens discarded silently.
pub fn get_colors_from_classes(classes: &Vec<String>) -> (r: (Option<u32>, Option<u32>))
    ensures
        r == colors_of_classes(class_views(classes@)),
{
    let mut fg: Option<u32> = None;
    let mut bg: Option<u32> = None;
    let mut idx: usize = 0;
    while idx < classes.len()
        invariant
            idx <= classes@.len(),
            (fg, bg) == colors_of_classes(class_views(classes@).take(idx as int)),
        decreases classes@.len() - idx,
    {
        let cls = &classes[idx];
        let len = cls.as_str().unicode_len();
        if len >= 2 && cls.as_str().get_char(0) == 'b' && cls.as_str().get_char(1) == 'c' {
            if let Some(val) = parse_hex_payload(cls, 2) {
                bg = Some(val);
            }
        } else if len >= 1 && cls.as_str().get_char(0) == 'c' {
            if let Some(val) = parse_hex_payload(cls, 1) {
                fg = Some(val);
            }
        }
        proof {
            let all = class_views(classes@);
            assert(all.take(idx + 1).drop_last() =~= all.take(idx as int));
            assert(all.take(idx + 1).last() == classes@[idx as int]@);
        }
        idx = idx + 1;
    }
    proof {
        assert(class_views(classes@).take(classes@.len() as int) =~= class_views(classes@));
    }
    (fg, bg)
}

} // verus!
