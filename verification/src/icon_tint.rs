//! Accent colours: parsing `#rgb` / `#rrggbb` settings values and deciding
//! whether the branded icons need recolouring.

use vstd::prelude::*;
use crate::text_chars::{chars_of, trim, trim_chars};

verus! {

/// Default Handy pink in the branded PNG assets (`#faa2ca`).
pub const DEFAULT_ACCENT: (u8, u8, u8) = (250, 162, 202);

/// The value of an ASCII hexadecimal digit, in either case.
pub open spec fn hex_value(c: char) -> Option<u8> {
    if '0' <= c <= '9' {
        Some(((c as u32) - 48) as u8)
    } else if 'a' <= c <= 'f' {
        Some(((c as u32) - 87) as u8)
    } else if 'A' <= c <= 'F' {
        Some(((c as u32) - 55) as u8)
    } else {
        None
    }
}

/// `s` without one leading `#`.
pub open spec fn strip_hash(s: Seq<char>) -> Seq<char> {
    if s.len() > 0 && s[0] == '#' {
        s.drop_first()
    } else {
        s
    }
}

/// A settings colour as RGB bytes. The value, white space around it
/// ignored and one leading `#` dropped, is either six hexadecimal digits
/// (two per channel, `rrggbb`) or three (one per channel, `rgb`, where a
/// digit `x` stands for `xx`); any other value is no colour.
pub open spec fn hex_color(value: Seq<char>) -> Option<(u8, u8, u8)> {
    let h = strip_hash(trim(value));
    if trim(value).len() == 0 {
        None
    } else if h.len() == 6 {
        match (hex_value(h[0]), hex_value(h[1]), hex_value(h[2]), hex_value(h[3]), hex_value(h[4]), hex_value(h[5])) {
            (Some(r1), Some(r2), Some(g1), Some(g2), Some(b1), Some(b2)) => Some(
                ((r1 * 16 + r2) as u8, (g1 * 16 + g2) as u8, (b1 * 16 + b2) as u8),
            ),
            _ => None,
        }
    } else if h.len() == 3 {
        match (hex_value(h[0]), hex_value(h[1]), hex_value(h[2])) {
            (Some(r), Some(g), Some(b)) => Some(((r * 17) as u8, (g * 17) as u8, (b * 17) as u8)),
            _ => None,
        }
    } else {
        None
    }
}

/// The hexadecimal digits in their order, lower case.
pub open spec fn hex_digits_lower() -> Seq<char> {
    "0123456789abcdef"@
}

/// The hexadecimal digits in their order, upper case.
pub open spec fn hex_digits_upper() -> Seq<char> {
    "0123456789ABCDEF"@
}

/// The hexadecimal digits are exactly `0`-`9`, `a`-`f` and `A`-`F`, each
/// worth its place in the digit order (`a` and `A` are 10, `f` and `F` 15):
/// the digit at place `i` of either case has value `i`, and a character with
/// a value `v` is the digit at place `v` in one of the two cases.
pub proof fn lemma_hex_digit_values(i: int, c: char)
    ensures
        0 <= i < 16 ==> hex_value(hex_digits_lower()[i]) == Some(i as u8) && hex_value(hex_digits_upper()[i])
            == Some(i as u8),
        hex_value(c) matches Some(v) ==> v < 16 && (c == hex_digits_lower()[v as int] || c
            == hex_digits_upper()[v as int]),
{
    reveal_strlit("0123456789abcdef");
    reveal_strlit("0123456789ABCDEF");
    let lower = hex_digits_lower();
    let upper = hex_digits_upper();
    if 0 <= i < 16 {
        if i == 0 {
            assert(lower[0] == '0' && upper[0] == '0');
        } else if i == 1 {
            assert(lower[1] == '1' && upper[1] == '1');
        } else if i == 2 {
            assert(lower[2] == '2' && upper[2] == '2');
        } else if i == 3 {
            assert(lower[3] == '3' && upper[3] == '3');
        } else if i == 4 {
            assert(lower[4] == '4' && upper[4] == '4');
        } else if i == 5 {
            assert(lower[5] == '5' && upper[5] == '5');
        } else if i == 6 {
            assert(lower[6] == '6' && upper[6] == '6');
        } else if i == 7 {
            assert(lower[7] == '7' && upper[7] == '7');
        } else if i == 8 {
            assert(lower[8] == '8' && upper[8] == '8');
        } else if i == 9 {
            assert(lower[9] == '9' && upper[9] == '9');
        } else if i == 10 {
            assert(lower[10] == 'a' && upper[10] == 'A');
        } else if i == 11 {
            assert(lower[11] == 'b' && upper[11] == 'B');
        } else if i == 12 {
            assert(lower[12] == 'c' && upper[12] == 'C');
        } else if i == 13 {
            assert(lower[13] == 'd' && upper[13] == 'D');
        } else if i == 14 {
            assert(lower[14] == 'e' && upper[14] == 'E');
        } else if i == 15 {
            assert(lower[15] == 'f' && upper[15] == 'F');
        }
    }
    if hex_value(c) is Some {
        let v = hex_value(c)->0;
        if v == 0 {
            assert(lower[0] == '0' && upper[0] == '0');
        } else if v == 1 {
            assert(lower[1] == '1' && upper[1] == '1');
        } else if v == 2 {
            assert(lower[2] == '2' && upper[2] == '2');
        } else if v == 3 {
            assert(lower[3] == '3' && upper[3] == '3');
        } else if v == 4 {
            assert(lower[4] == '4' && upper[4] == '4');
        } else if v == 5 {
            assert(lower[5] == '5' && upper[5] == '5');
        } else if v == 6 {
            assert(lower[6] == '6' && upper[6] == '6');
        } else if v == 7 {
            assert(lower[7] == '7' && upper[7] == '7');
        } else if v == 8 {
            assert(lower[8] == '8' && upper[8] == '8');
        } else if v == 9 {
            assert(lower[9] == '9' && upper[9] == '9');
        } else if v == 10 {
            assert(lower[10] == 'a' && upper[10] == 'A');
        } else if v == 11 {
            assert(lower[11] == 'b' && upper[11] == 'B');
        } else if v == 12 {
            assert(lower[12] == 'c' && upper[12] == 'C');
        } else if v == 13 {
            assert(lower[13] == 'd' && upper[13] == 'D');
        } else if v == 14 {
            assert(lower[14] == 'e' && upper[14] == 'E');
        } else if v == 15 {
            assert(lower[15] == 'f' && upper[15] == 'F');
        }
    }
}

/// A colour written with six hexadecimal digits reads the same with or
/// without its `#`, each channel being sixteen times its first digit plus
/// its second; with three digits, each channel is seventeen times its digit.
pub proof fn lemma_hex_color_digits(h: Seq<char>)
    requires
        h.len() == 6 || h.len() == 3,
        forall|i: int| 0 <= i < h.len() ==> #[trigger] hex_value(h[i]) is Some,
    ensures
        hex_color(seq!['#'] + h) == hex_color(h),
        h.len() == 6 ==> hex_color(h) == Some(
            (
                (16 * (hex_value(h[0])->0) + hex_value(h[1])->0) as u8,
                (16 * (hex_value(h[2])->0) + hex_value(h[3])->0) as u8,
                (16 * (hex_value(h[4])->0) + hex_value(h[5])->0) as u8,
            ),
        ),
        h.len() == 3 ==> hex_color(h) == Some(
            (
                (17 * (hex_value(h[0])->0)) as u8,
                (17 * (hex_value(h[1])->0)) as u8,
                (17 * (hex_value(h[2])->0)) as u8,
            ),
        ),
{
    let hh = seq!['#'] + h;
    assert(hex_value(h[0]) is Some);
    assert(hex_value(h[h.len() - 1]) is Some);
    assert(!crate::text_chars::is_white_space(h[0]));
    assert(!crate::text_chars::is_white_space(h.last()));
    assert(trim(h) == h) by {
        assert(crate::text_chars::trim_start(h) == h);
        assert(crate::text_chars::trim_end(h) == h);
    }
    assert(hh[0] == '#');
    assert(hh.last() == h.last());
    assert(trim(hh) == hh) by {
        assert(crate::text_chars::trim_start(hh) == hh);
        assert(crate::text_chars::trim_end(hh) == hh);
    }
    assert(hh.drop_first() =~= h);
    assert(strip_hash(h) == h);
}

fn hex_value_exec(c: char) -> (res: Option<u8>)
    ensures
        res == hex_value(c),
{
    if '0' <= c && c <= '9' {
        Some(((c as u32) - 48) as u8)
    } else if 'a' <= c && c <= 'f' {
        Some(((c as u32) - 87) as u8)
    } else if 'A' <= c && c <= 'F' {
        Some(((c as u32) - 55) as u8)
    } else {
        None
    }
}

/// The byte that the two hexadecimal digits at `i` and `i + 1` write.
fn hex_pair(h: &Vec<char>, i: usize) -> (res: Option<u8>)
    requires
        h@.len() == 6,
        i <= 4,
    ensures
        res == (match (hex_value(h@[i as int]), hex_value(h@[i + 1])) {
            (Some(a), Some(b)) => Some((a * 16 + b) as u8),
            _ => None,
        }),
{
    match (hex_value_exec(h[i]), hex_value_exec(h[i + 1])) {
        (Some(a), Some(b)) => Some(a * 16 + b),
        _ => None,
    }
}

/// The byte that the single hexadecimal digit at `i` stands for (the digit
/// written twice).
fn hex_single(h: &Vec<char>, i: usize) -> (res: Option<u8>)
    requires
        h@.len() == 3,
        i < 3,
    ensures
        res == (match hex_value(h@[i as int]) {
            Some(a) => Some((a * 17) as u8),
            None => None,
        }),
{
    match hex_value_exec(h[i]) {
        Some(a) => Some(a * 17),
        None => None,
    }
}

/// Parse `#rgb` or `#rrggbb` into RGB bytes (see `hex_color`).
pub fn parse_hex_color(value: &str) -> (res: Option<(u8, u8, u8)>)
    ensures
        res == hex_color(value@),
{
    let trimmed = trim_chars(&chars_of(value));
    if trimmed.len() == 0 {
        return None;
    }
    let h = if trimmed[0] == '#' {
        let rest = crate::text_chars::slice_chars(&trimmed, 1, trimmed.len());
        assert(rest@ =~= trimmed@.drop_first());
        rest
    } else {
        trimmed
    };
    if h.len() == 6 {
        match (hex_pair(&h, 0), hex_pair(&h, 2), hex_pair(&h, 4)) {
            (Some(r), Some(g), Some(b)) => Some((r, g, b)),
            _ => None,
        }
    } else if h.len() == 3 {
        match (hex_single(&h, 0), hex_single(&h, 1), hex_single(&h, 2)) {
            (Some(r), Some(g), Some(b)) => Some((r, g, b)),
            _ => None,
        }
    } else {
        None
    }
}

/// Icons need recolouring unless the accent is the default pink.
pub fn needs_tint(target: (u8, u8, u8)) -> (res: bool)
    ensures
        res == (target != DEFAULT_ACCENT),
{
    !(target.0 == DEFAULT_ACCENT.0 && target.1 == DEFAULT_ACCENT.1 && target.2 == DEFAULT_ACCENT.2)
}

/// Whether `recolor_rgba` recolors pixel `p` of `rgba` (its bytes `4p` to
/// `4p + 3`): only when the target is not the default accent and the pixel's
/// alpha is at least 10.
pub open spec fn tints_pixel(rgba: Seq<u8>, target: (u8, u8, u8), p: int) -> bool {
    target != DEFAULT_ACCENT && rgba[4 * p + 3] >= 10
}

/// What `recolor_rgba` does to `before`, giving `after`. `before` holds
/// pixels of four bytes (red, green, blue, alpha); a trailing group of fewer
/// than four bytes is no pixel. Nothing changes when the target is the
/// default accent; pixels with an alpha below 10 keep their colour; every
/// alpha byte and the trailing bytes are kept; every other pixel gets the
/// colour that `tint` gives for its own.
pub open spec fn recolored<F: Fn(u8, u8, u8) -> (u8, u8, u8)>(
    before: Seq<u8>,
    after: Seq<u8>,
    target: (u8, u8, u8),
    tint: &F,
) -> bool {
    &&& after.len() == before.len()
    &&& target == DEFAULT_ACCENT ==> after == before
    &&& forall|p: int| 0 <= p < before.len() / 4 ==> (#[trigger] after[4 * p + 3]) == before[4 * p + 3]
    &&& forall|p: int|
        #![trigger tints_pixel(before, target, p)]
        0 <= p < before.len() / 4 && !tints_pixel(before, target, p) ==> {
            &&& after[4 * p] == before[4 * p]
            &&& after[4 * p + 1] == before[4 * p + 1]
            &&& after[4 * p + 2] == before[4 * p + 2]
        }
    &&& forall|p: int|
        0 <= p < before.len() / 4 && #[trigger] tints_pixel(before, target, p) ==> tint.ensures(
            (before[4 * p], before[4 * p + 1], before[4 * p + 2]),
            (after[4 * p], after[4 * p + 1], after[4 * p + 2]),
        )
    &&& forall|k: int| 4 * (before.len() / 4) <= k < before.len() ==> #[trigger] after[k] == before[k]
}

/// Recolors pink branded pixels of `rgba` to `target` (see `recolored`).
/// `tint` maps a pixel's colour to its new colour; the shell passes one that
/// preserves the pixel's luminance ratio to the default accent.
pub fn recolor_rgba<F: Fn(u8, u8, u8) -> (u8, u8, u8)>(rgba: &mut Vec<u8>, target: (u8, u8, u8), tint: &F)
    requires
        forall|r: u8, g: u8, b: u8| tint.requires((r, g, b)),
    ensures
        recolored(old(rgba)@, final(rgba)@, target, tint),
{
    if !needs_tint(target) {
        return;
    }
    let ghost before = rgba@;
    let n: usize = rgba.len() / 4;
    assert(4 * n <= before.len()) by (nonlinear_arith)
        requires
            n == before.len() / 4,
    ;
    let mut p: usize = 0;
    while p < n
        invariant
            n == before.len() / 4,
            4 * n <= before.len() <= usize::MAX,
            target != DEFAULT_ACCENT,
            forall|r: u8, g: u8, b: u8| tint.requires((r, g, b)),
            0 <= p <= n,
            rgba@.len() == before.len(),
            forall|k: int| 4 * p <= k < before.len() ==> #[trigger] rgba@[k] == before[k],
            forall|q: int| 0 <= q < n ==> (#[trigger] rgba@[4 * q + 3]) == before[4 * q + 3],
            forall|q: int|
                #![trigger tints_pixel(before, target, q)]
                0 <= q < p && !tints_pixel(before, target, q) ==> {
                    &&& rgba@[4 * q] == before[4 * q]
                    &&& rgba@[4 * q + 1] == before[4 * q + 1]
                    &&& rgba@[4 * q + 2] == before[4 * q + 2]
                },
            forall|q: int|
                0 <= q < p && #[trigger] tints_pixel(before, target, q) ==> tint.ensures(
                    (before[4 * q], before[4 * q + 1], before[4 * q + 2]),
                    (rgba@[4 * q], rgba@[4 * q + 1], rgba@[4 * q + 2]),
                ),
        decreases n - p,
    {
        let i: usize = 4 * p;
        assert(rgba@[i as int + 3] == before[4 * p + 3]);
        let alpha = rgba[i + 3];
        if alpha >= 10 {
            let (r, g, b) = tint(rgba[i], rgba[i + 1], rgba[i + 2]);
            rgba.set(i, r);
            rgba.set(i + 1, g);
            rgba.set(i + 2, b);
        }
        p = p + 1;
    }
}

} // verus!
