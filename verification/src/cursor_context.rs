//! Whether pasted dictation should start with a capital letter, decided from
//! the text before the caret in the focused field.

use vstd::prelude::*;
use crate::text_chars::{
    ascii_lower_char, ascii_lower_seq, chars_of, slice_chars, string_from_chars, trim_end, trim_end_chars,
};

verus! {

/// The text before the caret, where the platform lets it be read. No
/// control is readable this way outside Windows, where the reading goes
/// through the Win32 API of the application.
pub fn get_text_before_cursor() -> (res: Option<String>)
    ensures
        res is None,
{
    None
}

/// Capitalize when the caret is at the start of the field (nothing but white
/// space before it) or right after sentence-ending punctuation (`.`, `!`,
/// `?`, optionally followed by white space); keep lower case otherwise, and
/// when the context is unknown.
pub open spec fn capitalize_after(context: Option<Seq<char>>) -> bool {
    match context {
        Some(c) => {
            let t = trim_end(c);
            t.len() == 0 || t.last() == '.' || t.last() == '!' || t.last() == '?'
        },
        None => false,
    }
}

pub open spec fn context_view(context: Option<&str>) -> Option<Seq<char>> {
    match context {
        Some(c) => Some(c@),
        None => None,
    }
}

/// White space at the end of a text is what `trim_end` removes: after a
/// character that is not white space, any white space goes and nothing else.
proof fn lemma_trim_end_after(s: Seq<char>, c: char, ws: Seq<char>)
    requires
        !crate::text_chars::is_white_space(c),
        forall|i: int| 0 <= i < ws.len() ==> crate::text_chars::is_white_space(#[trigger] ws[i]),
    ensures
        trim_end(s.push(c) + ws) == s.push(c),
    decreases ws.len(),
{
    let x = s.push(c) + ws;
    if ws.len() == 0 {
        assert(x =~= s.push(c));
    } else {
        assert(x.last() == ws.last());
        assert(x.drop_last() =~= s.push(c) + ws.drop_last());
        lemma_trim_end_after(s, c, ws.drop_last());
    }
}

/// A context of white space alone trims to nothing.
proof fn lemma_trim_end_blank(ws: Seq<char>)
    requires
        forall|i: int| 0 <= i < ws.len() ==> crate::text_chars::is_white_space(#[trigger] ws[i]),
    ensures
        trim_end(ws).len() == 0,
    decreases ws.len(),
{
    if ws.len() > 0 {
        assert(crate::text_chars::is_white_space(ws.last()));
        lemma_trim_end_blank(ws.drop_last());
    }
}

/// Pasted dictation starts with a capital letter exactly at the start of a
/// sentence: after a context that is empty or only white space, or whose
/// last character other than white space is `.`, `!` or `?`. After any other
/// last character (a letter, `,`, `:`, ...) it stays lower case, whatever
/// white space follows; with no context it stays lower case.
pub proof fn lemma_capitalize_at_sentence_start(s: Seq<char>, c: char, ws: Seq<char>)
    requires
        forall|i: int| 0 <= i < ws.len() ==> crate::text_chars::is_white_space(#[trigger] ws[i]),
    ensures
        capitalize_after(Some(ws)),
        !crate::text_chars::is_white_space(c) ==> capitalize_after(Some(s.push(c) + ws)) == (c == '.' || c == '!'
            || c == '?'),
        !capitalize_after(None),
{
    lemma_trim_end_blank(ws);
    if !crate::text_chars::is_white_space(c) {
        lemma_trim_end_after(s, c, ws);
        assert(s.push(c).last() == c);
    }
}

/// Whether pasted text should begin with an uppercase letter, given the text
/// before the caret (`get_text_before_cursor`).
pub fn should_capitalize_pasted_text(context: Option<&str>) -> (res: bool)
    ensures
        res == capitalize_after(context_view(context)),
{
    match context {
        Some(c) => {
            let chars = chars_of(c);
            let trimmed = trim_end_chars(&chars);
            if trimmed.len() == 0 {
                return true;
            }
            let last = trimmed[trimmed.len() - 1];
            last == '.' || last == '!' || last == '?'
        },
        None => false,
    }
}

/// `s` holds `edit` as a contiguous part.
pub open spec fn contains_edit(s: Seq<char>) -> bool {
    exists|i: int| 0 <= i && i + 4 <= s.len() && #[trigger] s.subrange(i, i + 4) == seq!['e', 'd', 'i', 't']
}

/// The focused control's window class marks a text field when its name,
/// ASCII-lower-cased, contains `edit` (`Edit`, `RichEdit20W`, ...).
pub fn is_edit_control_class(class_name: &str) -> (res: bool)
    ensures
        res == contains_edit(ascii_lower_seq(class_name@)),
{
    let raw = chars_of(class_name);
    let mut lower: Vec<char> = Vec::new();
    let mut k: usize = 0;
    while k < raw.len()
        invariant
            0 <= k <= raw@.len(),
            lower@ == ascii_lower_seq(raw@.subrange(0, k as int)),
        decreases raw@.len() - k,
    {
        lower.push(ascii_lower_char(raw[k]));
        k = k + 1;
        assert(ascii_lower_seq(raw@.subrange(0, k as int)) =~= ascii_lower_seq(
            raw@.subrange(0, (k - 1) as int),
        ).push(crate::text_chars::ascii_lower(raw@[k - 1])));
    }
    assert(raw@.subrange(0, raw@.len() as int) =~= raw@);
    let n = lower.len();
    let mut i: usize = 0;
    while n >= 4 && i <= n - 4
        invariant
            n == lower@.len(),
            lower@ == ascii_lower_seq(class_name@),
            0 <= i <= n,
            forall|j: int| 0 <= j < i && j + 4 <= n ==> #[trigger] lower@.subrange(j, j + 4) != seq![
                'e',
                'd',
                'i',
                't',
            ],
        decreases n - i,
    {
        if lower[i] == 'e' && lower[i + 1] == 'd' && lower[i + 2] == 'i' && lower[i + 3] == 't' {
            assert(lower@.subrange(i as int, i + 4) =~= seq!['e', 'd', 'i', 't']);
            return true;
        }
        assert(lower@.subrange(i as int, i + 4)[0] == lower@[i as int]);
        assert(lower@.subrange(i as int, i + 4)[1] == lower@[i + 1]);
        assert(lower@.subrange(i as int, i + 4)[2] == lower@[i + 2]);
        assert(lower@.subrange(i as int, i + 4)[3] == lower@[i + 3]);
        i = i + 1;
    }
    false
}

/// The number of UTF-16 units that encode `c`: two above the Basic
/// Multilingual Plane, one otherwise.
pub open spec fn utf16_width(c: char) -> nat {
    if (c as u32) < 0x10000 {
        1
    } else {
        2
    }
}

/// The number of UTF-16 units that encode `s`.
pub open spec fn utf16_len(s: Seq<char>) -> nat
    decreases s.len(),
{
    if s.len() == 0 {
        0
    } else {
        utf16_len(s.drop_last()) + utf16_width(s.last())
    }
}

/// The text before the caret in a field holding `text`, the caret being
/// counted in UTF-16 units as edit controls report it: the longest start of
/// the text that the caret does not cut, the whole text when the caret lies
/// at or past its end.
pub fn text_before_caret(text: &str, caret: u32) -> (res: String)
    ensures
        res@ == text@.take(res@.len() as int),
        utf16_len(res@) <= caret,
        res@.len() < text@.len() ==> utf16_len(text@.take(res@.len() as int + 1)) > caret,
{
    let chars = chars_of(text);
    let mut units: u64 = 0;
    let mut i: usize = 0;
    while i < chars.len()
        invariant
            chars@ == text@,
            0 <= i <= chars@.len(),
            units == utf16_len(chars@.take(i as int)),
            units <= caret,
        ensures
            0 <= i <= chars@.len(),
            units == utf16_len(chars@.take(i as int)),
            units <= caret,
            i < chars@.len() ==> utf16_len(chars@.take(i + 1)) > caret,
        decreases chars@.len() - i,
    {
        let width: u64 = if (chars[i] as u32) < 0x10000 {
            1
        } else {
            2
        };
        proof {
            assert(chars@.take(i + 1).drop_last() =~= chars@.take(i as int));
        }
        if units + width > caret as u64 {
            break;
        }
        units = units + width;
        i = i + 1;
    }
    let before = slice_chars(&chars, 0, i);
    assert(before@ =~= text@.take(i as int));
    string_from_chars(&before)
}

} // verus!
