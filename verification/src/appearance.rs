//! Appearance settings: colour values as the settings store keeps them.

use vstd::prelude::*;
use crate::text_chars::{chars_of, string_from_chars, trim, trim_chars};

verus! {

/// A colour setting as stored: trimmed, and absent when blank.
pub open spec fn normalized_color(color: Option<Seq<char>>) -> Option<Seq<char>> {
    match color {
        Some(c) => if trim(c).len() == 0 {
            None
        } else {
            Some(trim(c))
        },
        None => None,
    }
}

pub open spec fn color_view(color: Option<String>) -> Option<Seq<char>> {
    match color {
        Some(c) => Some(c@),
        None => None,
    }
}

pub fn normalize_color(color: Option<String>) -> (res: Option<String>)
    ensures
        color_view(res) == normalized_color(color_view(color)),
{
    match color {
        Some(c) => {
            let trimmed = trim_chars(&chars_of(c.as_str()));
            if trimmed.len() == 0 {
                None
            } else {
                Some(string_from_chars(&trimmed))
            }
        },
        None => None,
    }
}

} // verus!
