//! The character sets a string request can draw from, selected by the
//! request's `char_type` tag.

use vstd::prelude::*;

verus! {

/// The characters the generator draws from for a given `char_type` tag:
/// 0 is alphanumeric, 1 letters only, 2 digits only, 3 symbols, and every
/// unrecognized tag falls back to the alphanumeric set.
pub open spec fn spec_charset(char_type: int) -> Seq<char> {
    if char_type == 1 {
        "abcdefghijklmnopqrstuvwxyzABCDEFGHIJKLMNOPQRSTUVWXYZ"@
    } else if char_type == 2 {
        "0123456789"@
    } else if char_type == 3 {
        "!@#$%^&*()_+-=[]{}|;:,.<>?"@
    } else {
        "abcdefghijklmnopqrstuvwxyzABCDEFGHIJKLMNOPQRSTUVWXYZ0123456789"@
    }
}

/// Resolves a `char_type` tag to its character set. Every tag resolves to a
/// non-empty set; unrecognized tags get the alphanumeric one.
pub fn charset_for(char_type: i32) -> (cs: &'static str)
    ensures
        cs@ == spec_charset(char_type as int),
        0 < cs@.len() <= 62,
{
    proof {
        reveal_strlit("abcdefghijklmnopqrstuvwxyzABCDEFGHIJKLMNOPQRSTUVWXYZ0123456789");
        reveal_strlit("abcdefghijklmnopqrstuvwxyzABCDEFGHIJKLMNOPQRSTUVWXYZ");
        reveal_strlit("0123456789");
        reveal_strlit("!@#$%^&*()_+-=[]{}|;:,.<>?");
    }
    match char_type {
        1 => "abcdefghijklmnopqrstuvwxyzABCDEFGHIJKLMNOPQRSTUVWXYZ",
        2 => "0123456789",
        3 => "!@#$%^&*()_+-=[]{}|;:,.<>?",
        _ => "abcdefghijklmnopqrstuvwxyzABCDEFGHIJKLMNOPQRSTUVWXYZ0123456789",
    }
}

} // verus!
