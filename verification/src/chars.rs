//! Character classes used by the gateway: the correlation-id charset, the
//! email local-part and domain charsets, Unicode control characters and
//! Unicode whitespace, and ASCII case folding.

use vstd::prelude::*;

verus! {

/// ASCII decimal digit, upper-case letter, or lower-case letter.
pub open spec fn is_ascii_alphanumeric_char(c: char) -> bool {
    (48 <= c as u32 && c as u32 <= 57) || (65 <= c as u32 && c as u32 <= 90) || (97 <= c as u32
        && c as u32 <= 122)
}

/// Characters accepted in a correlation id: ASCII alphanumerics, `-` and `_`.
pub open spec fn is_id_char(c: char) -> bool {
    is_ascii_alphanumeric_char(c) || c == '-' || c == '_'
}

/// Characters accepted in the local part of an email address.
pub open spec fn is_local_char(c: char) -> bool {
    is_ascii_alphanumeric_char(c) || c == '.' || c == '_' || c == '%' || c == '+' || c == '-'
}

/// Characters accepted in the domain part of an email address.
pub open spec fn is_domain_char(c: char) -> bool {
    is_ascii_alphanumeric_char(c) || c == '.' || c == '-'
}

/// Unicode control characters (general category Cc).
pub open spec fn is_control_char(c: char) -> bool {
    c as u32 <= 0x1f || (0x7f <= c as u32 && c as u32 <= 0x9f)
}

/// Unicode whitespace (the `White_Space` property), the set trimmed from the
/// ends of submitted emails and correlation ids.
pub open spec fn is_space_char(c: char) -> bool {
    (0x09 <= c as u32 && c as u32 <= 0x0d) || c as u32 == 0x20 || c as u32 == 0x85 || c as u32
        == 0xa0 || c as u32 == 0x1680 || (0x2000 <= c as u32 && c as u32 <= 0x200a) || c as u32
        == 0x2028 || c as u32 == 0x2029 || c as u32 == 0x202f || c as u32 == 0x205f || c as u32
        == 0x3000
}

/// ASCII case folding of a single character: `A`-`Z` map to `a`-`z`, all
/// other characters are unchanged.
pub open spec fn ascii_lower_char(c: char) -> char {
    if 65 <= c as u32 && c as u32 <= 90 {
        ((c as u32 + 32) as u8) as char
    } else {
        c
    }
}

pub fn ascii_alphanumeric(c: char) -> (r: bool)
    ensures
        r == is_ascii_alphanumeric_char(c),
{
    let u = c as u32;
    (48 <= u && u <= 57) || (65 <= u && u <= 90) || (97 <= u && u <= 122)
}

pub fn id_char(c: char) -> (r: bool)
    ensures
        r == is_id_char(c),
{
    ascii_alphanumeric(c) || c == '-' || c == '_'
}

pub fn is_allowed_local_part_character(c: char) -> (r: bool)
    ensures
        r == is_local_char(c),
{
    ascii_alphanumeric(c) || c == '.' || c == '_' || c == '%' || c == '+' || c == '-'
}

pub fn is_allowed_domain_character(c: char) -> (r: bool)
    ensures
        r == is_domain_char(c),
{
    ascii_alphanumeric(c) || c == '.' || c == '-'
}

pub fn control_char(c: char) -> (r: bool)
    ensures
        r == is_control_char(c),
{
    let u = c as u32;
    u <= 0x1f || (0x7f <= u && u <= 0x9f)
}

pub fn space_char(c: char) -> (r: bool)
    ensures
        r == is_space_char(c),
{
    let u = c as u32;
    (0x09 <= u && u <= 0x0d) || u == 0x20 || u == 0x85 || u == 0xa0 || u == 0x1680 || (0x2000 <= u
        && u <= 0x200a) || u == 0x2028 || u == 0x2029 || u == 0x202f || u == 0x205f || u == 0x3000
}

pub fn ascii_lower(c: char) -> (r: char)
    ensures
        r == ascii_lower_char(c),
{
    let u = c as u32;
    if 65 <= u && u <= 90 {
        ((u + 32) as u8) as char
    } else {
        c
    }
}

} // verus!
