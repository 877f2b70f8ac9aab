use vstd::prelude::*;

verus! {

/// Whether `c` is a Unicode scalar value.
pub open spec fn is_scalar(c: u32) -> bool {
    c <= 0x10FFFF && !(0xD800 <= c <= 0xDFFF)
}

/// Relies on `char::from_u32`: it returns the character whose code point is
/// `c` when `c` is a Unicode scalar value, and `None` otherwise.
#[verifier::external_body]
pub(crate) fn char_from_u32(c: u32) -> (r: Option<char>)
    ensures
        is_scalar(c) ==> r == Some(c as char),
        !is_scalar(c) ==> r is None,
{
    char::from_u32(c)
}

} // verus!
