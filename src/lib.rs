//! Conversion of single characters between their plain form and Unicode font variants
//! (bold, circled, Fraktur, superscript, ...), and classification of Unicode character names
//! into those variants.
//!
//! Every supported character has a plain form; plain characters are their own plain form.
//! Each variant maps plain characters to styled ones. The maps agree with each other: see
//! the proof functions in [`laws`].
use vstd::prelude::*;

pub mod code;
pub mod laws;
pub mod tables;
pub mod text;
pub mod variant;

pub use code::code_to_character;
pub use variant::{ParseError, Variant};

use tables::{is_scalar, plain_code, styled_code};

verus! {

/// The code point of an optional character, as an integer.
pub open spec fn as_code(r: Option<char>) -> Option<int> {
    match r {
        Some(x) => Some(x as int),
        None => None,
    }
}

/// Relies on `char::from_u32`: it returns the character with code point `x` exactly when `x`
/// is a Unicode scalar value, and `None` otherwise.
#[verifier::external_body]
pub(crate) fn char_from_code(x: u32) -> (r: Option<char>)
    ensures
        r is Some <==> is_scalar(x as int),
        r matches Some(c) ==> c as u32 == x,
{
    char::from_u32(x)
}

/// Turns a code point that is known to be a scalar value into its character.
pub(crate) fn scalar_char(x: u32) -> (r: char)
    requires
        is_scalar(x as int),
    ensures
        r as u32 == x,
{
    match char_from_code(x) {
        Some(c) => c,
        None => {
            assert(false);
            ' '
        },
    }
}

/// The form of `s` in `variant`, if `s` is a plain character that has one.
///
/// The input is not normalised first: a character that is already styled gives `None`.
pub fn try_as(variant: Variant, s: &char) -> (r: Option<char>)
    ensures
        as_code(r) == styled_code(variant, *s as int),
{
    match tables::styled_lookup(variant, *s as u32) {
        Some(x) => {
            proof {
                tables::styled_agrees(variant, *s as int);
            }
            Some(scalar_char(x))
        },
        None => None,
    }
}

/// The plain form of `s`, if `s` is supported in any variant. Plain characters map to themselves.
pub fn try_as_plain(s: &char) -> (r: Option<char>)
    ensures
        as_code(r) == plain_code(*s as int),
{
    match tables::plain_lookup(*s as u32) {
        Some(x) => {
            proof {
                tables::plain_is_idempotent(*s as int);
            }
            Some(scalar_char(x))
        },
        None => None,
    }
}

/// The code point shown for `c` in `variant`: its styled form, or else `placeholder`.
pub open spec fn shown(variant: Variant, c: char, placeholder: char) -> int {
    match styled_code(variant, c as int) {
        Some(x) => x,
        None => placeholder as int,
    }
}

/// The form of each character of `s` in `variant`, with `placeholder` standing in for each
/// character that has none. This is the best-effort policy for display.
pub fn try_as_or(variant: Variant, s: &str, placeholder: char) -> (r: Vec<char>)
    ensures
        r@.len() == s@.len(),
        forall|i: int| 0 <= i < s@.len() ==> #[trigger] r@[i] as int == shown(variant, s@[i], placeholder),
{
    let given = text::chars_of(s);
    let mut r: Vec<char> = Vec::new();
    let mut i: usize = 0;
    while i < given.len()
        invariant
            given@ == s@,
            i <= given@.len(),
            r@.len() == i,
            forall|t: int| 0 <= t < i ==> #[trigger] r@[t] as int == shown(variant, s@[t], placeholder),
        decreases given@.len() - i,
    {
        let c = given[i];
        match try_as(variant, &c) {
            Some(x) => r.push(x),
            None => r.push(placeholder),
        }
        i += 1;
    }
    r
}

} // verus!
