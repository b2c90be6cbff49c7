//! How the plain map and the variant maps relate.
use vstd::prelude::*;

use crate::tables::{plain_code, plain_is_idempotent, styled_agrees, styled_code};
use crate::variant::Variant;

verus! {

/// The plain map is idempotent: the plain form of a plain form is itself.
pub proof fn plain_of_plain_is_plain(c: int)
    requires
        plain_code(c) is Some,
    ensures
        plain_code(plain_code(c)->0) == plain_code(c),
{
    plain_is_idempotent(c);
}

/// Every key of a variant map is plain: its plain form is itself.
pub proof fn variant_keys_are_plain(v: Variant, k: int)
    requires
        styled_code(v, k) is Some,
    ensures
        plain_code(k) == Some(k),
{
    styled_agrees(v, k);
}

/// Converting a plain character to a variant and back to plain gives the character again.
pub proof fn styled_back_to_plain(v: Variant, k: int)
    requires
        styled_code(v, k) is Some,
    ensures
        plain_code(styled_code(v, k)->0) == Some(k),
{
    styled_agrees(v, k);
}

/// Converting a styled form to plain and back to the same variant gives the styled form again.
pub proof fn plain_back_to_styled(v: Variant, s: int)
    requires
        exists|k: int| styled_code(v, k) == Some(s),
    ensures
        plain_code(s) is Some,
        styled_code(v, plain_code(s)->0) == Some(s),
{
    let k = choose|k: int| styled_code(v, k) == Some(s);
    styled_agrees(v, k);
}

/// Every styled form of every variant is supported by the plain map.
pub proof fn styled_forms_are_supported(v: Variant, s: int)
    requires
        exists|k: int| styled_code(v, k) == Some(s),
    ensures
        plain_code(s) is Some,
{
    let k = choose|k: int| styled_code(v, k) == Some(s);
    styled_agrees(v, k);
}

} // verus!
