//! Reading a character from its code point written in hexadecimal, as in `"1D400"`.
use vstd::prelude::*;

use crate::tables::is_scalar;
use crate::text::chars_of;

verus! {

/// `c` is a hexadecimal digit, in either case.
pub open spec fn is_hex_digit(c: char) -> bool {
    ('0' <= c <= '9') || ('a' <= c <= 'f') || ('A' <= c <= 'F')
}

/// The value of the hexadecimal digit `c`.
pub open spec fn digit_value(c: char) -> int {
    if '0' <= c <= '9' {
        c as int - '0' as int
    } else if 'a' <= c <= 'f' {
        c as int - 'a' as int + 10
    } else {
        c as int - 'A' as int + 10
    }
}

/// The value of the hexadecimal numeral `d`, most significant digit first.
pub open spec fn hex_value(d: Seq<char>) -> int
    decreases d.len(),
{
    if d.len() == 0 {
        0
    } else {
        hex_value(d.drop_last()) * 16 + digit_value(d.last())
    }
}

/// The digits of a code written with an optional leading `+`.
pub open spec fn code_digits(s: Seq<char>) -> Seq<char> {
    if s.len() > 0 && s[0] == '+' {
        s.drop_first()
    } else {
        s
    }
}

/// `s` is a hexadecimal code point, with an optional leading `+`, that names a character.
pub open spec fn is_char_code(s: Seq<char>) -> bool {
    let d = code_digits(s);
    &&& d.len() > 0
    &&& forall|i: int| 0 <= i < d.len() ==> #[trigger] is_hex_digit(d[i])
    &&& is_scalar(hex_value(d))
}

/// The value of a numeral grows with each digit appended, so no prefix exceeds the whole.
proof fn prefix_value_bounded(d: Seq<char>, i: int)
    requires
        0 <= i <= d.len(),
        forall|j: int| 0 <= j < d.len() ==> #[trigger] is_hex_digit(d[j]),
    ensures
        0 <= hex_value(d.subrange(0, i)) <= hex_value(d),
    decreases d.len() - i,
{
    if i == d.len() {
        assert(d.subrange(0, i) =~= d);
        nonnegative(d);
    } else {
        prefix_value_bounded(d, i + 1);
        let p = d.subrange(0, i);
        assert(d.subrange(0, i + 1).drop_last() =~= p);
        assert forall|j: int| 0 <= j < p.len() implies #[trigger] is_hex_digit(p[j]) by {
            assert(is_hex_digit(d[j]));
        }
        nonnegative(p);
        assert(is_hex_digit(d[i]));
    }
}

proof fn nonnegative(d: Seq<char>)
    requires
        forall|j: int| 0 <= j < d.len() ==> #[trigger] is_hex_digit(d[j]),
    ensures
        0 <= hex_value(d),
    decreases d.len(),
{
    if d.len() > 0 {
        nonnegative(d.drop_last());
        assert(is_hex_digit(d[d.len() - 1]));
    }
}

fn digit_of(c: char) -> (r: u32)
    requires
        is_hex_digit(c),
    ensures
        r as int == digit_value(c),
{
    if '0' <= c && c <= '9' {
        c as u32 - '0' as u32
    } else if 'a' <= c && c <= 'f' {
        c as u32 - 'a' as u32 + 10
    } else {
        c as u32 - 'A' as u32 + 10
    }
}

/// The character whose code point `s` gives in hexadecimal, such as U+1D400 for `"1D400"`.
pub fn code_to_character(s: &str) -> (r: char)
    requires
        is_char_code(s@),
    ensures
        r as int == hex_value(code_digits(s@)),
{
    let all = chars_of(s);
    let start: usize = if all.len() > 0 && all[0] == '+' { 1 } else { 0 };
    let ghost d = code_digits(s@);
    assert(d =~= all@.subrange(start as int, all@.len() as int));
    let mut acc: u32 = 0;
    let mut i: usize = start;
    proof {
        assert(d.subrange(0, 0) =~= Seq::<char>::empty());
        prefix_value_bounded(d, 0);
    }
    while i < all.len()
        invariant
            all@ == s@,
            d == all@.subrange(start as int, all@.len() as int),
            start <= i <= all@.len(),
            forall|j: int| 0 <= j < d.len() ==> #[trigger] is_hex_digit(d[j]),
            is_scalar(hex_value(d)),
            acc as int == hex_value(d.subrange(0, i - start)),
        decreases all@.len() - i,
    {
        let ghost k = i - start;
        assert(is_hex_digit(d[k]));
        let digit = digit_of(all[i]);
        proof {
            prefix_value_bounded(d, k + 1);
            assert(d.subrange(0, k + 1).drop_last() =~= d.subrange(0, k));
        }
        acc = acc * 16 + digit;
        i += 1;
    }
    assert(d.subrange(0, d.len() as int) =~= d);
    crate::scalar_char(acc)
}

} // verus!
