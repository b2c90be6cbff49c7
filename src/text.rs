//! Character sequences: reading a string's characters, and finding a pattern in them.
use vstd::prelude::*;
use vstd::string::*;

verus! {

/// `pat` occurs in `s` as a contiguous run of characters.
pub open spec fn has(s: Seq<char>, pat: Seq<char>) -> bool {
    exists|i: int| 0 <= i && i + pat.len() <= s.len() && #[trigger] s.subrange(i, i + pat.len()) == pat
}

/// The characters of `s`, in order.
pub fn chars_of(s: &str) -> (r: Vec<char>)
    ensures
        r@ == s@,
{
    let n = s.unicode_len();
    let mut r: Vec<char> = Vec::new();
    let mut i: usize = 0;
    while i < n
        invariant
            n == s@.len(),
            i <= n,
            r@ == s@.subrange(0, i as int),
        decreases n - i,
    {
        r.push(s.get_char(i));
        i += 1;
        assert(r@ =~= s@.subrange(0, i as int));
    }
    assert(r@ =~= s@);
    r
}

/// Whether `p` occurs in `s` starting at position `i`.
fn occurs_at(s: &Vec<char>, p: &Vec<char>, i: usize) -> (r: bool)
    requires
        i + p@.len() <= s@.len(),
    ensures
        r == (s@.subrange(i as int, i + p@.len()) == p@),
{
    let n = s.len();
    let mut j: usize = 0;
    while j < p.len()
        invariant
            n == s@.len(),
            i + p@.len() <= s@.len(),
            j <= p@.len(),
            forall|t: int| 0 <= t < j ==> s@[i + t] == p@[t],
        decreases p@.len() - j,
    {
        if s[i + j] != p[j] {
            assert(s@.subrange(i as int, i + p@.len())[j as int] != p@[j as int]);
            return false;
        }
        j += 1;
    }
    assert(s@.subrange(i as int, i + p@.len()) =~= p@);
    true
}

/// Whether `pat` occurs in `s`.
pub fn contains(s: &Vec<char>, pat: &str) -> (r: bool)
    ensures
        r == has(s@, pat@),
{
    let p = chars_of(pat);
    if p.len() > s.len() {
        return false;
    }
    let last = s.len() - p.len();
    let mut i: usize = 0;
    loop
        invariant
            p@ == pat@,
            last == s@.len() - p@.len(),
            i <= last,
            forall|t: int| 0 <= t < i ==> #[trigger] s@.subrange(t, t + p@.len()) != p@,
        ensures
            forall|t: int| 0 <= t <= last ==> #[trigger] s@.subrange(t, t + p@.len()) != p@,
        decreases last - i,
    {
        if occurs_at(s, &p, i) {
            return true;
        }
        if i == last {
            break;
        }
        i += 1;
    }
    false
}

/// Whether `s` is exactly `pat`.
pub fn same(s: &Vec<char>, pat: &str) -> (r: bool)
    ensures
        r == (s@ == pat@),
{
    let p = chars_of(pat);
    if p.len() != s.len() {
        return false;
    }
    let r = occurs_at(s, &p, 0);
    assert(s@.subrange(0, s@.len() as int) =~= s@);
    r
}

} // verus!
