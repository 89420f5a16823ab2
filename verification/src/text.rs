//! Small verified text utilities: character-wise string equality and
//! ASCII-whitespace trimming.

use vstd::prelude::*;
use vstd::string::StrSliceExecFns;

verus! {

/// String equality, checked character by character.
pub fn str_eq(a: &str, b: &str) -> (r: bool)
    ensures
        r == (a@ == b@),
{
    let na = a.unicode_len();
    let nb = b.unicode_len();
    if na != nb {
        return false;
    }
    let mut i: usize = 0;
    while i < na
        invariant
            i <= na,
            na == a@.len(),
            nb == b@.len(),
            na == nb,
            forall|j: int| 0 <= j < i ==> a@[j] == b@[j],
        decreases na - i,
    {
        if a.get_char(i) != b.get_char(i) {
            return false;
        }
        i = i + 1;
    }
    proof {
        assert(a@ =~= b@);
    }
    true
}

/// An ASCII whitespace character.
pub open spec fn is_ascii_space(c: char) -> bool {
    c == ' ' || c == '\t' || c == '\n' || c == '\r'
}

/// The sequence with leading whitespace removed.
pub open spec fn spec_trim_start(s: Seq<char>) -> Seq<char>
    decreases s.len(),
{
    if s.len() > 0 && is_ascii_space(s[0]) {
        spec_trim_start(s.skip(1))
    } else {
        s
    }
}

/// The sequence with trailing whitespace removed.
pub open spec fn spec_trim_end(s: Seq<char>) -> Seq<char>
    decreases s.len(),
{
    if s.len() > 0 && is_ascii_space(s[s.len() - 1]) {
        spec_trim_end(s.take(s.len() - 1))
    } else {
        s
    }
}

/// The sequence with whitespace removed at both ends.
pub open spec fn spec_trim(s: Seq<char>) -> Seq<char> {
    spec_trim_end(spec_trim_start(s))
}

/// Whether `c` is ASCII whitespace.
fn is_space_char(c: char) -> (r: bool)
    ensures
        r == is_ascii_space(c),
{
    c == ' ' || c == '\t' || c == '\n' || c == '\r'
}

/// Remove ASCII whitespace from both ends of `s`.
pub fn trim_ascii(s: &str) -> (r: String)
    ensures
        r@ == spec_trim(s@),
{
    let n = s.unicode_len();
    proof {
        assert(s@.skip(0) =~= s@);
    }
    let mut lo: usize = 0;
    while lo < n && is_space_char(s.get_char(lo))
        invariant
            lo <= n,
            n == s@.len(),
            spec_trim_start(s@) == spec_trim_start(s@.skip(lo as int)),
        decreases n - lo,
    {
        proof {
            assert(s@.skip(lo as int)[0] == s@[lo as int]);
            assert(s@.skip(lo as int).skip(1) =~= s@.skip(lo as int + 1));
        }
        lo = lo + 1;
    }
    proof {
        // the loop stopped at the first non-space character (or the end)
        assert(spec_trim_start(s@) == s@.skip(lo as int));
    }
    let ghost t = s@.skip(lo as int);
    proof {
        assert(t.take(n - lo as int) =~= t);
    }
    let mut hi: usize = n;
    while hi > lo && is_space_char(s.get_char(hi - 1))
        invariant
            lo <= hi <= n,
            n == s@.len(),
            t == s@.skip(lo as int),
            spec_trim_end(t) == spec_trim_end(t.take(hi - lo as int)),
        decreases hi,
    {
        proof {
            assert(t.take(hi - lo as int)[hi - 1 - lo as int] == s@[hi as int - 1]);
            assert(t.take(hi - lo as int).take(hi - 1 - lo as int) =~= t.take(hi - 1 - lo as int));
        }
        hi = hi - 1;
    }
    proof {
        if hi == lo {
            assert(t.take(0) =~= Seq::<char>::empty());
        } else {
            assert(t.take(hi - lo as int)[hi - 1 - lo as int] == s@[hi as int - 1]);
        }
        assert(spec_trim_end(t) == t.take(hi - lo as int));
        assert(t.take(hi - lo as int) =~= s@.subrange(lo as int, hi as int));
    }
    s.substring_char(lo, hi).to_owned()
}

} // verus!
