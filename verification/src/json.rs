//! Building blocks for the JSON text this library emits: decimal numbers,
//! booleans, and string literals with escaping. Every function's output is
//! pinned down, character for character, by a spec function.

use vstd::prelude::*;
use vstd::string::StrSliceExecFns;
use vstd::string::StringExecFns;

verus! {

/// The character for one digit value, decimal or hexadecimal.
pub open spec fn spec_digit(d: nat) -> char {
    if d == 0 {
        '0'
    } else if d == 1 {
        '1'
    } else if d == 2 {
        '2'
    } else if d == 3 {
        '3'
    } else if d == 4 {
        '4'
    } else if d == 5 {
        '5'
    } else if d == 6 {
        '6'
    } else if d == 7 {
        '7'
    } else if d == 8 {
        '8'
    } else if d == 9 {
        '9'
    } else if d == 10 {
        'a'
    } else if d == 11 {
        'b'
    } else if d == 12 {
        'c'
    } else if d == 13 {
        'd'
    } else if d == 14 {
        'e'
    } else {
        'f'
    }
}

/// The decimal representation of `n`, most significant digit first,
/// with no leading zeros (a single `0` for zero itself).
pub open spec fn spec_dec(n: nat) -> Seq<char>
    decreases n,
{
    if n < 10 {
        seq![spec_digit(n)]
    } else {
        spec_dec(n / 10) + seq![spec_digit(n % 10)]
    }
}

/// How one character appears inside a JSON string literal: quote and
/// backslash are escaped, control characters become `\u00XX`, everything
/// else stands as itself.
pub open spec fn spec_escape_char(c: char) -> Seq<char> {
    if c == '"' {
        seq!['\\', '"']
    } else if c == '\\' {
        seq!['\\', '\\']
    } else if (c as u32) < 32 {
        seq![
            '\\',
            'u',
            '0',
            '0',
            spec_digit(((c as u32) / 16) as nat),
            spec_digit(((c as u32) % 16) as nat),
        ]
    } else {
        seq![c]
    }
}

/// A whole character sequence escaped for inclusion in a JSON string literal.
pub open spec fn spec_escape(s: Seq<char>) -> Seq<char>
    decreases s.len(),
{
    if s.len() == 0 {
        Seq::empty()
    } else {
        spec_escape_char(s[0]) + spec_escape(s.skip(1))
    }
}

/// A JSON string literal: the escaped contents between double quotes.
pub open spec fn spec_json_string(s: Seq<char>) -> Seq<char> {
    seq!['"'] + spec_escape(s) + seq!['"']
}

/// A JSON boolean.
pub open spec fn spec_json_bool(b: bool) -> Seq<char> {
    if b {
        "true"@
    } else {
        "false"@
    }
}

/// Escaping a sequence one character longer appends that character's escape.
proof fn lemma_escape_take_step(s: Seq<char>, i: int)
    requires
        0 <= i < s.len(),
    ensures
        spec_escape(s.take(i + 1)) == spec_escape(s.take(i)) + spec_escape_char(s[i]),
    decreases i,
{
    if i == 0 {
        assert(s.take(1)[0] == s[0]);
        assert(s.take(1).skip(1) =~= Seq::<char>::empty());
        assert(s.take(0) =~= Seq::<char>::empty());
        assert(spec_escape(s.take(1)) == spec_escape_char(s[0]) + spec_escape(
            Seq::<char>::empty(),
        ));
        assert(spec_escape_char(s[0]) + Seq::<char>::empty() =~= spec_escape_char(s[0]));
        assert(spec_escape(s.take(0)) + spec_escape_char(s[0]) =~= spec_escape_char(s[0]));
    } else {
        lemma_escape_take_step(s.skip(1), i - 1);
        assert(s.take(i + 1).skip(1) =~= s.skip(1).take(i));
        assert(s.take(i).skip(1) =~= s.skip(1).take(i - 1));
        assert(s.take(i + 1)[0] == s[0]);
        assert(s.take(i)[0] == s[0]);
        assert(s.skip(1)[i - 1] == s[i]);
        assert(spec_escape(s.take(i + 1)) == spec_escape_char(s[0]) + (spec_escape(
            s.skip(1).take(i - 1),
        ) + spec_escape_char(s[i])));
        assert(spec_escape_char(s[0]) + (spec_escape(s.skip(1).take(i - 1)) + spec_escape_char(
            s[i],
        )) =~= (spec_escape_char(s[0]) + spec_escape(s.skip(1).take(i - 1))) + spec_escape_char(
            s[i],
        ));
    }
}

/// Relies on String::push: appends exactly the given character to the string.
#[verifier::external_body]
pub(crate) fn push_char(s: &mut String, c: char)
    ensures
        final(s)@ == old(s)@ + seq![c],
{
    s.push(c);
}

/// Append one digit character (decimal or hexadecimal).
fn push_digit(out: &mut String, d: u32)
    requires
        d < 16,
    ensures
        final(out)@ == old(out)@ + seq![spec_digit(d as nat)],
{
    let c: char = if d == 0 {
        '0'
    } else if d == 1 {
        '1'
    } else if d == 2 {
        '2'
    } else if d == 3 {
        '3'
    } else if d == 4 {
        '4'
    } else if d == 5 {
        '5'
    } else if d == 6 {
        '6'
    } else if d == 7 {
        '7'
    } else if d == 8 {
        '8'
    } else if d == 9 {
        '9'
    } else if d == 10 {
        'a'
    } else if d == 11 {
        'b'
    } else if d == 12 {
        'c'
    } else if d == 13 {
        'd'
    } else if d == 14 {
        'e'
    } else {
        'f'
    };
    push_char(out, c);
}

/// Append the decimal representation of `n`.
pub fn push_dec_u32(out: &mut String, n: u32)
    ensures
        final(out)@ == old(out)@ + spec_dec(n as nat),
    decreases n,
{
    if n < 10 {
        push_digit(out, n);
    } else {
        push_dec_u32(out, n / 10);
        push_digit(out, n % 10);
        proof {
            assert((old(out)@ + spec_dec((n / 10) as nat)) + seq![spec_digit((n % 10) as nat)]
                =~= old(out)@ + (spec_dec((n / 10) as nat) + seq![spec_digit((n % 10) as nat)]));
        }
    }
}

/// Append a JSON boolean.
pub fn push_json_bool(out: &mut String, b: bool)
    ensures
        final(out)@ == old(out)@ + spec_json_bool(b),
{
    if b {
        out.append("true");
    } else {
        out.append("false");
    }
}

/// Append the contents of `s`, escaped for a JSON string literal.
pub fn push_json_escaped(out: &mut String, s: &str)
    ensures
        final(out)@ == old(out)@ + spec_escape(s@),
{
    let ghost base = out@;
    let n = s.unicode_len();
    let mut i: usize = 0;
    while i < n
        invariant
            n == s@.len(),
            i <= n,
            out@ == base + spec_escape(s@.take(i as int)),
        decreases n - i,
    {
        let c = s.get_char(i);
        proof {
            lemma_escape_take_step(s@, i as int);
        }
        if c == '"' {
            push_char(out, '\\');
            push_char(out, '"');
        } else if c == '\\' {
            push_char(out, '\\');
            push_char(out, '\\');
        } else if (c as u32) < 32 {
            let v = c as u32;
            push_char(out, '\\');
            push_char(out, 'u');
            push_char(out, '0');
            push_char(out, '0');
            push_digit(out, v / 16);
            push_digit(out, v % 16);
        } else {
            push_char(out, c);
        }
        proof {
            assert(out@ =~= base + spec_escape(s@.take(i as int + 1)));
        }
        i = i + 1;
    }
    proof {
        assert(s@.take(n as int) =~= s@);
    }
}

/// Append a JSON string literal holding `s`.
pub fn push_json_string(out: &mut String, s: &str)
    ensures
        final(out)@ == old(out)@ + spec_json_string(s@),
{
    push_char(out, '"');
    push_json_escaped(out, s);
    push_char(out, '"');
    proof {
        assert(((old(out)@ + seq!['"']) + spec_escape(s@)) + seq!['"'] =~= old(out)@ + (seq!['"']
            + spec_escape(s@) + seq!['"']));
    }
}

} // verus!
