//! Building blocks for the persisted index lines: JSON string escaping and
//! the JSON forms of strings, booleans, string arrays and string-to-array
//! maps, each with a spec function giving the exact character sequence.

use vstd::prelude::*;
use vstd::string::StrSliceExecFns;
use vstd::string::StringExecFns;
use crate::strutil::push_char;

verus! {

/// Lowercase hexadecimal digit for a value below 16.
pub open spec fn spec_hex_digit(n: u32) -> char {
    if n == 0 {
        '0'
    } else if n == 1 {
        '1'
    } else if n == 2 {
        '2'
    } else if n == 3 {
        '3'
    } else if n == 4 {
        '4'
    } else if n == 5 {
        '5'
    } else if n == 6 {
        '6'
    } else if n == 7 {
        '7'
    } else if n == 8 {
        '8'
    } else if n == 9 {
        '9'
    } else if n == 10 {
        'a'
    } else if n == 11 {
        'b'
    } else if n == 12 {
        'c'
    } else if n == 13 {
        'd'
    } else if n == 14 {
        'e'
    } else {
        'f'
    }
}

pub fn hex_digit(n: u32) -> (r: char)
    requires
        n < 16,
    ensures
        r == spec_hex_digit(n),
{
    if n == 0 {
        '0'
    } else if n == 1 {
        '1'
    } else if n == 2 {
        '2'
    } else if n == 3 {
        '3'
    } else if n == 4 {
        '4'
    } else if n == 5 {
        '5'
    } else if n == 6 {
        '6'
    } else if n == 7 {
        '7'
    } else if n == 8 {
        '8'
    } else if n == 9 {
        '9'
    } else if n == 10 {
        'a'
    } else if n == 11 {
        'b'
    } else if n == 12 {
        'c'
    } else if n == 13 {
        'd'
    } else if n == 14 {
        'e'
    } else {
        'f'
    }
}

/// How one character appears inside a JSON string: the two-character named
/// escapes, a six-character escape for the remaining control characters, and
/// every other character as itself.
pub open spec fn spec_escaped_char(c: char) -> Seq<char> {
    if c == '"' {
        seq!['\\', '"']
    } else if c == '\\' {
        seq!['\\', '\\']
    } else if c == '\u{8}' {
        seq!['\\', 'b']
    } else if c == '\t' {
        seq!['\\', 't']
    } else if c == '\n' {
        seq!['\\', 'n']
    } else if c == '\u{c}' {
        seq!['\\', 'f']
    } else if c == '\r' {
        seq!['\\', 'r']
    } else if (c as u32) < 32 {
        seq!['\\', 'u', '0', '0', spec_hex_digit((c as u32) / 16), spec_hex_digit((c as u32) % 16)]
    } else {
        seq![c]
    }
}

/// A whole character sequence escaped for a JSON string body.
pub open spec fn spec_escaped(s: Seq<char>) -> Seq<char>
    decreases s.len(),
{
    if s.len() == 0 {
        Seq::empty()
    } else {
        spec_escaped(s.drop_last()) + spec_escaped_char(s.last())
    }
}

/// A JSON string: quote, escaped body, quote.
pub open spec fn spec_json_string(s: Seq<char>) -> Seq<char> {
    seq!['"'] + spec_escaped(s) + seq!['"']
}

/// A JSON boolean.
pub open spec fn spec_json_bool(b: bool) -> Seq<char> {
    if b {
        "true"@
    } else {
        "false"@
    }
}

/// A JSON string or null, for an optional field.
pub open spec fn spec_json_opt_string(x: Option<String>) -> Seq<char> {
    match x {
        Some(s) => spec_json_string(s@),
        None => "null"@,
    }
}

/// The comma-joined bodies of a JSON array of strings.
pub open spec fn spec_join_strings(xs: Seq<String>) -> Seq<char>
    decreases xs.len(),
{
    if xs.len() == 0 {
        Seq::empty()
    } else if xs.len() == 1 {
        spec_json_string(xs[0]@)
    } else {
        spec_join_strings(xs.drop_last()) + ","@ + spec_json_string(xs.last()@)
    }
}

/// A JSON array of strings.
pub open spec fn spec_json_str_array(xs: Seq<String>) -> Seq<char> {
    "["@ + spec_join_strings(xs) + "]"@
}

/// The comma-joined members of a JSON object mapping strings to string
/// arrays, in the order the pairs are held.
pub open spec fn spec_join_str_map(fs: Seq<(String, Vec<String>)>) -> Seq<char>
    decreases fs.len(),
{
    if fs.len() == 0 {
        Seq::empty()
    } else if fs.len() == 1 {
        spec_json_string(fs[0].0@) + ":"@ + spec_json_str_array(fs[0].1@)
    } else {
        spec_join_str_map(fs.drop_last()) + ","@ + spec_json_string(fs.last().0@) + ":"@
            + spec_json_str_array(fs.last().1@)
    }
}

/// A JSON object mapping strings to string arrays.
pub open spec fn spec_json_str_map(fs: Seq<(String, Vec<String>)>) -> Seq<char> {
    "{"@ + spec_join_str_map(fs) + "}"@
}

/// Appends the escaped body of `s` to `out`.
pub fn append_escaped(out: &mut String, s: &str)
    ensures
        final(out)@ == old(out)@ + spec_escaped(s@),
{
    let n = s.unicode_len();
    let mut i: usize = 0;
    proof {
        assert(s@.take(0) =~= Seq::<char>::empty());
    }
    while i < n
        invariant
            n == s@.len(),
            i <= n,
            out@ == old(out)@ + spec_escaped(s@.take(i as int)),
        decreases n - i,
    {
        let ghost pre = out@;
        let c = s.get_char(i);
        if c == '"' {
            push_char(out, '\\');
            push_char(out, '"');
        } else if c == '\\' {
            push_char(out, '\\');
            push_char(out, '\\');
        } else if c == '\u{8}' {
            push_char(out, '\\');
            push_char(out, 'b');
        } else if c == '\t' {
            push_char(out, '\\');
            push_char(out, 't');
        } else if c == '\n' {
            push_char(out, '\\');
            push_char(out, 'n');
        } else if c == '\u{c}' {
            push_char(out, '\\');
            push_char(out, 'f');
        } else if c == '\r' {
            push_char(out, '\\');
            push_char(out, 'r');
        } else if (c as u32) < 32 {
            let code = c as u32;
            push_char(out, '\\');
            push_char(out, 'u');
            push_char(out, '0');
            push_char(out, '0');
            push_char(out, hex_digit(code / 16));
            push_char(out, hex_digit(code % 16));
        } else {
            push_char(out, c);
        }
        proof {
            assert(out@ =~= pre + spec_escaped_char(c));
            assert(s@.take(i + 1).drop_last() =~= s@.take(i as int));
            assert(s@.take(i + 1).last() == c);
            assert(out@ =~= old(out)@ + spec_escaped(s@.take(i + 1)));
        }
        i += 1;
    }
    proof {
        assert(s@.take(n as int) =~= s@);
    }
}

/// Appends the JSON string form of `s` to `out`.
pub fn append_json_string(out: &mut String, s: &str)
    ensures
        final(out)@ == old(out)@ + spec_json_string(s@),
{
    push_char(out, '"');
    append_escaped(out, s);
    push_char(out, '"');
    proof {
        assert(out@ =~= old(out)@ + spec_json_string(s@));
    }
}

/// Appends the JSON form of a boolean to `out`.
pub fn append_json_bool(out: &mut String, b: bool)
    ensures
        final(out)@ == old(out)@ + spec_json_bool(b),
{
    if b {
        out.append("true");
    } else {
        out.append("false");
    }
}

/// Appends a JSON string or `null` to `out`.
pub fn append_json_opt_string(out: &mut String, x: &Option<String>)
    ensures
        final(out)@ == old(out)@ + spec_json_opt_string(*x),
{
    match x {
        Some(s) => append_json_string(out, s.as_str()),
        None => out.append("null"),
    }
}

/// Appends a JSON array of strings to `out`.
pub fn append_json_str_array(out: &mut String, xs: &Vec<String>)
    ensures
        final(out)@ == old(out)@ + spec_json_str_array(xs@),
{
    out.append("[");
    let n = xs.len();
    let mut i: usize = 0;
    while i < n
        invariant
            n == xs@.len(),
            i <= n,
            out@ == old(out)@ + "["@ + spec_join_strings(xs@.take(i as int)),
        decreases n - i,
    {
        if i > 0 {
            out.append(",");
        }
        append_json_string(out, xs[i].as_str());
        proof {
            assert(xs@.take(i + 1).drop_last() =~= xs@.take(i as int));
            assert(xs@.take(i + 1).last() == xs@[i as int]);
            assert(out@ =~= old(out)@ + "["@ + spec_join_strings(xs@.take(i + 1)));
        }
        i += 1;
    }
    out.append("]");
    proof {
        assert(xs@.take(n as int) =~= xs@);
        assert(out@ =~= old(out)@ + spec_json_str_array(xs@));
    }
}

/// Appends a JSON object mapping strings to string arrays to `out`.
pub fn append_json_str_map(out: &mut String, fs: &Vec<(String, Vec<String>)>)
    ensures
        final(out)@ == old(out)@ + spec_json_str_map(fs@),
{
    out.append("{");
    let n = fs.len();
    let mut i: usize = 0;
    while i < n
        invariant
            n == fs@.len(),
            i <= n,
            out@ == old(out)@ + "{"@ + spec_join_str_map(fs@.take(i as int)),
        decreases n - i,
    {
        if i > 0 {
            out.append(",");
        }
        append_json_string(out, fs[i].0.as_str());
        out.append(":");
        append_json_str_array(out, &fs[i].1);
        proof {
            assert(fs@.take(i + 1).drop_last() =~= fs@.take(i as int));
            assert(fs@.take(i + 1).last() == fs@[i as int]);
            assert(out@ =~= old(out)@ + "{"@ + spec_join_str_map(fs@.take(i + 1)));
        }
        i += 1;
    }
    out.append("}");
    proof {
        assert(fs@.take(n as int) =~= fs@);
        assert(out@ =~= old(out)@ + spec_json_str_map(fs@));
    }
}

} // verus!
