use vstd::prelude::*;

use crate::text::dec_digit;
use crate::text::i64_to_string;
use crate::text::int_text;

verus! {

/// A JSON document built by a caller and serialized verbatim into a request
/// body. Numbers are 64-bit integers; an object keeps its fields in
/// insertion order.
#[derive(Debug, PartialEq, Eq)]
pub enum JsonValue {
    Null,
    Bool(bool),
    Int(i64),
    Str(String),
    Array(Vec<JsonValue>),
    Object(Vec<(String, JsonValue)>),
}

/// The lowercase hexadecimal digit character for `d` (`d < 16`).
pub open spec fn hex_digit(d: nat) -> char {
    if d < 10 {
        dec_digit(d)
    } else if d == 10 {
        'a'
    } else if d == 11 {
        'b'
    } else if d == 12 {
        'c'
    } else if d == 13 {
        'd'
    } else if d == 14 {
        'e'
    } else {
        'f'
    }
}

/// How one character appears inside a JSON string literal: quotes and
/// backslashes get a backslash escape, the named control characters their
/// short form, any other control character a `\u00XX` escape, and
/// everything else stands as itself.
pub open spec fn escaped_char(c: char) -> Seq<char> {
    if c == '"' {
        seq!['\\', '"']
    } else if c == '\\' {
        seq!['\\', '\\']
    } else if c == '\u{8}' {
        seq!['\\', 'b']
    } else if c == '\t' {
        seq!['\\', 't']
    } else if c == '\n' {
        seq!['\\', 'n']
    } else if c == '\u{c}' {
        seq!['\\', 'f']
    } else if c == '\r' {
        seq!['\\', 'r']
    } else if (c as int) < 32 {
        seq!['\\', 'u', '0', '0', hex_digit((c as int / 16) as nat), hex_digit((c as int % 16) as nat)]
    } else {
        seq![c]
    }
}

/// The body of a JSON string literal: every character escaped.
pub open spec fn escaped_text(s: Seq<char>) -> Seq<char>
    decreases s.len(),
{
    if s.len() == 0 {
        Seq::empty()
    } else {
        escaped_char(s[0]) + escaped_text(s.drop_first())
    }
}

/// A JSON string literal: the escaped text between double quotes.
pub open spec fn quoted_text(s: Seq<char>) -> Seq<char> {
    seq!['"'] + escaped_text(s) + seq!['"']
}

/// The serialized form of a JSON value.
pub open spec fn json_text(v: JsonValue) -> Seq<char>
    decreases v,
{
    match v {
        JsonValue::Null => seq!['n', 'u', 'l', 'l'],
        JsonValue::Bool(b) => if b {
            seq!['t', 'r', 'u', 'e']
        } else {
            seq!['f', 'a', 'l', 's', 'e']
        },
        JsonValue::Int(i) => int_text(i as int),
        JsonValue::Str(s) => quoted_text(s@),
        JsonValue::Array(items) => seq!['['] + items_text(items@) + seq![']'],
        JsonValue::Object(fields) => seq!['{'] + fields_text(fields@) + seq!['}'],
    }
}

/// The serialized elements of a JSON array, joined by commas.
pub open spec fn items_text(s: Seq<JsonValue>) -> Seq<char>
    decreases s,
{
    if s.len() == 0 {
        Seq::empty()
    } else if s.len() == 1 {
        json_text(s[0])
    } else {
        json_text(s[0]) + seq![','] + items_text(s.drop_first())
    }
}

/// One serialized object field: quoted key, colon, serialized value.
pub open spec fn field_text(f: (String, JsonValue)) -> Seq<char>
    decreases f,
{
    quoted_text(f.0@) + seq![':'] + json_text(f.1)
}

/// The serialized fields of a JSON object, joined by commas.
pub open spec fn fields_text(s: Seq<(String, JsonValue)>) -> Seq<char>
    decreases s,
{
    if s.len() == 0 {
        Seq::empty()
    } else if s.len() == 1 {
        field_text(s[0])
    } else {
        field_text(s[0]) + seq![','] + fields_text(s.drop_first())
    }
}

/// Texts joined by a separator.
pub open spec fn joined(parts: Seq<Seq<char>>, sep: Seq<char>) -> Seq<char>
    decreases parts,
{
    if parts.len() == 0 {
        Seq::empty()
    } else if parts.len() == 1 {
        parts[0]
    } else {
        parts[0] + sep + joined(parts.drop_first(), sep)
    }
}

/// Joining one more part appends a separator and that part.
pub proof fn lemma_joined_push(parts: Seq<Seq<char>>, sep: Seq<char>, x: Seq<char>)
    ensures
        joined(parts.push(x), sep) == if parts.len() == 0 {
            x
        } else {
            joined(parts, sep) + sep + x
        },
    decreases parts.len(),
{
    let sp = parts.push(x);
    if parts.len() == 0 {
        assert(sp.len() == 1);
        assert(sp[0] == x);
    } else {
        assert(sp[0] == parts[0]);
        assert(sp.drop_first() =~= parts.drop_first().push(x));
        lemma_joined_push(parts.drop_first(), sep, x);
        assert(joined(sp, sep) =~= joined(parts, sep) + sep + x);
    }
}

pub(crate) proof fn lemma_items_text_push(s: Seq<JsonValue>, x: JsonValue)
    ensures
        items_text(s.push(x)) == if s.len() == 0 {
            json_text(x)
        } else {
            items_text(s) + seq![','] + json_text(x)
        },
    decreases s.len(),
{
    let sp = s.push(x);
    if s.len() == 0 {
        assert(sp.len() == 1);
        assert(sp[0] == x);
    } else {
        assert(sp[0] == s[0]);
        assert(sp.drop_first() =~= s.drop_first().push(x));
        lemma_items_text_push(s.drop_first(), x);
        assert(items_text(sp) =~= items_text(s) + seq![','] + json_text(x));
    }
}

pub(crate) proof fn lemma_fields_text_push(s: Seq<(String, JsonValue)>, x: (String, JsonValue))
    ensures
        fields_text(s.push(x)) == if s.len() == 0 {
            field_text(x)
        } else {
            fields_text(s) + seq![','] + field_text(x)
        },
    decreases s.len(),
{
    let sp = s.push(x);
    if s.len() == 0 {
        assert(sp.len() == 1);
        assert(sp[0] == x);
    } else {
        assert(sp[0] == s[0]);
        assert(sp.drop_first() =~= s.drop_first().push(x));
        lemma_fields_text_push(s.drop_first(), x);
        assert(fields_text(sp) =~= fields_text(s) + seq![','] + field_text(x));
    }
}

proof fn lemma_escaped_text_push(s: Seq<char>, c: char)
    ensures
        escaped_text(s.push(c)) == escaped_text(s) + escaped_char(c),
    decreases s.len(),
{
    let sp = s.push(c);
    if s.len() == 0 {
        assert(sp[0] == c);
        assert(sp.drop_first() =~= Seq::<char>::empty());
        assert(escaped_text(sp.drop_first()) == Seq::<char>::empty());
        assert(escaped_text(sp) == escaped_char(c) + escaped_text(sp.drop_first()));
        assert(escaped_text(sp) =~= escaped_text(s) + escaped_char(c));
    } else {
        assert(sp[0] == s[0]);
        assert(sp.drop_first() =~= s.drop_first().push(c));
        lemma_escaped_text_push(s.drop_first(), c);
        assert(escaped_text(sp) =~= escaped_text(s) + escaped_char(c));
    }
}

fn hex_digit_char(d: u32) -> (c: char)
    requires
        d < 16,
    ensures
        c == hex_digit(d as nat),
{
    if d == 0 {
        '0'
    } else if d == 1 {
        '1'
    } else if d == 2 {
        '2'
    } else if d == 3 {
        '3'
    } else if d == 4 {
        '4'
    } else if d == 5 {
        '5'
    } else if d == 6 {
        '6'
    } else if d == 7 {
        '7'
    } else if d == 8 {
        '8'
    } else if d == 9 {
        '9'
    } else if d == 10 {
        'a'
    } else if d == 11 {
        'b'
    } else if d == 12 {
        'c'
    } else if d == 13 {
        'd'
    } else if d == 14 {
        'e'
    } else {
        'f'
    }
}

fn push_escaped_char(c: char, out: &mut String)
    ensures
        final(out)@ == old(out)@ + escaped_char(c),
{
    if c == '"' {
        out.push('\\');
        out.push('"');
    } else if c == '\\' {
        out.push('\\');
        out.push('\\');
    } else if c == '\u{8}' {
        out.push('\\');
        out.push('b');
    } else if c == '\t' {
        out.push('\\');
        out.push('t');
    } else if c == '\n' {
        out.push('\\');
        out.push('n');
    } else if c == '\u{c}' {
        out.push('\\');
        out.push('f');
    } else if c == '\r' {
        out.push('\\');
        out.push('r');
    } else if (c as u32) < 32 {
        let d = c as u32;
        out.push('\\');
        out.push('u');
        out.push('0');
        out.push('0');
        let hi = hex_digit_char(d / 16);
        out.push(hi);
        let lo = hex_digit_char(d % 16);
        out.push(lo);
    } else {
        out.push(c);
    }
    proof {
        assert(final(out)@ =~= old(out)@ + escaped_char(c));
    }
}

fn push_quoted(s: &str, out: &mut String)
    ensures
        final(out)@ == old(out)@ + quoted_text(s@),
{
    out.push('"');
    let n = s.unicode_len();
    let mut i: usize = 0;
    while i < n
        invariant
            i <= n,
            n == s@.len(),
            out@ == old(out)@ + seq!['"'] + escaped_text(s@.take(i as int)),
        decreases n - i,
    {
        let c = s.get_char(i);
        push_escaped_char(c, out);
        proof {
            assert(s@.take(i + 1 as int) =~= s@.take(i as int).push(s@[i as int]));
            lemma_escaped_text_push(s@.take(i as int), s@[i as int]);
        }
        i += 1;
    }
    out.push('"');
    proof {
        assert(s@.take(n as int) =~= s@);
        assert(final(out)@ =~= old(out)@ + quoted_text(s@));
    }
}

fn write_json(v: &JsonValue, out: &mut String)
    ensures
        final(out)@ == old(out)@ + json_text(*v),
    decreases *v,
{
    match v {
        JsonValue::Null => {
            out.push('n');
            out.push('u');
            out.push('l');
            out.push('l');
            proof {
                assert(final(out)@ =~= old(out)@ + json_text(*v));
            }
        },
        JsonValue::Bool(b) => {
            if *b {
                out.push('t');
                out.push('r');
                out.push('u');
                out.push('e');
            } else {
                out.push('f');
                out.push('a');
                out.push('l');
                out.push('s');
                out.push('e');
            }
            proof {
                assert(final(out)@ =~= old(out)@ + json_text(*v));
            }
        },
        JsonValue::Int(i) => {
            let num = i64_to_string(*i);
            out.append(num.as_str());
        },
        JsonValue::Str(s) => {
            push_quoted(s.as_str(), out);
        },
        JsonValue::Array(items) => {
            out.push('[');
            let n = items.len();
            let mut i: usize = 0;
            while i < n
                invariant
                    i <= n,
                    n == items@.len(),
                    v is Array,
                    items@ == v->Array_0@,
                    out@ == old(out)@ + seq!['['] + items_text(items@.take(i as int)),
                decreases n - i,
            {
                if i > 0 {
                    out.push(',');
                }
                proof {
                    assert(decreases_to!(*v => items@[i as int]));
                }
                write_json(&items[i], out);
                proof {
                    assert(items@.take(i + 1 as int) =~= items@.take(i as int).push(items@[i as int]));
                    lemma_items_text_push(items@.take(i as int), items@[i as int]);
                }
                i += 1;
            }
            out.push(']');
            proof {
                assert(items@.take(n as int) =~= items@);
                assert(final(out)@ =~= old(out)@ + json_text(*v));
            }
        },
        JsonValue::Object(fields) => {
            out.push('{');
            let n = fields.len();
            let mut i: usize = 0;
            while i < n
                invariant
                    i <= n,
                    n == fields@.len(),
                    v is Object,
                    fields@ == v->Object_0@,
                    out@ == old(out)@ + seq!['{'] + fields_text(fields@.take(i as int)),
                decreases n - i,
            {
                if i > 0 {
                    out.push(',');
                }
                push_quoted(fields[i].0.as_str(), out);
                out.push(':');
                proof {
                    assert(decreases_to!(*v => fields@[i as int].1));
                }
                write_json(&fields[i].1, out);
                proof {
                    assert(fields@.take(i + 1 as int) =~= fields@.take(i as int).push(fields@[i as int]));
                    lemma_fields_text_push(fields@.take(i as int), fields@[i as int]);
                }
                i += 1;
            }
            out.push('}');
            proof {
                assert(fields@.take(n as int) =~= fields@);
                assert(final(out)@ =~= old(out)@ + json_text(*v));
            }
        },
    }
}

/// Serialize a JSON value once, at the boundary where a request body is
/// assembled.
pub fn json_to_string(v: &JsonValue) -> (r: String)
    ensures
        r@ == json_text(*v),
{
    let mut out = String::new();
    write_json(v, &mut out);
    proof {
        assert(out@ =~= json_text(*v));
    }
    out
}

/// Declares serde_json's document type so that a parsed response body can
/// be carried in a field; the value stays opaque to the library.
#[verifier::external_type_specification]
#[verifier::external_body]
pub struct ExValue(serde_json::Value);

/// Whether a text is a well-formed JSON document, as the parser of the
/// JSON codec decides it.
pub uninterp spec fn json_wellformed(s: Seq<char>) -> bool;

/// Relies on serde_json::from_str::<Value>: whether a text parses as JSON
/// is a function of the text alone; the parser returns a value exactly for
/// well-formed input and an error otherwise.
#[verifier::external_body]
pub(crate) fn parse_json(s: &str) -> (r: Result<serde_json::Value, String>)
    ensures
        r is Ok <==> json_wellformed(s@),
{
    match serde_json::from_str::<serde_json::Value>(s) {
        Ok(v) => Ok(v),
        Err(e) => Err(e.to_string()),
    }
}

} // verus!
