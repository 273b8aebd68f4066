use vstd::prelude::*;
use vstd::string::StrSliceExecFns;
use vstd::utf8::encode_utf8;

verus! {

// `String::push` has no specification in vstd; it appends exactly one
// character to the string.
pub assume_specification[ String::push ](s: &mut String, c: char)
    ensures
        final(s)@ == old(s)@.push(c),
;

/// The decimal digit character for `d` (`d < 10`).
pub open spec fn dec_digit(d: nat) -> char {
    if d == 0 {
        '0'
    } else if d == 1 {
        '1'
    } else if d == 2 {
        '2'
    } else if d == 3 {
        '3'
    } else if d == 4 {
        '4'
    } else if d == 5 {
        '5'
    } else if d == 6 {
        '6'
    } else if d == 7 {
        '7'
    } else if d == 8 {
        '8'
    } else {
        '9'
    }
}

/// The decimal text of a natural number, most significant digit first,
/// with no leading zeros (a single `'0'` for zero).
pub open spec fn dec_text(n: nat) -> Seq<char>
    decreases n,
{
    if n < 10 {
        seq![dec_digit(n)]
    } else {
        dec_text(n / 10).push(dec_digit(n % 10))
    }
}

/// The decimal text of an integer: a leading `'-'` for negative values.
pub open spec fn int_text(i: int) -> Seq<char> {
    if i < 0 {
        seq!['-'] + dec_text((-i) as nat)
    } else {
        dec_text(i as nat)
    }
}

fn dec_digit_char(d: u64) -> (c: char)
    requires
        d < 10,
    ensures
        c == dec_digit(d as nat),
{
    if d == 0 {
        '0'
    } else if d == 1 {
        '1'
    } else if d == 2 {
        '2'
    } else if d == 3 {
        '3'
    } else if d == 4 {
        '4'
    } else if d == 5 {
        '5'
    } else if d == 6 {
        '6'
    } else if d == 7 {
        '7'
    } else if d == 8 {
        '8'
    } else {
        '9'
    }
}

fn push_dec(n: u64, out: &mut String)
    ensures
        final(out)@ == old(out)@ + dec_text(n as nat),
    decreases n,
{
    if n >= 10 {
        proof {
            assert(n / 10 < n) by (nonlinear_arith)
                requires
                    n >= 10,
            ;
        }
        push_dec(n / 10, out);
    }
    let d = dec_digit_char(n % 10);
    out.push(d);
    proof {
        if n < 10 {
            assert(n % 10 == n);
            assert(final(out)@ =~= old(out)@ + dec_text(n as nat));
        } else {
            assert(final(out)@ =~= old(out)@ + dec_text(n as nat));
        }
    }
}

/// The decimal rendering of an unsigned 64-bit integer.
pub fn u64_to_string(n: u64) -> (r: String)
    ensures
        r@ == dec_text(n as nat),
{
    let mut s = String::new();
    push_dec(n, &mut s);
    proof {
        assert(s@ =~= dec_text(n as nat));
    }
    s
}

/// The decimal rendering of a signed 64-bit integer.
pub fn i64_to_string(i: i64) -> (r: String)
    ensures
        r@ == int_text(i as int),
{
    let mut s = String::new();
    if i >= 0 {
        push_dec(i as u64, &mut s);
    } else {
        s.push('-');
        let mag: u64 = (-(i as i128)) as u64;
        proof {
            assert(mag as int == -(i as int));
        }
        push_dec(mag, &mut s);
    }
    proof {
        assert(s@ =~= int_text(i as int));
    }
    s
}

/// Character-for-character string equality, stated over the views.
pub fn str_eq(a: &str, b: &str) -> (r: bool)
    ensures
        r == (a@ == b@),
{
    let alen = a.unicode_len();
    let blen = b.unicode_len();
    if alen != blen {
        return false;
    }
    let mut i: usize = 0;
    while i < alen
        invariant
            i <= alen,
            alen == a@.len(),
            alen == b@.len(),
            forall|j: int| 0 <= j < i ==> a@[j] == b@[j],
        decreases alen - i,
    {
        let ca = a.get_char(i);
        let cb = b.get_char(i);
        if ca != cb {
            return false;
        }
        i += 1;
    }
    proof {
        assert(a@ =~= b@);
    }
    true
}

/// The uppercase hexadecimal digit character for `d` (`d < 16`).
pub open spec fn hex_digit_upper(d: nat) -> char {
    if d < 10 {
        dec_digit(d)
    } else if d == 10 {
        'A'
    } else if d == 11 {
        'B'
    } else if d == 12 {
        'C'
    } else if d == 13 {
        'D'
    } else if d == 14 {
        'E'
    } else {
        'F'
    }
}

/// How one byte appears in a form-encoded query string: ASCII letters,
/// digits and `*-._` stand as themselves, a space becomes `+`, and
/// anything else a `%XX` escape with uppercase hex digits.
pub open spec fn form_encoded_byte(b: u8) -> Seq<char> {
    if (48 <= b && b <= 57) || (65 <= b && b <= 90) || (97 <= b && b <= 122) || b == 42 || b == 45
        || b == 46 || b == 95 {
        seq![b as char]
    } else if b == 32 {
        seq!['+']
    } else {
        seq!['%', hex_digit_upper((b / 16) as nat), hex_digit_upper((b % 16) as nat)]
    }
}

/// The form encoding of a byte sequence.
pub open spec fn form_encoded_bytes(bs: Seq<u8>) -> Seq<char>
    decreases bs.len(),
{
    if bs.len() == 0 {
        Seq::empty()
    } else {
        form_encoded_byte(bs[0]) + form_encoded_bytes(bs.drop_first())
    }
}

/// The form encoding of a text: its UTF-8 bytes, each encoded.
pub open spec fn form_encoded_text(s: Seq<char>) -> Seq<char> {
    form_encoded_bytes(encode_utf8(s))
}

proof fn lemma_form_encoded_bytes_push(bs: Seq<u8>, b: u8)
    ensures
        form_encoded_bytes(bs.push(b)) == form_encoded_bytes(bs) + form_encoded_byte(b),
    decreases bs.len(),
{
    let sp = bs.push(b);
    if bs.len() == 0 {
        assert(sp[0] == b);
        assert(sp.drop_first() =~= Seq::<u8>::empty());
        assert(form_encoded_bytes(sp.drop_first()) == Seq::<char>::empty());
        assert(form_encoded_bytes(sp) == form_encoded_byte(b) + form_encoded_bytes(
            sp.drop_first(),
        ));
        assert(form_encoded_bytes(sp) =~= form_encoded_bytes(bs) + form_encoded_byte(b));
    } else {
        assert(sp[0] == bs[0]);
        assert(sp.drop_first() =~= bs.drop_first().push(b));
        lemma_form_encoded_bytes_push(bs.drop_first(), b);
        assert(form_encoded_bytes(sp) =~= form_encoded_bytes(bs) + form_encoded_byte(b));
    }
}

fn hex_digit_upper_char(d: u8) -> (c: char)
    requires
        d < 16,
    ensures
        c == hex_digit_upper(d as nat),
{
    if d == 0 {
        '0'
    } else if d == 1 {
        '1'
    } else if d == 2 {
        '2'
    } else if d == 3 {
        '3'
    } else if d == 4 {
        '4'
    } else if d == 5 {
        '5'
    } else if d == 6 {
        '6'
    } else if d == 7 {
        '7'
    } else if d == 8 {
        '8'
    } else if d == 9 {
        '9'
    } else if d == 10 {
        'A'
    } else if d == 11 {
        'B'
    } else if d == 12 {
        'C'
    } else if d == 13 {
        'D'
    } else if d == 14 {
        'E'
    } else {
        'F'
    }
}

/// Append the form encoding of a text to `out`.
pub fn push_form_encoded(s: &str, out: &mut String)
    ensures
        final(out)@ == old(out)@ + form_encoded_text(s@),
{
    let bytes = s.as_bytes_vec();
    let n = bytes.len();
    let mut i: usize = 0;
    proof {
        assert(old(out)@ + form_encoded_bytes(bytes@.take(0)) =~= old(out)@);
    }
    while i < n
        invariant
            i <= n,
            n == bytes@.len(),
            bytes@ == encode_utf8(s@),
            out@ == old(out)@ + form_encoded_bytes(bytes@.take(i as int)),
        decreases n - i,
    {
        let b = bytes[i];
        if (48 <= b && b <= 57) || (65 <= b && b <= 90) || (97 <= b && b <= 122) || b == 42 || b
            == 45 || b == 46 || b == 95 {
            out.push(b as char);
        } else if b == 32 {
            out.push('+');
        } else {
            out.push('%');
            let hi = hex_digit_upper_char(b / 16);
            out.push(hi);
            let lo = hex_digit_upper_char(b % 16);
            out.push(lo);
        }
        proof {
            assert(bytes@.take(i + 1 as int) =~= bytes@.take(i as int).push(bytes@[i as int]));
            lemma_form_encoded_bytes_push(bytes@.take(i as int), bytes@[i as int]);
            assert(out@ =~= old(out)@ + form_encoded_bytes(bytes@.take(i + 1 as int)));
        }
        i += 1;
    }
    proof {
        assert(bytes@.take(n as int) =~= bytes@);
    }
}

/// The ASCII-lowercase form of one character; anything outside `'A'..='Z'`
/// is unchanged.
pub open spec fn lower_char(c: char) -> char {
    if 'A' <= c && c <= 'Z' {
        ((c as int) + 32) as char
    } else {
        c
    }
}

/// The ASCII-lowercase form of a text.
pub open spec fn lower_text(s: Seq<char>) -> Seq<char> {
    Seq::new(s.len(), |i: int| lower_char(s[i]))
}

fn lower_char_exec(c: char) -> (r: char)
    ensures
        r == lower_char(c),
{
    if 'A' <= c && c <= 'Z' {
        let b: u8 = c as u8;
        proof {
            assert(b as int == c as int);
        }
        (b + 32) as char
    } else {
        c
    }
}

/// Case-insensitive equality of two ASCII-insensitive texts: equal after
/// lowering every ASCII uppercase letter. HTTP header names compare this way.
pub fn str_eq_ignore_ascii_case(a: &str, b: &str) -> (r: bool)
    ensures
        r == (lower_text(a@) == lower_text(b@)),
{
    let alen = a.unicode_len();
    let blen = b.unicode_len();
    if alen != blen {
        proof {
            assert(lower_text(a@).len() != lower_text(b@).len());
        }
        return false;
    }
    let mut i: usize = 0;
    while i < alen
        invariant
            i <= alen,
            alen == a@.len(),
            alen == b@.len(),
            forall|j: int| 0 <= j < i ==> lower_char(a@[j]) == lower_char(b@[j]),
        decreases alen - i,
    {
        let ca = lower_char_exec(a.get_char(i));
        let cb = lower_char_exec(b.get_char(i));
        if ca != cb {
            proof {
                assert(lower_text(a@)[i as int] != lower_text(b@)[i as int]);
            }
            return false;
        }
        i += 1;
    }
    proof {
        assert(lower_text(a@) =~= lower_text(b@));
    }
    true
}

} // verus!
