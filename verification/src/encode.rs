//! Form-style percent-encoding: every character outside the unreserved set
//! {A-Z, a-z, 0-9, -, _, ., ~} is written as `%` followed by two (or, for
//! code points above 255, more) uppercase hexadecimal digits, except the
//! space character, which is written as `+`. A decoder for the same scheme
//! is provided so the encoding can be checked round trip.

use vstd::prelude::*;
use vstd::string::StrSliceExecFns;

verus! {

/// Characters that are passed through unchanged.
pub open spec fn is_unreserved(c: char) -> bool {
    ||| 'A' <= c <= 'Z'
    ||| 'a' <= c <= 'z'
    ||| '0' <= c <= '9'
    ||| c == '-'
    ||| c == '_'
    ||| c == '.'
    ||| c == '~'
}

/// The uppercase hexadecimal digit character for a value below sixteen.
pub open spec fn hex_digit(d: nat) -> char {
    if d == 0 {
        '0'
    } else if d == 1 {
        '1'
    } else if d == 2 {
        '2'
    } else if d == 3 {
        '3'
    } else if d == 4 {
        '4'
    } else if d == 5 {
        '5'
    } else if d == 6 {
        '6'
    } else if d == 7 {
        '7'
    } else if d == 8 {
        '8'
    } else if d == 9 {
        '9'
    } else if d == 10 {
        'A'
    } else if d == 11 {
        'B'
    } else if d == 12 {
        'C'
    } else if d == 13 {
        'D'
    } else if d == 14 {
        'E'
    } else {
        'F'
    }
}

/// Uppercase hexadecimal representation, most significant digit first, no
/// leading zeros.
pub open spec fn hex_rep(n: nat) -> Seq<char>
    decreases n,
{
    if n < 16 {
        seq![hex_digit(n)]
    } else {
        hex_rep(n / 16).push(hex_digit(n % 16))
    }
}

/// `%` followed by the code point in uppercase hexadecimal, zero-padded to
/// at least two digits.
pub open spec fn pct_encoded(c: char) -> Seq<char> {
    let n = c as u32 as nat;
    if n < 16 {
        seq!['%', '0'] + hex_rep(n)
    } else {
        seq!['%'] + hex_rep(n)
    }
}

/// How one character is encoded.
pub open spec fn encode_char(c: char) -> Seq<char> {
    if is_unreserved(c) {
        seq![c]
    } else if c == ' ' {
        seq!['+']
    } else {
        pct_encoded(c)
    }
}

/// How a whole string is encoded: each character in turn.
pub open spec fn encode_seq(s: Seq<char>) -> Seq<char>
    decreases s.len(),
{
    if s.len() == 0 {
        Seq::<char>::empty()
    } else {
        encode_char(s[0]) + encode_seq(s.drop_first())
    }
}

/// Encoding a string extended by one character appends that character's
/// encoding.
pub proof fn lemma_encode_snoc(s: Seq<char>, c: char)
    ensures
        encode_seq(s.push(c)) == encode_seq(s) + encode_char(c),
    decreases s.len(),
{
    if s.len() == 0 {
        assert(s.push(c)[0] == c);
        assert(s.push(c).drop_first() =~= Seq::<char>::empty());
        assert(encode_seq(s.push(c)) == encode_char(c) + encode_seq(Seq::<char>::empty()));
        assert(encode_char(c) + Seq::<char>::empty() =~= encode_char(c));
        assert(encode_seq(s) + encode_char(c) =~= encode_char(c));
    } else {
        assert(s.push(c)[0] == s[0]);
        assert(s.push(c).drop_first() =~= s.drop_first().push(c));
        lemma_encode_snoc(s.drop_first(), c);
        assert(encode_seq(s.push(c)) =~= encode_seq(s) + encode_char(c));
    }
}

/// Relies on String::push: appends exactly the given character at the end.
#[verifier::external_body]
fn push_char(r: &mut String, c: char)
    ensures
        final(r)@ == old(r)@ + seq![c],
{
    r.push(c);
}

fn hex_digit_char(d: u32) -> (c: char)
    requires
        d < 16,
    ensures
        c == hex_digit(d as nat),
{
    match d {
        0 => '0',
        1 => '1',
        2 => '2',
        3 => '3',
        4 => '4',
        5 => '5',
        6 => '6',
        7 => '7',
        8 => '8',
        9 => '9',
        10 => 'A',
        11 => 'B',
        12 => 'C',
        13 => 'D',
        14 => 'E',
        _ => 'F',
    }
}

fn push_hex(r: &mut String, n: u32)
    ensures
        final(r)@ == old(r)@ + hex_rep(n as nat),
    decreases n,
{
    if n < 16 {
        push_char(r, hex_digit_char(n));
    } else {
        push_hex(r, n / 16);
        push_char(r, hex_digit_char(n % 16));
        proof {
            assert(r@ =~= old(r)@ + hex_rep(n as nat));
        }
    }
}

fn push_encoded_char(r: &mut String, c: char)
    ensures
        final(r)@ == old(r)@ + encode_char(c),
{
    let u = c as u32;
    if (c >= 'A' && c <= 'Z') || (c >= 'a' && c <= 'z') || (c >= '0' && c <= '9') || c == '-' || c
        == '_' || c == '.' || c == '~' {
        push_char(r, c);
    } else if c == ' ' {
        push_char(r, '+');
    } else {
        push_char(r, '%');
        if u < 16 {
            push_char(r, '0');
            push_hex(r, u);
        } else {
            push_hex(r, u);
        }
        proof {
            assert(r@ =~= old(r)@ + encode_char(c));
        }
    }
}

/// Percent-encode a string, form style: unreserved characters pass through,
/// a space becomes `+`, anything else becomes `%` plus uppercase hex digits.
pub fn url_encode(s: &str) -> (r: String)
    ensures
        r@ == encode_seq(s@),
{
    let len = s.unicode_len();
    let mut r = String::new();
    let mut i: usize = 0;
    while i < len
        invariant
            len == s@.len(),
            0 <= i <= len,
            r@ == encode_seq(s@.take(i as int)),
        decreases len - i,
    {
        let c = s.get_char(i);
        push_encoded_char(&mut r, c);
        proof {
            assert(s@.take(i + 1 as int) =~= s@.take(i as int).push(s@[i as int]));
            lemma_encode_snoc(s@.take(i as int), s@[i as int]);
        }
        i += 1;
    }
    proof {
        assert(s@.take(len as int) =~= s@);
    }
    r
}

/// A hexadecimal digit, either case.
pub open spec fn is_hex_char(c: char) -> bool {
    ('0' <= c <= '9') || ('A' <= c <= 'F') || ('a' <= c <= 'f')
}

/// The value of a hexadecimal digit.
pub open spec fn hex_val(c: char) -> nat
    recommends
        is_hex_char(c),
{
    if '0' <= c <= '9' {
        (c as u32 - '0' as u32) as nat
    } else if 'A' <= c <= 'F' {
        (c as u32 - 'A' as u32 + 10) as nat
    } else {
        (c as u32 - 'a' as u32 + 10) as nat
    }
}

/// The character written as `%` followed by the two hexadecimal digits.
pub open spec fn pct_char(a: char, b: char) -> char {
    ((hex_val(a) * 16 + hex_val(b)) as u32) as char
}

/// Standard decoding of the form-style scheme: `+` is read as a space, `%`
/// followed by two hexadecimal digits as the character with that code
/// point, and anything else as itself.
pub open spec fn decode_seq(s: Seq<char>) -> Seq<char>
    decreases s.len(),
{
    if s.len() == 0 {
        Seq::<char>::empty()
    } else if s[0] == '%' && s.len() >= 3 && is_hex_char(s[1]) && is_hex_char(s[2]) {
        seq![pct_char(s[1], s[2])] + decode_seq(s.skip(3))
    } else if s[0] == '+' {
        seq![' '] + decode_seq(s.drop_first())
    } else {
        seq![s[0]] + decode_seq(s.drop_first())
    }
}

fn is_hex_char_exec(c: char) -> (b: bool)
    ensures
        b == is_hex_char(c),
{
    (c >= '0' && c <= '9') || (c >= 'A' && c <= 'F') || (c >= 'a' && c <= 'f')
}

fn hex_val_exec(c: char) -> (v: u32)
    requires
        is_hex_char(c),
    ensures
        v == hex_val(c),
        v < 16,
{
    let u = c as u32;
    if c >= '0' && c <= '9' {
        u - 48
    } else if c >= 'A' && c <= 'F' {
        u - 65 + 10
    } else {
        u - 97 + 10
    }
}

/// Decode a form-style percent-encoded string: `+` back to a space, `%XX`
/// back to the character with code point XX, everything else unchanged.
pub fn url_decode(s: &str) -> (r: String)
    ensures
        r@ == decode_seq(s@),
{
    let len = s.unicode_len();
    let mut r = String::new();
    let mut i: usize = 0;
    proof {
        assert(s@.skip(0) =~= s@);
        assert(r@ + decode_seq(s@) =~= decode_seq(s@));
    }
    while i < len
        invariant
            len == s@.len(),
            0 <= i <= len,
            decode_seq(s@) == r@ + decode_seq(s@.skip(i as int)),
        decreases len - i,
    {
        let ghost t = s@.skip(i as int);
        let c = s.get_char(i);
        proof {
            assert(t[0] == s@[i as int]);
        }
        if c == '%' && len - i >= 3 {
            let h1 = s.get_char(i + 1);
            let h2 = s.get_char(i + 2);
            proof {
                assert(t[1] == s@[i + 1 as int]);
                assert(t[2] == s@[i + 2 as int]);
            }
            if is_hex_char_exec(h1) && is_hex_char_exec(h2) {
                let v = hex_val_exec(h1) * 16 + hex_val_exec(h2);
                let decoded = (v as u8) as char;
                proof {
                    assert(decoded == pct_char(h1, h2));
                }
                push_char(&mut r, decoded);
                proof {
                    assert(t.skip(3) =~= s@.skip(i + 3 as int));
                    assert(decode_seq(t) == seq![pct_char(h1, h2)] + decode_seq(
                        s@.skip(i + 3 as int),
                    ));
                    assert(r@ + decode_seq(s@.skip(i + 3 as int)) =~= decode_seq(s@));
                }
                i += 3;
            } else {
                push_char(&mut r, '%');
                proof {
                    assert(t.drop_first() =~= s@.skip(i + 1 as int));
                    assert(r@ + decode_seq(s@.skip(i + 1 as int)) =~= decode_seq(s@));
                }
                i += 1;
            }
        } else if c == '+' {
            push_char(&mut r, ' ');
            proof {
                assert(t.drop_first() =~= s@.skip(i + 1 as int));
                assert(r@ + decode_seq(s@.skip(i + 1 as int)) =~= decode_seq(s@));
            }
            i += 1;
        } else {
            push_char(&mut r, c);
            proof {
                assert(t.drop_first() =~= s@.skip(i + 1 as int));
                assert(r@ + decode_seq(s@.skip(i + 1 as int)) =~= decode_seq(s@));
            }
            i += 1;
        }
    }
    proof {
        assert(s@.skip(len as int) =~= Seq::<char>::empty());
        assert(r@ + Seq::<char>::empty() =~= r@);
    }
    r
}

/// A letter, digit, or space: the inputs for which encoding is promised to
/// round trip.
pub open spec fn plain_char(c: char) -> bool {
    ('A' <= c <= 'Z') || ('a' <= c <= 'z') || ('0' <= c <= '9') || c == ' '
}

/// Percent-encoding round-trips: encoding then standard decoding (with `+`
/// read as a space) recovers any string made only of letters, digits, and
/// spaces.
pub proof fn lemma_encode_decode_roundtrip(s: Seq<char>)
    requires
        forall|i: int| 0 <= i < s.len() ==> plain_char(#[trigger] s[i]),
    ensures
        decode_seq(encode_seq(s)) == s,
    decreases s.len(),
{
    if s.len() == 0 {
        assert(decode_seq(encode_seq(s)) =~= s);
    } else {
        let c = s[0];
        assert(plain_char(c));
        let rest = s.drop_first();
        assert(forall|i: int| 0 <= i < rest.len() ==> plain_char(#[trigger] rest[i]));
        lemma_encode_decode_roundtrip(rest);
        let e = encode_seq(s);
        assert(e == encode_char(c) + encode_seq(rest));
        assert(encode_char(c).len() == 1);
        assert(e[0] == encode_char(c)[0]);
        assert(e.drop_first() =~= encode_seq(rest));
        if c == ' ' {
            assert(e[0] == '+');
            assert(decode_seq(e) == seq![' '] + decode_seq(encode_seq(rest)));
            assert(decode_seq(encode_seq(s)) =~= s);
        } else {
            assert(e[0] == c);
            assert(c != '%' && c != '+');
            assert(decode_seq(e) == seq![c] + decode_seq(encode_seq(rest)));
            assert(decode_seq(encode_seq(s)) =~= s);
        }
    }
}

} // verus!
