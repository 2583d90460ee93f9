use vstd::prelude::*;
use vstd::utf8::encode_utf8;
use vstd::utf8::is_ascii_chars;

use crate::text::chars_of;

verus! {

/// Bytes that percent-encoding leaves as they are: ASCII letters, digits and `-_.~`.
pub open spec fn is_unreserved(b: u8) -> bool {
    ||| 65 <= b <= 90
    ||| 97 <= b <= 122
    ||| 48 <= b <= 57
    ||| b == 45
    ||| b == 95
    ||| b == 46
    ||| b == 126
}

/// Upper-case hexadecimal digit for a value below sixteen.
pub open spec fn hex_upper(d: nat) -> char {
    if d < 10 {
        (48 + d) as char
    } else {
        (55 + d) as char
    }
}

/// The text that stands for one byte in a percent-encoded string.
pub open spec fn encode_byte(b: u8) -> Seq<char> {
    if is_unreserved(b) {
        seq![b as char]
    } else {
        seq!['%', hex_upper((b / 16) as nat), hex_upper((b % 16) as nat)]
    }
}

/// Percent-encoding of a byte sequence, byte by byte.
pub open spec fn url_encode_bytes(bs: Seq<u8>) -> Seq<char>
    decreases bs.len(),
{
    if bs.len() == 0 {
        seq![]
    } else {
        encode_byte(bs[0]) + url_encode_bytes(bs.drop_first())
    }
}

/// Percent-encoding of a text: its UTF-8 bytes, each encoded by `encode_byte`.
pub open spec fn url_encoded(s: Seq<char>) -> Seq<char> {
    url_encode_bytes(encode_utf8(s))
}

fn hex_upper_exec(d: u8) -> (c: char)
    requires
        d < 16,
    ensures
        c == hex_upper(d as nat),
{
    if d < 10 {
        (48u8 + d) as char
    } else {
        (55u8 + d) as char
    }
}

/// Percent-encodes the UTF-8 bytes of `s`: ASCII letters, digits and `-_.~`
/// stay, every other byte becomes `%XY` with upper-case hexadecimal digits.
pub fn urlencoding_encode(s: &str) -> (r: String)
    ensures
        r@ == url_encoded(s@),
{
    let bytes = s.as_bytes();
    let mut r = String::new();
    let mut i: usize = 0;
    assert(bytes@.skip(0) =~= bytes@);
    assert(r@ + url_encode_bytes(bytes@) =~= url_encode_bytes(bytes@));
    while i < bytes.len()
        invariant
            bytes@ == encode_utf8(s@),
            i <= bytes@.len(),
            url_encoded(s@) == r@ + url_encode_bytes(bytes@.skip(i as int)),
        decreases bytes@.len() - i,
    {
        let b = bytes[i];
        let ghost rest = bytes@.skip(i as int);
        assert(rest[0] == b);
        assert(rest.drop_first() =~= bytes@.skip(i + 1));
        let ghost before = r@;
        if (65 <= b && b <= 90) || (97 <= b && b <= 122) || (48 <= b && b <= 57) || b == 45
            || b == 95 || b == 46 || b == 126 {
            r.push(b as char);
        } else {
            r.push('%');
            r.push(hex_upper_exec(b / 16));
            r.push(hex_upper_exec(b % 16));
        }
        assert(r@ =~= before + encode_byte(b));
        i += 1;
    }
    assert(bytes@.skip(i as int) =~= Seq::<u8>::empty());
    assert(r@ =~= url_encoded(s@));
    r
}

/// Value of a hexadecimal digit, either case.
pub open spec fn hex_value(c: char) -> Option<nat> {
    if '0' <= c <= '9' {
        Some((c as nat - 48) as nat)
    } else if 'a' <= c <= 'f' {
        Some((c as nat - 87) as nat)
    } else if 'A' <= c <= 'F' {
        Some((c as nat - 55) as nat)
    } else {
        None
    }
}

/// The byte that the two characters after a `%` stand for, read as an
/// unsigned hexadecimal number: two hexadecimal digits, or a `+` sign
/// followed by one digit. Anything else stands for no byte.
pub open spec fn percent_byte(h1: char, h2: char) -> Option<u8> {
    if h1 == '+' {
        match hex_value(h2) {
            Some(v) => Some(v as u8),
            None => None,
        }
    } else {
        match (hex_value(h1), hex_value(h2)) {
            (Some(a), Some(b)) => Some((16 * a + b) as u8),
            _ => None,
        }
    }
}

/// Decoding of a percent-encoded text: `%` takes the next two characters
/// (a missing one counts as `0`) and gives the byte they stand for as the
/// character with that code, or nothing; `+` gives a space; any other
/// character stands for itself.
pub open spec fn url_decoded(s: Seq<char>) -> Seq<char>
    decreases s.len(),
{
    if s.len() == 0 {
        seq![]
    } else if s[0] == '%' {
        let h1 = if s.len() > 1 { s[1] } else { '0' };
        let h2 = if s.len() > 2 { s[2] } else { '0' };
        let used: int = if s.len() > 3 { 3 } else { s.len() as int };
        let head = match percent_byte(h1, h2) {
            Some(b) => seq![b as char],
            None => seq![],
        };
        head + url_decoded(s.skip(used))
    } else if s[0] == '+' {
        seq![' '] + url_decoded(s.skip(1))
    } else {
        seq![s[0]] + url_decoded(s.skip(1))
    }
}

fn hex_value_exec(c: char) -> (r: Option<u8>)
    ensures
        r matches Some(v) ==> hex_value(c) == Some(v as nat),
        r is None <==> hex_value(c) is None,
{
    if '0' <= c && c <= '9' {
        Some(((c as u32) - 48) as u8)
    } else if 'a' <= c && c <= 'f' {
        Some(((c as u32) - 87) as u8)
    } else if 'A' <= c && c <= 'F' {
        Some(((c as u32) - 55) as u8)
    } else {
        None
    }
}

fn percent_byte_exec(h1: char, h2: char) -> (r: Option<u8>)
    ensures
        r == percent_byte(h1, h2),
{
    if h1 == '+' {
        hex_value_exec(h2)
    } else {
        match (hex_value_exec(h1), hex_value_exec(h2)) {
            (Some(a), Some(b)) => Some(16 * a + b),
            _ => None,
        }
    }
}

/// Decodes a percent-encoded query value (see `url_decoded`).
pub fn urlencoding_decode(s: &str) -> (r: String)
    ensures
        r@ == url_decoded(s@),
{
    decode_chars(&chars_of(s))
}

/// Decodes percent-encoded characters (see `url_decoded`).
pub fn decode_chars(cs: &Vec<char>) -> (r: String)
    ensures
        r@ == url_decoded(cs@),
{
    let ghost s = cs@;
    let n = cs.len();
    let mut r = String::new();
    let mut i: usize = 0;
    assert(s.skip(0) =~= s);
    assert(r@ + url_decoded(s) =~= url_decoded(s));
    while i < n
        invariant
            cs@ == s,
            n == cs@.len(),
            i <= n,
            url_decoded(s) == r@ + url_decoded(s.skip(i as int)),
        decreases n - i,
    {
        let ghost rest = s.skip(i as int);
        let ghost before = r@;
        let c = cs[i];
        assert(rest[0] == c);
        if c == '%' {
            let h1 = if n - i > 1 { cs[i + 1] } else { '0' };
            let h2 = if n - i > 2 { cs[i + 2] } else { '0' };
            let used: usize = if n - i > 3 { 3 } else { n - i };
            match percent_byte_exec(h1, h2) {
                Some(b) => r.push(b as char),
                None => {},
            }
            assert(rest.skip(used as int) =~= s.skip(i + used));
            i += used;
        } else {
            if c == '+' {
                r.push(' ');
            } else {
                r.push(c);
            }
            assert(rest.skip(1) =~= s.skip(i + 1));
            i += 1;
        }
        assert(url_decoded(s) == r@ + url_decoded(s.skip(i as int)));
    }
    assert(s.skip(i as int) =~= Seq::<char>::empty());
    assert(r@ =~= url_decoded(s));
    r
}

proof fn lemma_hex_roundtrip(d: nat)
    requires
        d < 16,
    ensures
        hex_value(hex_upper(d)) == Some(d),
        hex_upper(d) != '+',
{
}

proof fn lemma_decode_encoded_byte(c: char, rest: Seq<char>)
    requires
        c <= '\u{7f}',
    ensures
        url_decoded(encode_byte(c as u8) + rest) == seq![c] + url_decoded(rest),
{
    let b = c as u8;
    assert(b as char == c);
    let e = encode_byte(b);
    let t = e + rest;
    if is_unreserved(b) {
        assert(t[0] == c);
        assert(t.skip(1) =~= rest);
    } else {
        lemma_hex_roundtrip((b / 16) as nat);
        lemma_hex_roundtrip((b % 16) as nat);
        assert(t[0] == '%');
        assert(t[1] == hex_upper((b / 16) as nat));
        assert(t[2] == hex_upper((b % 16) as nat));
        assert(percent_byte(t[1], t[2]) == Some(b));
        assert(t.skip(3) =~= rest);
    }
}

/// Decoding the percent-encoding of an ASCII text gives the text back.
pub proof fn law_decode_encode_ascii(s: Seq<char>)
    requires
        is_ascii_chars(s),
    ensures
        url_decoded(url_encoded(s)) == s,
    decreases s.len(),
{
    if s.len() == 0 {
        assert(encode_utf8(s) =~= Seq::<u8>::empty());
    } else {
        let rest = s.drop_first();
        assert(is_ascii_chars(rest)) by {
            assert forall|i| 0 <= i < rest.len() implies '\0' <= #[trigger] rest[i] <= '\u{7f}' by {
                assert(rest[i] == s[i + 1]);
            }
        }
        law_decode_encode_ascii(rest);
        vstd::utf8::is_ascii_chars_encode_utf8(s);
        let bs = encode_utf8(s);
        assert(s[0] <= '\u{7f}');
        assert(bs[0] == s[0] as u8);
        assert(bs.drop_first() =~= encode_utf8(rest));
        assert(url_encoded(s) == encode_byte(s[0] as u8) + url_encoded(rest));
        lemma_decode_encoded_byte(s[0], url_encoded(rest));
        assert(seq![s[0]] + rest =~= s);
    }
}

/// The characters that percent-encoding writes: unreserved ASCII
/// characters, `%` and upper-case hexadecimal digits.
pub open spec fn is_encoded_char(c: char) -> bool {
    ||| ('A' <= c <= 'Z')
    ||| ('a' <= c <= 'z')
    ||| ('0' <= c <= '9')
    ||| c == '-'
    ||| c == '_'
    ||| c == '.'
    ||| c == '~'
    ||| c == '%'
}

/// Percent-encoding writes only unreserved characters, `%` and hexadecimal
/// digits.
pub proof fn law_encoded_chars(s: Seq<char>)
    ensures
        forall|i: int| 0 <= i < url_encoded(s).len() ==> is_encoded_char(#[trigger] url_encoded(s)[i]),
{
    lemma_encoded_bytes_chars(encode_utf8(s));
}

proof fn lemma_encoded_bytes_chars(bs: Seq<u8>)
    ensures
        forall|i: int| 0 <= i < url_encode_bytes(bs).len() ==> is_encoded_char(#[trigger] url_encode_bytes(bs)[i]),
    decreases bs.len(),
{
    if bs.len() > 0 {
        lemma_encoded_bytes_chars(bs.drop_first());
        let e = encode_byte(bs[0]);
        let t = url_encode_bytes(bs.drop_first());
        assert forall|i: int| 0 <= i < e.len() implies is_encoded_char(#[trigger] e[i]) by {
            let b = bs[0];
            if !is_unreserved(b) {
                assert(b / 16 < 16);
                assert(b % 16 < 16);
            }
        }
        assert forall|i: int| 0 <= i < url_encode_bytes(bs).len() implies is_encoded_char(
            #[trigger] url_encode_bytes(bs)[i],
        ) by {
            if i < e.len() {
                assert(url_encode_bytes(bs)[i] == e[i]);
            } else {
                assert(url_encode_bytes(bs)[i] == t[i - e.len()]);
            }
        }
    }
}

} // verus!
