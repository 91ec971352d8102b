//! The link to the public playground that carries a program in its query.
//!
//! The program travels as the value of the query's one pair, `code`, in the
//! `application/x-www-form-urlencoded` syntax: each byte of its UTF-8
//! encoding is either kept, written as `+` (a space), or written as `%` and
//! two hexadecimal digits.

use vstd::prelude::*;
use vstd::string::*;
use vstd::utf8::*;
use crate::text::lemma_first_occurrence;

verus! {

/// Whether the serializer writes the byte `b` as it is: `*`, `-`, `.`, `_`,
/// a digit or a letter of ASCII.
pub open spec fn is_unreserved(b: u8) -> bool {
    ||| b == 0x2A
    ||| b == 0x2D
    ||| b == 0x2E
    ||| b == 0x5F
    ||| 0x30 <= b <= 0x39
    ||| 0x41 <= b <= 0x5A
    ||| 0x61 <= b <= 0x7A
}

/// The upper-case hexadecimal digit for a value below 16.
pub open spec fn hex_digit(v: u8) -> char {
    if v < 10 {
        ((v + 0x30) as u8) as char
    } else {
        ((v - 10 + 0x41) as u8) as char
    }
}

/// The value of a hexadecimal digit of either case.
pub open spec fn hex_value(c: char) -> Option<u8> {
    let u = c as u32;
    if 0x30 <= u <= 0x39 {
        Some((u - 0x30) as u8)
    } else if 0x41 <= u <= 0x46 {
        Some((u - 0x41 + 10) as u8)
    } else if 0x61 <= u <= 0x66 {
        Some((u - 0x61 + 10) as u8)
    } else {
        None
    }
}

/// How one byte is written.
pub open spec fn encode_byte(b: u8) -> Seq<char> {
    if is_unreserved(b) {
        seq![b as char]
    } else if b == 0x20 {
        seq!['+']
    } else {
        seq!['%', hex_digit(b / 16), hex_digit(b % 16)]
    }
}

/// How a string of bytes is written: byte by byte.
pub open spec fn form_encode(bytes: Seq<u8>) -> Seq<char>
    decreases bytes.len(),
{
    if bytes.len() == 0 {
        Seq::empty()
    } else {
        encode_byte(bytes[0]) + form_encode(bytes.drop_first())
    }
}

/// How a pair of a name and a value is written: both encoded, `=` between.
pub open spec fn form_pair(name: Seq<char>, value: Seq<char>) -> Seq<char> {
    form_encode(encode_utf8(name)) + seq!['='] + form_encode(encode_utf8(value))
}

/// Whether `s` starts with `%` and two hexadecimal digits.
pub open spec fn starts_with_escape(s: Seq<char>) -> bool {
    &&& s.len() >= 3
    &&& s[0] == '%'
    &&& hex_value(s[1]) is Some
    &&& hex_value(s[2]) is Some
}

/// The bytes that an encoded text stands for: `+` is a space, `%` with two
/// hexadecimal digits is the byte they spell, and any other character
/// stands for itself.
pub open spec fn form_decode(s: Seq<char>) -> Seq<u8>
    decreases s.len(),
{
    if s.len() == 0 {
        Seq::empty()
    } else if starts_with_escape(s) {
        seq![(hex_value(s[1]).unwrap() * 16 + hex_value(s[2]).unwrap()) as u8] + form_decode(
            s.skip(3),
        )
    } else if s[0] == '+' {
        seq![0x20u8] + form_decode(s.skip(1))
    } else {
        encode_utf8(seq![s[0]]) + form_decode(s.skip(1))
    }
}

/// Whether `c` is a character that the serializer writes for a byte that
/// it keeps: `*`, `-`, `.`, `_`, a digit or a letter of ASCII.
pub open spec fn is_unreserved_char(c: char) -> bool {
    ||| c == '*'
    ||| c == '-'
    ||| c == '.'
    ||| c == '_'
    ||| '0' <= c <= '9'
    ||| 'A' <= c <= 'Z'
    ||| 'a' <= c <= 'z'
}

/// Whether `c` is an upper-case hexadecimal digit.
pub open spec fn is_upper_hex(c: char) -> bool {
    ||| '0' <= c <= '9'
    ||| 'A' <= c <= 'F'
}

/// Whether `s` is written in the serializer's alphabet: each character is
/// one that is kept, or `+`, or `%` with two upper-case hexadecimal digits
/// behind it.
pub open spec fn is_encoded(s: Seq<char>) -> bool
    decreases s.len(),
{
    if s.len() == 0 {
        true
    } else if s[0] == '%' {
        s.len() >= 3 && is_upper_hex(s[1]) && is_upper_hex(s[2]) && is_encoded(s.skip(3))
    } else {
        (is_unreserved_char(s[0]) || s[0] == '+') && is_encoded(s.skip(1))
    }
}

/// Decoding what one byte was written as, with anything behind it, gives
/// the byte, and what is behind it decoded.
pub proof fn lemma_decode_encoded_byte(b: u8, rest: Seq<char>)
    ensures
        form_decode(encode_byte(b) + rest) == seq![b] + form_decode(rest),
{
    let s = encode_byte(b) + rest;
    if is_unreserved(b) {
        assert(s[0] == b as char);
        assert(s.skip(1) =~= rest);
        assert(is_ascii_chars(seq![s[0]]));
        is_ascii_chars_encode_utf8(seq![s[0]]);
        assert(encode_utf8(seq![s[0]]) =~= seq![b]);
    } else if b == 0x20 {
        assert(s[0] == '+');
        assert(s.skip(1) =~= rest);
    } else {
        let hi = (b / 16) as u8;
        let lo = (b % 16) as u8;
        assert(s[0] == '%');
        assert(s[1] == hex_digit(hi));
        assert(s[2] == hex_digit(lo));
        assert(hex_value(hex_digit(hi)) == Some(hi));
        assert(hex_value(hex_digit(lo)) == Some(lo));
        assert(hi * 16 + lo == b);
        assert(s.skip(3) =~= rest);
    }
}

/// What a byte is written as, before a text in the serializer's alphabet,
/// is a text in that alphabet.
pub proof fn lemma_encoded_byte_in_alphabet(b: u8, rest: Seq<char>)
    requires
        is_encoded(rest),
    ensures
        is_encoded(encode_byte(b) + rest),
        1 <= encode_byte(b).len() <= 3,
{
    let s = encode_byte(b) + rest;
    if is_unreserved(b) {
        assert(s[0] == b as char);
        assert(is_unreserved_char(s[0]));
        assert(s.skip(1) =~= rest);
    } else if b == 0x20 {
        assert(s[0] == '+');
        assert(s.skip(1) =~= rest);
    } else {
        let hi = (b / 16) as u8;
        let lo = (b % 16) as u8;
        assert(s[0] == '%');
        assert(s[1] == hex_digit(hi));
        assert(s[2] == hex_digit(lo));
        assert(is_upper_hex(hex_digit(hi)));
        assert(is_upper_hex(hex_digit(lo)));
        assert(s.skip(3) =~= rest);
    }
}

/// A text in the serializer's alphabet holds characters of ASCII only, and
/// none of `?`, `#`, `&` and `=`.
pub proof fn lemma_alphabet_chars(s: Seq<char>)
    requires
        is_encoded(s),
    ensures
        forall|i: int|
            0 <= i < s.len() ==> {
                &&& '\0' <= #[trigger] s[i] <= '\u{7f}'
                &&& s[i] != '?'
                &&& s[i] != '#'
                &&& s[i] != '&'
                &&& s[i] != '='
            },
    decreases s.len(),
{
    if s.len() > 0 {
        let n: int = if s[0] == '%' {
            3
        } else {
            1
        };
        let rest = s.skip(n);
        lemma_alphabet_chars(rest);
        assert forall|i: int| n <= i < s.len() implies #[trigger] s[i] == rest[i - n] by {}
    }
}

/// An encoded text is in the serializer's alphabet, and has at least one
/// and at most three characters for each byte.
pub proof fn lemma_encoded_chars(bytes: Seq<u8>)
    ensures
        bytes.len() <= form_encode(bytes).len() <= 3 * bytes.len(),
        is_encoded(form_encode(bytes)),
    decreases bytes.len(),
{
    if bytes.len() > 0 {
        lemma_encoded_chars(bytes.drop_first());
        lemma_encoded_byte_in_alphabet(bytes[0], form_encode(bytes.drop_first()));
    }
}

/// Decoding an encoded text gives back the bytes that were encoded.
pub proof fn law_decode_inverts_encode(bytes: Seq<u8>)
    ensures
        form_decode(form_encode(bytes)) == bytes,
    decreases bytes.len(),
{
    if bytes.len() > 0 {
        let rest = bytes.drop_first();
        law_decode_inverts_encode(rest);
        lemma_decode_encoded_byte(bytes[0], form_encode(rest));
        assert(seq![bytes[0]] + rest =~= bytes);
    }
}

/// Bytes that are written as they are give the same text, character for
/// byte.
pub proof fn lemma_encode_unreserved(bytes: Seq<u8>)
    requires
        forall|i: int| 0 <= i < bytes.len() ==> is_unreserved(#[trigger] bytes[i]),
    ensures
        form_encode(bytes) == Seq::new(bytes.len(), |i: int| bytes[i] as char),
    decreases bytes.len(),
{
    if bytes.len() > 0 {
        let rest = bytes.drop_first();
        assert forall|i: int| 0 <= i < rest.len() implies is_unreserved(#[trigger] rest[i]) by {
            assert(rest[i] == bytes[i + 1]);
        }
        lemma_encode_unreserved(rest);
    }
    assert(form_encode(bytes) =~= Seq::new(bytes.len(), |i: int| bytes[i] as char));
}

/// The text of the link that carries the program `code`.
pub open spec fn link_text(code: Seq<char>) -> Seq<char> {
    "https://play.rust-lang.org?"@ + form_pair("code"@, code)
}

/// The query of a link: what stands behind its first `?`.
pub open spec fn query_of(link: Seq<char>) -> Seq<char> {
    match link.index_of_first('?') {
        Some(k) => link.skip(k + 1),
        None => Seq::empty(),
    }
}

/// The name of a query's pair: what stands before its first `=`.
pub open spec fn pair_name(query: Seq<char>) -> Seq<char> {
    match query.index_of_first('=') {
        Some(k) => query.take(k),
        None => query,
    }
}

/// The value of a query's pair: what stands behind its first `=`.
pub open spec fn pair_value(query: Seq<char>) -> Seq<char> {
    match query.index_of_first('=') {
        Some(k) => query.skip(k + 1),
        None => Seq::empty(),
    }
}

/// The query of the link is the pair of `code` and the encoded program.
pub proof fn lemma_link_query(code: Seq<char>)
    ensures
        link_text(code).len() == 32 + form_encode(encode_utf8(code)).len(),
        link_text(code) == "https://play.rust-lang.org?"@ + ("code="@ + form_encode(
            encode_utf8(code),
        )),
        query_of(link_text(code)) == "code="@ + form_encode(encode_utf8(code)),
        pair_name(query_of(link_text(code))) == "code"@,
        pair_value(query_of(link_text(code))) == form_encode(encode_utf8(code)),
{
    reveal_strlit("https://play.rust-lang.org?");
    reveal_strlit("code");
    reveal_strlit("code=");
    let base = "https://play.rust-lang.org?"@;
    let name = "code"@;
    let value = form_encode(encode_utf8(code));
    let link = link_text(code);
    assert(is_ascii_chars(name));
    is_ascii_chars_encode_utf8(name);
    lemma_encode_unreserved(encode_utf8(name));
    assert(form_encode(encode_utf8(name)) =~= name);
    let query = name + seq!['='] + value;
    assert(query =~= "code="@ + value);
    assert(link =~= base + ("code="@ + value));
    lemma_first_occurrence(link, '?', 26);
    assert(link.skip(27) =~= query);
    lemma_first_occurrence(query, '=', 4);
    assert(query.take(4) =~= name);
    assert(query.skip(5) =~= value);
}

/// The link is well formed and carries the program. It is the address of
/// the playground, `?`, and one pair: the name `code`, `=`, and a value in
/// the serializer's alphabet, so that each of its characters is one that
/// is kept, or `+`, or `%` with two upper-case hexadecimal digits behind
/// it. No second pair and no fragment follow, and the link is of ASCII.
/// Decoding the value gives back the program, byte for byte and so
/// character for character.
pub proof fn law_link_carries_code(code: Seq<char>)
    ensures
        link_text(code) == "https://play.rust-lang.org?"@ + query_of(link_text(code)),
        query_of(link_text(code)) == "code="@ + pair_value(query_of(link_text(code))),
        pair_name(query_of(link_text(code))) == "code"@,
        is_encoded(pair_value(query_of(link_text(code)))),
        !query_of(link_text(code)).contains('&'),
        !query_of(link_text(code)).contains('#'),
        is_ascii_chars(link_text(code)),
        form_decode(pair_value(query_of(link_text(code)))) == encode_utf8(code),
        decode_utf8(form_decode(pair_value(query_of(link_text(code))))) == code,
{
    reveal_strlit("https://play.rust-lang.org?");
    reveal_strlit("code=");
    lemma_link_query(code);
    let value = form_encode(encode_utf8(code));
    let query = query_of(link_text(code));
    let link = link_text(code);
    lemma_encoded_chars(encode_utf8(code));
    lemma_alphabet_chars(value);
    law_decode_inverts_encode(encode_utf8(code));
    encode_utf8_decode_utf8(code);
    assert forall|i: int| 0 <= i < query.len() implies '\0' <= #[trigger] query[i] <= '\u{7f}'
        && query[i] != '&' && query[i] != '#' by {
        if i >= 5 {
            assert(query[i] == value[i - 5]);
        }
    }
    assert(is_ascii_chars("https://play.rust-lang.org?"@));
    assert forall|i: int| 0 <= i < link.len() implies '\0' <= #[trigger] link[i] <= '\u{7f}' by {
        if i >= 27 {
            assert(link[i] == query[i - 27]);
        } else {
            assert(link[i] == "https://play.rust-lang.org?"@[i]);
        }
    }
}

/// Writes one pair of a name and a value into an empty query. This is
/// `url::form_urlencoded::Serializer`: `new` on an empty string, then
/// `append_pair`, then `finish`. The contract claims that the result is the
/// name and the value, each written byte by byte of its UTF-8 encoding as
/// `form_encode` says, with `=` between them and nothing before or behind.
#[verifier::external_body]
fn serialize_pair(name: &str, value: &str) -> (query: String)
    ensures
        query@ == form_pair(name@, value@),
{
    url::form_urlencoded::Serializer::new(String::new()).append_pair(name, value).finish()
}

/// Builds the link that carries the program `code`.
pub fn playground_link(code: &str) -> (link: String)
    ensures
        link@ == link_text(code@),
{
    let query = serialize_pair("code", code);
    let mut link = String::from_str("https://play.rust-lang.org?");
    link.append(query.as_str());
    link
}

} // verus!
