//! Percent-encoding of text for use as the value of a query parameter.
//!
//! The text is taken as its UTF-8 bytes. Letters, digits, `-`, `.`, `_`, `~`
//! and the comma stand for themselves; every other byte becomes `%` and its
//! two upper-case hexadecimal digits.

use vstd::prelude::*;
use vstd::string::*;
use vstd::utf8::*;

verus! {

/// `String::push` of the standard library: the character is appended at the
/// end of the string and nothing else changes.
pub assume_specification[ String::push ](s: &mut String, c: char)
    ensures
        final(s)@ == old(s)@.push(c),
;

/// The bytes that stand for themselves in an encoded value.
pub open spec fn is_verbatim(b: u8) -> bool {
    ||| 0x30 <= b <= 0x39
    ||| 0x41 <= b <= 0x5a
    ||| 0x61 <= b <= 0x7a
    ||| b == 0x2d
    ||| b == 0x2e
    ||| b == 0x5f
    ||| b == 0x7e
    ||| b == 0x2c
}

/// The upper-case hexadecimal digit for a value below sixteen.
pub open spec fn hex_digit(n: u8) -> char
    recommends
        n < 16,
{
    if n < 10 {
        (0x30 + n) as u8 as char
    } else {
        (0x37 + n) as u8 as char
    }
}

/// What one byte becomes.
pub open spec fn encoded_byte(b: u8) -> Seq<char> {
    if is_verbatim(b) {
        seq![b as char]
    } else {
        seq!['%', hex_digit(b / 16), hex_digit(b % 16)]
    }
}

/// What a run of bytes becomes: each byte's encoding, in order.
pub open spec fn encoded_bytes(bytes: Seq<u8>) -> Seq<char>
    decreases bytes.len(),
{
    if bytes.len() == 0 {
        Seq::empty()
    } else {
        encoded_bytes(bytes.drop_last()) + encoded_byte(bytes.last())
    }
}

/// The percent-encoding of a text.
pub open spec fn percent_encoded(text: Seq<char>) -> Seq<char> {
    encoded_bytes(encode_utf8(text))
}

/// A text all of whose characters stand for themselves.
pub open spec fn is_plain(text: Seq<char>) -> bool {
    forall|i: int|
        0 <= i < text.len() ==> (#[trigger] text[i]) <= '\u{7f}' && is_verbatim(text[i] as u8)
}

/// A character that may occur in an encoded value.
pub open spec fn is_encoded_char(c: char) -> bool {
    c == '%' || (c <= '\u{7f}' && is_verbatim(c as u8))
}

fn keeps(b: u8) -> (r: bool)
    ensures
        r == is_verbatim(b),
{
    (0x30 <= b && b <= 0x39) || (0x41 <= b && b <= 0x5a) || (0x61 <= b && b <= 0x7a) || b == 0x2d
        || b == 0x2e || b == 0x5f || b == 0x7e || b == 0x2c
}

fn hex_char(n: u8) -> (c: char)
    requires
        n < 16,
    ensures
        c == hex_digit(n),
{
    if n < 10 {
        (0x30 + n) as char
    } else {
        (0x37 + n) as char
    }
}

/// Encodes `text` so that it can stand as one value in a query string.
pub fn percent_encode(text: &str) -> (out: String)
    ensures
        out@ == percent_encoded(text@),
{
    let bytes = text.as_bytes();
    let mut out = String::new();
    let mut i: usize = 0;
    while i < bytes.len()
        invariant
            i <= bytes@.len(),
            out@ == encoded_bytes(bytes@.take(i as int)),
        decreases bytes@.len() - i,
    {
        let b = bytes[i];
        proof {
            let upto = bytes@.take(i + 1);
            assert(upto.drop_last() == bytes@.take(i as int));
        }
        if keeps(b) {
            out.push(b as char);
        } else {
            out.push('%');
            out.push(hex_char(b / 16));
            out.push(hex_char(b % 16));
        }
        i += 1;
    }
    proof {
        assert(bytes@.take(i as int) == bytes@);
    }
    out
}

/// Encoding a run of bytes piece by piece gives the encoding of the whole.
proof fn lemma_encoded_bytes_concat(a: Seq<u8>, b: Seq<u8>)
    ensures
        encoded_bytes(a + b) == encoded_bytes(a) + encoded_bytes(b),
    decreases b.len(),
{
    if b.len() > 0 {
        lemma_encoded_bytes_concat(a, b.drop_last());
        assert((a + b).drop_last() == a + b.drop_last());
    }
}

proof fn lemma_utf8_concat(a: Seq<char>, b: Seq<char>)
    ensures
        encode_utf8(a + b) == encode_utf8(a) + encode_utf8(b),
    decreases a.len(),
{
    if a.len() > 0 {
        lemma_utf8_concat(a.drop_first(), b);
        assert((a + b).drop_first() == a.drop_first() + b);
    }
}

/// Encoding is done character by character: the encoding of two texts set
/// one after the other is their encodings set one after the other.
pub proof fn lemma_percent_encoded_concat(a: Seq<char>, b: Seq<char>)
    ensures
        percent_encoded(a + b) == percent_encoded(a) + percent_encoded(b),
{
    lemma_utf8_concat(a, b);
    lemma_encoded_bytes_concat(encode_utf8(a), encode_utf8(b));
}

/// A character's number is never negative, also where the character is an
/// element of a sequence.
proof fn lemma_char_range(c: char)
    ensures
        '\0' <= c,
        0 <= c as int <= 0x10ffff,
{
}

/// A text made only of letters, digits, `-`, `.`, `_`, `~` and commas is its
/// own encoding.
pub proof fn lemma_plain_text_unchanged(text: Seq<char>)
    requires
        is_plain(text),
    ensures
        percent_encoded(text) == text,
{
    assert forall|i: int| 0 <= i < text.len() implies '\0' <= #[trigger] text[i] <= '\u{7f}' by {
        lemma_char_range(text[i]);
    }
    is_ascii_chars_encode_utf8(text);
    let bytes = encode_utf8(text);
    lemma_plain_bytes(bytes, text, bytes.len() as int);
    assert(bytes.take(bytes.len() as int) == bytes);
}

proof fn lemma_plain_bytes(bytes: Seq<u8>, text: Seq<char>, n: int)
    requires
        is_plain(text),
        bytes.len() == text.len(),
        forall|i: int| 0 <= i < text.len() ==> text[i] as u8 == #[trigger] bytes[i],
        0 <= n <= bytes.len(),
    ensures
        encoded_bytes(bytes.take(n)) == text.take(n),
    decreases n,
{
    if n > 0 {
        lemma_plain_bytes(bytes, text, n - 1);
        assert(bytes.take(n).drop_last() == bytes.take(n - 1));
        lemma_char_range(text[n - 1]);
    }
}

/// An encoded value holds nothing but `%` and the characters that stand for
/// themselves: no `&`, `=`, `#` or blank can end the parameter early.
pub proof fn lemma_encoded_chars(text: Seq<char>)
    ensures
        forall|i: int|
            0 <= i < percent_encoded(text).len() ==> is_encoded_char(
                #[trigger] percent_encoded(text)[i],
            ),
{
    lemma_encoded_bytes_chars(encode_utf8(text));
}

proof fn lemma_encoded_bytes_chars(bytes: Seq<u8>)
    ensures
        forall|i: int|
            0 <= i < encoded_bytes(bytes).len() ==> is_encoded_char(
                #[trigger] encoded_bytes(bytes)[i],
            ),
    decreases bytes.len(),
{
    if bytes.len() > 0 {
        lemma_encoded_bytes_chars(bytes.drop_last());
        let b = bytes.last();
        lemma_hex_digit_verbatim(b / 16);
        lemma_hex_digit_verbatim(b % 16);
        let front = encoded_bytes(bytes.drop_last());
        let last = encoded_byte(b);
        assert forall|i: int| 0 <= i < (front + last).len() implies is_encoded_char(
            #[trigger] (front + last)[i],
        ) by {
            if i >= front.len() {
                assert((front + last)[i] == last[i - front.len()]);
            }
        }
    }
}

proof fn lemma_hex_digit_verbatim(n: u8)
    requires
        n < 16,
    ensures
        hex_digit(n) <= '\u{7f}',
        is_verbatim(hex_digit(n) as u8),
{
}

} // verus!
