//! Percent-encoding of identifiers, so that any text can stand in a URL as
//! one path segment or one query value.
//!
//! Only the unreserved characters of URLs (ASCII letters, digits, `-`, `.`,
//! `_` and `~`) are written as they are. Every other byte of the text's UTF-8
//! form is written as `%` and two uppercase hexadecimal digits.

use vstd::prelude::*;
use vstd::string::*;
use vstd::utf8::*;
use crate::text::push_char;

verus! {

/// Whether a character may stand in a URL unchanged.
pub open spec fn is_unreserved(c: char) -> bool {
    ||| 'A' <= c <= 'Z'
    ||| 'a' <= c <= 'z'
    ||| '0' <= c <= '9'
    ||| c == '-'
    ||| c == '.'
    ||| c == '_'
    ||| c == '~'
}

/// The uppercase hexadecimal digit for a value below sixteen.
pub open spec fn hex_digit(d: nat) -> char
    recommends
        d < 16,
{
    if d < 10 {
        (48 + d) as char
    } else {
        (55 + d) as char
    }
}

/// The value of a hexadecimal digit of either case, if it is one.
pub open spec fn hex_value(c: char) -> Option<nat> {
    if '0' <= c <= '9' {
        Some((c as nat - 48) as nat)
    } else if 'A' <= c <= 'F' {
        Some((c as nat - 55) as nat)
    } else if 'a' <= c <= 'f' {
        Some((c as nat - 87) as nat)
    } else {
        None
    }
}

/// How one byte is written: as itself when unreserved, else as an escape.
pub open spec fn encode_byte(b: u8) -> Seq<char> {
    if is_unreserved(b as char) {
        seq![b as char]
    } else {
        seq!['%', hex_digit((b / 16) as nat), hex_digit((b % 16) as nat)]
    }
}

/// The percent-encoding of a byte string.
pub open spec fn encode_bytes(bytes: Seq<u8>) -> Seq<char>
    decreases bytes.len(),
{
    if bytes.len() == 0 {
        Seq::empty()
    } else {
        encode_byte(bytes[0]) + encode_bytes(bytes.drop_first())
    }
}

/// The percent-encoding of a text: that of its UTF-8 form.
pub open spec fn encode_text(text: Seq<char>) -> Seq<char> {
    encode_bytes(encode_utf8(text))
}

/// The bytes that a percent-encoded text stands for, or `None` when the text
/// holds a character that is neither unreserved nor part of a complete escape.
pub open spec fn decode_text(text: Seq<char>) -> Option<Seq<u8>>
    decreases text.len(),
{
    if text.len() == 0 {
        Some(Seq::empty())
    } else if text[0] == '%' {
        if text.len() >= 3 && hex_value(text[1]) is Some && hex_value(text[2]) is Some {
            match decode_text(text.skip(3)) {
                Some(rest) => Some(
                    seq![(16 * hex_value(text[1])->0 + hex_value(text[2])->0) as u8] + rest,
                ),
                None => None,
            }
        } else {
            None
        }
    } else if is_unreserved(text[0]) {
        match decode_text(text.skip(1)) {
            Some(rest) => Some(seq![text[0] as u8] + rest),
            None => None,
        }
    } else {
        None
    }
}

/// Decoding undoes encoding: every byte string is recovered exactly from its
/// percent-encoded form.
pub proof fn lemma_decode_inverts_encode(bytes: Seq<u8>)
    ensures
        decode_text(encode_bytes(bytes)) == Some(bytes),
    decreases bytes.len(),
{
    if bytes.len() > 0 {
        let b = bytes[0];
        let rest = bytes.drop_first();
        let text = encode_bytes(bytes);
        lemma_decode_inverts_encode(rest);
        if is_unreserved(b as char) {
            assert(text.skip(1) =~= encode_bytes(rest));
            assert(seq![b] + rest =~= bytes);
        } else {
            let hi = (b / 16) as nat;
            let lo = (b % 16) as nat;
            assert(text.skip(3) =~= encode_bytes(rest));
            assert(hex_value(hex_digit(hi)) == Some(hi));
            assert(hex_value(hex_digit(lo)) == Some(lo));
            assert(seq![(16 * hi + lo) as u8] + rest =~= bytes);
        }
    }
}

/// An identifier survives the trip through a URL: its encoded form decodes to
/// the UTF-8 bytes of the identifier, which in turn decode to the identifier.
pub proof fn lemma_identifier_round_trip(identifier: Seq<char>)
    ensures
        decode_text(encode_text(identifier)) == Some(encode_utf8(identifier)),
        valid_utf8(encode_utf8(identifier)),
        decode_utf8(encode_utf8(identifier)) == identifier,
{
    lemma_decode_inverts_encode(encode_utf8(identifier));
    encode_utf8_valid_utf8(identifier);
    encode_utf8_decode_utf8(identifier);
}

/// Whether a text holds nothing but unreserved characters and `%`, so that
/// no character of it can end a path segment or a query value.
pub open spec fn is_inert(text: Seq<char>) -> bool {
    forall|i: int| 0 <= i < text.len() ==> is_unreserved(#[trigger] text[i]) || text[i] == '%'
}

/// Every encoded text is inert.
pub proof fn lemma_encoded_is_inert(bytes: Seq<u8>)
    ensures
        is_inert(encode_bytes(bytes)),
    decreases bytes.len(),
{
    if bytes.len() > 0 {
        lemma_encoded_is_inert(bytes.drop_first());
        let head = encode_byte(bytes[0]);
        let tail = encode_bytes(bytes.drop_first());
        let whole = encode_bytes(bytes);
        assert forall|i: int| 0 <= i < whole.len() implies is_unreserved(#[trigger] whole[i])
            || whole[i] == '%' by {
            if i >= head.len() {
                assert(whole[i] == tail[i - head.len()]);
            }
        }
    }
}

/// A text with a character outside ASCII is no percent-encoded text.
pub proof fn lemma_decode_needs_ascii(text: Seq<char>)
    requires
        !is_ascii_chars(text),
    ensures
        decode_text(text) is None,
    decreases text.len(),
{
    let i = choose|i: int| 0 <= i < text.len() && !('\0' <= #[trigger] text[i] <= '\u{7f}');
    if text[0] == '%' {
        if text.len() >= 3 && hex_value(text[1]) is Some && hex_value(text[2]) is Some {
            assert(i >= 3);
            assert(text.skip(3)[i - 3] == text[i]);
            lemma_decode_needs_ascii(text.skip(3));
        }
    } else if is_unreserved(text[0]) {
        assert(i >= 1);
        assert(text.skip(1)[i - 1] == text[i]);
        lemma_decode_needs_ascii(text.skip(1));
    }
}

fn unreserved_byte(b: u8) -> (plain: bool)
    ensures
        plain == is_unreserved(b as char),
{
    (65 <= b && b <= 90) || (97 <= b && b <= 122) || (48 <= b && b <= 57) || b == 45 || b == 46
        || b == 95 || b == 126
}

fn hex_digit_of(d: u8) -> (c: char)
    requires
        d < 16,
    ensures
        c == hex_digit(d as nat),
{
    if d < 10 {
        (48u8 + d) as char
    } else {
        (55u8 + d) as char
    }
}

fn hex_value_of(b: u8) -> (value: Option<u8>)
    ensures
        match value {
            Some(v) => hex_value(b as char) == Some(v as nat) && v < 16,
            None => hex_value(b as char) is None,
        },
{
    if 48 <= b && b <= 57 {
        Some(b - 48)
    } else if 65 <= b && b <= 70 {
        Some(b - 55)
    } else if 97 <= b && b <= 102 {
        Some(b - 87)
    } else {
        None
    }
}

/// Appends the percent-encoding of `text` to `out`.
pub fn push_encoded(out: &mut String, text: &str)
    ensures
        final(out)@ == old(out)@ + encode_text(text@),
{
    let bytes = text.as_bytes();
    let mut i: usize = 0;
    assert(bytes@.skip(0) =~= bytes@);
    assert(out@ + Seq::<char>::empty() =~= out@);
    while i < bytes.len()
        invariant
            i <= bytes.len(),
            out@ + encode_bytes(bytes@.skip(i as int)) == old(out)@ + encode_bytes(bytes@),
        decreases bytes.len() - i,
    {
        let b = bytes[i];
        let ghost before = out@;
        let ghost rest = bytes@.skip(i as int);
        proof {
            assert(rest.drop_first() =~= bytes@.skip(i + 1));
            assert(rest[0] == b);
        }
        if unreserved_byte(b) {
            push_char(out, b as char);
        } else {
            push_char(out, '%');
            push_char(out, hex_digit_of(b / 16));
            push_char(out, hex_digit_of(b % 16));
        }
        proof {
            assert(out@ =~= before + encode_byte(b));
            assert(out@ + encode_bytes(bytes@.skip(i + 1)) =~= before + encode_bytes(rest));
        }
        i += 1;
    }
    assert(out@ + encode_bytes(bytes@.skip(i as int)) =~= out@);
}

/// The percent-encoding of a text.
pub fn percent_encode(text: &str) -> (encoded: String)
    ensures
        encoded@ == encode_text(text@),
{
    let mut out = String::new();
    push_encoded(&mut out, text);
    assert(Seq::<char>::empty() + encode_text(text@) =~= encode_text(text@));
    out
}

/// The bytes that a percent-encoded text stands for.
///
/// Gives `None` exactly when the text is not well formed: when it holds a
/// character that is neither unreserved nor part of a complete escape.
pub fn percent_decode(text: &str) -> (decoded: Option<Vec<u8>>)
    ensures
        match decoded {
            Some(bytes) => decode_text(text@) == Some(bytes@),
            None => decode_text(text@) is None,
        },
{
    if !text.is_ascii() {
        proof {
            lemma_decode_needs_ascii(text@);
        }
        return None;
    }
    let bytes = text.as_bytes();
    proof {
        is_ascii_chars_encode_utf8(text@);
    }
    let mut out: Vec<u8> = Vec::new();
    let mut i: usize = 0;
    assert(text@.skip(0) =~= text@);
    while i < bytes.len()
        invariant
            i <= bytes.len(),
            bytes@.len() == text@.len(),
            forall|j: int| 0 <= j < text@.len() ==> #[trigger] text@[j] as u8 == bytes@[j],
            is_ascii_chars(text@),
            decode_text(text@) == match decode_text(text@.skip(i as int)) {
                Some(rest) => Some(out@ + rest),
                None => None,
            },
        decreases bytes.len() - i,
    {
        let b = bytes[i];
        let ghost tail = text@.skip(i as int);
        proof {
            assert(tail[0] == text@[i as int]);
            assert(text@[i as int] as u8 == b);
            assert(b as char == text@[i as int]);
        }
        if b == 37 {
            if bytes.len() - i < 3 {
                return None;
            }
            proof {
                assert(tail[1] == text@[i + 1]);
                assert(tail[2] == text@[i + 2]);
                assert(bytes@[i + 1] as char == text@[i + 1]);
                assert(bytes@[i + 2] as char == text@[i + 2]);
                assert(tail.skip(3) =~= text@.skip(i + 3));
            }
            let hi = match hex_value_of(bytes[i + 1]) {
                Some(v) => v,
                None => {
                    return None;
                },
            };
            let lo = match hex_value_of(bytes[i + 2]) {
                Some(v) => v,
                None => {
                    return None;
                },
            };
            let ghost before = out@;
            out.push(16 * hi + lo);
            proof {
                assert forall|rest: Seq<u8>| before + (seq![(16 * hi + lo) as u8] + rest)
                    == #[trigger] (out@ + rest) by {
                    assert(before + (seq![(16 * hi + lo) as u8] + rest) =~= out@ + rest);
                }
            }
            i += 3;
        } else if unreserved_byte(b) {
            let ghost before = out@;
            out.push(b);
            proof {
                assert(tail.skip(1) =~= text@.skip(i + 1));
                assert forall|rest: Seq<u8>| before + (seq![b] + rest) == #[trigger] (out@
                    + rest) by {
                    assert(before + (seq![b] + rest) =~= out@ + rest);
                }
            }
            i += 1;
        } else {
            return None;
        }
    }
    assert(out@ + Seq::<u8>::empty() =~= out@);
    Some(out)
}

} // verus!
