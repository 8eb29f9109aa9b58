use riot_api::encoding::{percent_decode, percent_encode};

#[test]
fn unreserved_text_is_unchanged() {
    let text = "ABCXYZabcxyz0189-._~";
    assert_eq!(percent_encode(text), text);
}

#[test]
fn reserved_characters_are_escaped() {
    assert_eq!(percent_encode("a b"), "a%20b");
    assert_eq!(percent_encode("a/b"), "a%2Fb");
    assert_eq!(percent_encode("a?b=c&d#e"), "a%3Fb%3Dc%26d%23e");
    assert_eq!(percent_encode("100%"), "100%25");
    assert_eq!(percent_encode("+"), "%2B");
    assert_eq!(percent_encode("\u{0}\u{7f}"), "%00%7F");
}

#[test]
fn text_outside_ascii_is_escaped_byte_by_byte() {
    assert_eq!(percent_encode("\u{e9}"), "%C3%A9");
    assert_eq!(percent_encode("\u{d55c}"), "%ED%95%9C");
    assert_eq!(percent_encode("\u{1f600}"), "%F0%9F%98%80");
}

#[test]
fn empty_text_encodes_to_empty_text() {
    assert_eq!(percent_encode(""), "");
    assert_eq!(percent_decode(""), Some(vec![]));
}

#[test]
fn identifiers_survive_the_round_trip() {
    let identifiers = [
        "plain",
        "Hide on bush",
        "a/b?c#d&e=f",
        "50% off",
        "%41",
        "..",
        "\u{d55c}\u{ad6d}\u{c5b4} name",
        "tab\tand\nnewline",
        "\u{1f600}",
        "",
    ];
    for identifier in identifiers.iter() {
        let encoded = percent_encode(identifier);
        for c in encoded.chars() {
            assert!(c.is_ascii_alphanumeric() || "-._~%".contains(c), "{:?}", encoded);
        }
        let decoded = percent_decode(&encoded).expect("an encoded text decodes");
        assert_eq!(String::from_utf8(decoded).unwrap(), *identifier);
    }
}

#[test]
fn decoding_accepts_both_cases_of_hex_digits() {
    assert_eq!(percent_decode("%2f%2F"), Some(vec![0x2f, 0x2f]));
    assert_eq!(percent_decode("a%c3%A9z"), Some(vec![b'a', 0xc3, 0xa9, b'z']));
}

#[test]
fn decoding_rejects_malformed_text() {
    assert_eq!(percent_decode("%"), None);
    assert_eq!(percent_decode("%2"), None);
    assert_eq!(percent_decode("abc%2"), None);
    assert_eq!(percent_decode("%zz"), None);
    assert_eq!(percent_decode("%2g"), None);
    assert_eq!(percent_decode("a b"), None);
    assert_eq!(percent_decode("a/b"), None);
    assert_eq!(percent_decode("\u{e9}"), None);
    assert_eq!(percent_decode("abc\u{d55c}"), None);
}
