use broadcast_context::codec::{is_encodable, read_text, Base64Error, DecodeError};
use broadcast_context::{decode, encode};

#[test]
fn text_is_encoded_as_padded_base64() {
    assert_eq!(encode(""), "");
    assert_eq!(encode("h"), "aA==");
    assert_eq!(encode("he"), "aGU=");
    assert_eq!(encode("hello"), "aGVsbG8=");
    assert_eq!(encode("{\"type\":\"offer\"}"), "eyJ0eXBlIjoib2ZmZXIifQ==");
}

#[test]
fn decoding_gives_back_what_was_encoded() {
    for text in ["", "a", "two words", "line\r\nline\r\n", "\u{0}\u{7f}", "grüße", "日本語 🎥"] {
        let line = encode(text);
        assert_eq!(decode(&line).unwrap(), text);
    }
}

#[test]
fn an_encoded_text_is_one_line_of_symbols() {
    let text = "v=0\r\no=- 0 0 IN IP4 0.0.0.0\r\ns=-\r\n".repeat(20);
    let line = encode(&text);
    assert_eq!(line.len(), (text.len() + 2) / 3 * 4);
    assert!(line.chars().all(|c| c.is_ascii_alphanumeric() || c == '+' || c == '/' || c == '='));
}

#[test]
fn padding_stands_at_the_end_only() {
    for (text, padding) in [("a", 2), ("ab", 1), ("abc", 0), ("abcd", 2), ("grüße", 2)] {
        let line = encode(text);
        assert_eq!(line.find('=').unwrap_or(line.len()), line.len() - padding);
        assert_eq!(line.matches('=').count(), padding);
    }
}

#[test]
fn every_symbol_of_the_alphabet_is_used() {
    let line = "ABCDEFGHIJKLMNOPQRSTUVWXYZabcdefghijklmnopqrstuvwxyz01234567";
    let text = decode("QUJDREVGR0hJSktMTU5PUFFSU1RVVldYWVphYmNkZWZnaGlqa2xtbm9wcXJzdHV2d3h5ejAxMjM0NTY3");
    assert_eq!(text.unwrap(), line);
    assert_eq!(encode("\u{3ffff}>?~"), "8L+/vz4/fg==");
}

#[test]
fn encoding_concatenates_behind_whole_groups() {
    for (a, c) in [("", "x"), ("abc", "d"), ("ü1", "ß"), ("abcdef", "")] {
        assert_eq!(encode(&(a.to_string() + c)), encode(a) + &encode(c));
    }
}

#[test]
fn an_accepted_text_of_full_length_is_canonical() {
    for line in ["aA==", "aGU=", "aGVs", "aGVsbG8=", ""] {
        assert_eq!(encode(&decode(line).unwrap()), line);
    }
    for line in ["aB==", "aGV=", "a===", "====", "aA==aA==", "aGVs====", "aG=s"] {
        assert!(decode(line).is_err(), "{}", line);
    }
}

#[test]
fn what_is_left_of_the_padding_is_read() {
    for line in ["aA", "aA=", "aA=="] {
        assert_eq!(decode(line).unwrap(), "h");
    }
    for line in ["a", "aA===", "aGVs=", "aGVs==", "{\"a\":1}", "aGVs\n", "ü"] {
        assert!(decode(line).is_err(), "{}", line);
    }
}

#[test]
fn padding_may_be_left_out() {
    assert_eq!(decode("aGVsbG8").unwrap(), "hello");
}

#[test]
fn a_foreign_byte_is_named() {
    match decode("aGVs!G8=") {
        Err(DecodeError::Base64(e)) => assert_eq!(e, Base64Error::InvalidByte(4, b'!')),
        _ => panic!("decoded"),
    }
}

#[test]
fn trailing_newline_is_a_foreign_byte() {
    match decode("aGVsbG8=\n") {
        Err(DecodeError::Base64(e)) => assert_eq!(e, Base64Error::InvalidByte(8, b'\n')),
        _ => panic!("decoded"),
    }
}

#[test]
fn an_impossible_length_is_refused() {
    match decode("aGVsb") {
        Err(DecodeError::Base64(e)) => assert_eq!(e, Base64Error::InvalidLength),
        _ => panic!("decoded"),
    }
}

#[test]
fn surplus_bits_in_the_last_symbol_are_refused() {
    match decode("aGVsbG9=") {
        Err(DecodeError::Base64(e)) => assert_eq!(e, Base64Error::InvalidLastSymbol(6, b'9')),
        _ => panic!("decoded"),
    }
}

#[test]
fn bytes_that_are_no_utf8_are_refused() {
    match decode("/w==") {
        Err(DecodeError::Utf8(e)) => assert_eq!(e.into_bytes(), vec![0xff]),
        _ => panic!("decoded"),
    }
}

#[test]
fn decoded_bytes_are_read_as_text() {
    assert_eq!(read_text(Ok(vec![0x68, 0x69])).unwrap(), "hi");
    assert!(matches!(read_text(Ok(vec![0x68, 0xc3])), Err(DecodeError::Utf8(_))));
    assert!(matches!(
        read_text(Err(Base64Error::InvalidLength)),
        Err(DecodeError::Base64(Base64Error::InvalidLength))
    ));
}

#[test]
fn ordinary_texts_are_encodable() {
    assert!(is_encodable(""));
    assert!(is_encodable("hello"));
}
