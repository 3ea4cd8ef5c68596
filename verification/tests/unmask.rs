use shadowguessr::text::{is_white_space_char, trim_white_space};
use shadowguessr::capture::{parse_capture_line, separator_option, CapturedFields, FIELD_SEPARATOR};
use shadowguessr::hex_codec::HexError;
use shadowguessr::sniffer::{unmask_websocket_payload, SnifferError};

#[test]
fn unmask_recovers_masked_text() {
    // '{' ^ 0x01 = 0x7a, '}' ^ 0x02 = 0x7f
    assert_eq!(unmask_websocket_payload("7a7f", "01020304"), Ok("{}".to_string()));
}

#[test]
fn unmask_ignores_colons() {
    assert_eq!(unmask_websocket_payload("7a:7f", "01:02:03:04"), Ok("{}".to_string()));
}

#[test]
fn unmask_uses_key_cyclically() {
    // "hello" masked with 0x0a0b0c0d: the fifth byte reuses key byte 0
    let text = b"hello";
    let key = [0x0au8, 0x0b, 0x0c, 0x0d];
    let masked: Vec<u8> = text.iter().enumerate().map(|(i, b)| b ^ key[i % 4]).collect();
    let hex: String = masked.iter().map(|b| format!("{:02x}", b)).collect();
    assert_eq!(unmask_websocket_payload(&hex, "0a0B0c0D"), Ok("hello".to_string()));
}

#[test]
fn unmask_accepts_upper_case_digits() {
    assert_eq!(unmask_websocket_payload("7A7F", "01020304"), Ok("{}".to_string()));
}

#[test]
fn unmask_empty_payload() {
    assert_eq!(unmask_websocket_payload("", "01020304"), Ok(String::new()));
}

#[test]
fn unmask_odd_payload() {
    assert_eq!(
        unmask_websocket_payload("7a7", "01020304"),
        Err(SnifferError::HexDecode(HexError::OddLength))
    );
}

#[test]
fn unmask_bad_digit_reports_first_position() {
    assert_eq!(
        unmask_websocket_payload("7a7g", "01020304"),
        Err(SnifferError::HexDecode(HexError::InvalidHexCharacter { c: 'g', index: 3 }))
    );
    // colons are removed before decoding, positions count the digits only
    assert_eq!(
        unmask_websocket_payload("7a:zz", "01020304"),
        Err(SnifferError::HexDecode(HexError::InvalidHexCharacter { c: 'z', index: 2 }))
    );
}

#[test]
fn unmask_bad_key() {
    assert_eq!(
        unmask_websocket_payload("7a7f", "0102x3"),
        Err(SnifferError::HexDecode(HexError::InvalidHexCharacter { c: 'x', index: 4 }))
    );
}

#[test]
fn unmask_key_length() {
    assert_eq!(
        unmask_websocket_payload("7a7f", "010203"),
        Err(SnifferError::MaskingKeyLength(3))
    );
    assert_eq!(
        unmask_websocket_payload("7a7f", "0102030405"),
        Err(SnifferError::MaskingKeyLength(5))
    );
}

#[test]
fn unmask_not_utf8() {
    assert_eq!(
        unmask_websocket_payload("ff", "00000000"),
        Err(SnifferError::DecodingWithMask)
    );
}

#[test]
fn unmask_multibyte_text() {
    // "é" is c3 a9 in UTF-8; masked with 01 02 03 04 gives c2 ab
    assert_eq!(unmask_websocket_payload("c2ab", "01020304"), Ok("é".to_string()));
}

#[test]
fn capture_line_with_text_payload() {
    let fields = parse_capture_line("  {\"code\":\"HeartBeat\"}||\n").unwrap();
    assert_eq!(
        fields,
        CapturedFields {
            text_payload: "{\"code\":\"HeartBeat\"}".to_string(),
            raw_payload: String::new(),
            masking_key: String::new(),
        }
    );
    assert_eq!(fields.select_payload(), Some("{\"code\":\"HeartBeat\"}".to_string()));
}

#[test]
fn capture_line_with_masked_payload() {
    let fields = parse_capture_line("|7a:7f|01:02:03:04").unwrap();
    assert_eq!(fields.text_payload, "");
    assert_eq!(fields.raw_payload, "7a:7f");
    assert_eq!(fields.masking_key, "01:02:03:04");
    assert_eq!(fields.select_payload(), Some("{}".to_string()));
}

#[test]
fn capture_text_takes_precedence() {
    let fields = parse_capture_line("{\"a\":1}|7a7f|01020304").unwrap();
    assert_eq!(fields.select_payload(), Some("{\"a\":1}".to_string()));
}

#[test]
fn capture_blank_line() {
    assert_eq!(parse_capture_line(""), None);
    assert_eq!(parse_capture_line(" \t\r\n"), None);
    assert_eq!(parse_capture_line("\u{3000}\u{a0}"), None);
}

#[test]
fn capture_missing_fields() {
    let fields = parse_capture_line("|7a7f").unwrap();
    assert_eq!(fields.raw_payload, "7a7f");
    assert_eq!(fields.masking_key, "");
    assert_eq!(fields.select_payload(), None);
    let fields = parse_capture_line("||01020304").unwrap();
    assert_eq!(fields.select_payload(), None);
}

#[test]
fn capture_extra_fields_ignored() {
    let fields = parse_capture_line("a|b|c|d").unwrap();
    assert_eq!(fields.text_payload, "a");
    assert_eq!(fields.raw_payload, "b");
    assert_eq!(fields.masking_key, "c");
}

#[test]
fn capture_failed_unmask_gives_nothing() {
    let fields = parse_capture_line("|ff|00000000").unwrap();
    assert_eq!(fields.select_payload(), None);
    let fields = parse_capture_line("|7a7f|0102").unwrap();
    assert_eq!(fields.select_payload(), None);
}

#[test]
fn capture_non_ascii_fields() {
    let fields = parse_capture_line("héllo|wörld|ключ").unwrap();
    assert_eq!(fields.text_payload, "héllo");
    assert_eq!(fields.raw_payload, "wörld");
    assert_eq!(fields.masking_key, "ключ");
}

#[test]
fn capture_separator_is_shared() {
    assert_eq!(separator_option(), format!("separator={}", FIELD_SEPARATOR));
    let line = format!("{}7a7f{}01020304", FIELD_SEPARATOR, FIELD_SEPARATOR);
    assert_eq!(parse_capture_line(&line).unwrap().select_payload(), Some("{}".to_string()));
}

#[test]
fn trim_matches_std() {
    for s in ["", "  ", " a b ", "\t\n{}\r\n", "\u{2003}x\u{205f}", "\u{200b}x", "\u{85}é\u{a0}", "x"] {
        assert_eq!(trim_white_space(s), s.trim());
    }
    for c in ['\u{9}', '\u{d}', ' ', '\u{1680}', '\u{200a}', '\u{2028}', '\u{3000}', 'a', '\u{200b}', '\u{feff}'] {
        assert_eq!(is_white_space_char(c), c.is_whitespace());
    }
}
