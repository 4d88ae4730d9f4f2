use b64hex::{b64_to_hex, bytes_to_hex, hex_to_b64, normalize_input, parse_hex, HexCase};

#[test]
fn parse_hex_simple() {
    assert_eq!(parse_hex("68656c6c6f").unwrap(), b"hello".to_vec());
}

#[test]
fn parse_hex_prefix_lower() {
    assert_eq!(parse_hex("0x68656c6c6f").unwrap(), b"hello".to_vec());
}

#[test]
fn parse_hex_prefix_upper() {
    assert_eq!(parse_hex("0X68656C6C6F").unwrap(), b"hello".to_vec());
}

#[test]
fn parse_hex_case_insensitive() {
    assert_eq!(parse_hex("aAbBcC"), parse_hex("AaBbCc"));
    assert_eq!(parse_hex("deadBEEF").unwrap(), vec![0xde, 0xad, 0xbe, 0xef]);
}

#[test]
fn parse_hex_prefix_only_at_start() {
    // The prefix is stripped once at the very start; a second one is data.
    let e = parse_hex("0x0x41").unwrap_err();
    assert!(e.contains("Invalid hex pair '0x'"));
    // A prefix not at the very start (after a non-prefix digit pair) is data.
    let e = parse_hex("410x").unwrap_err();
    assert!(e.contains("Invalid hex pair '0x'"));
}

#[test]
fn parse_hex_prefix_split_by_whitespace_is_data() {
    // Interior whitespace is removed only after the prefix check, so a torn
    // "0 x41" holds no prefix and its first pair becomes '0x'.
    let e = parse_hex("0 x41").unwrap_err();
    assert!(e.contains("Invalid hex pair '0x'"));
}

#[test]
fn parse_hex_whitespace_between_pairs() {
    assert_eq!(parse_hex("68 65 6c 6c 6f").unwrap(), b"hello".to_vec());
    assert_eq!(parse_hex("\t6 8\n65").unwrap(), vec![0x68, 0x65]);
    assert_eq!(parse_hex("  0x41  ").unwrap(), vec![0x41]);
}

#[test]
fn parse_hex_empty() {
    assert_eq!(parse_hex("").unwrap_err(), "Empty hex string");
    assert_eq!(parse_hex("  \n\t ").unwrap_err(), "Empty hex string");
    assert_eq!(parse_hex("0x").unwrap_err(), "Empty hex string");
}

#[test]
fn parse_hex_odd_length() {
    assert_eq!(parse_hex("abc").unwrap_err(), "Hex string must have even length");
    assert_eq!(parse_hex("0x123").unwrap_err(), "Hex string must have even length");
}

#[test]
fn parse_hex_invalid_pair() {
    assert_eq!(
        parse_hex("zz").unwrap_err(),
        "Invalid hex pair 'zz': invalid digit found in string"
    );
    // The first offending pair is the one reported.
    assert_eq!(
        parse_hex("41g2h3").unwrap_err(),
        "Invalid hex pair 'g2': invalid digit found in string"
    );
    // A leading sign is not a hex digit.
    assert_eq!(
        parse_hex("+1").unwrap_err(),
        "Invalid hex pair '+1': invalid digit found in string"
    );
}

#[test]
fn bytes_to_hex_cases() {
    assert_eq!(bytes_to_hex(b"hello", HexCase::Lower), "68656c6c6f");
    assert_eq!(bytes_to_hex(b"hello", HexCase::Upper), "68656C6C6F");
    assert_eq!(bytes_to_hex(&[], HexCase::Lower), "");
    assert_eq!(bytes_to_hex(&[0x00, 0x0f, 0xf0], HexCase::Lower), "000ff0");
}

#[test]
fn hex_round_trip_lower() {
    let b: Vec<u8> = (0u16..=255).map(|x| x as u8).collect();
    let h = bytes_to_hex(&b, HexCase::Lower);
    assert_eq!(parse_hex(&h).unwrap(), b);
}

#[test]
fn hex_round_trip_upper() {
    let b: Vec<u8> = (0u16..=255).rev().map(|x| x as u8).collect();
    let h = bytes_to_hex(&b, HexCase::Upper);
    assert_eq!(parse_hex(&h).unwrap(), b);
}

#[test]
fn b64_to_hex_classic() {
    assert_eq!(b64_to_hex("aGVsbG8=", HexCase::Lower).unwrap(), "68656c6c6f");
    assert_eq!(b64_to_hex("aGVsbG8=", HexCase::Upper).unwrap(), "68656C6C6F");
}

#[test]
fn b64_to_hex_classic_alphabet_chars() {
    // "+/8=" is the classic rendering of fb ff.
    assert_eq!(b64_to_hex("+/8=", HexCase::Lower).unwrap(), "fbff");
}

#[test]
fn b64_to_hex_urlsafe_fallback() {
    // "-_8=" is the URL-safe rendering of fb ff; classic decode fails on it
    // and the fallback engages.
    assert_eq!(b64_to_hex("-_8=", HexCase::Lower).unwrap(), "fbff");
}

#[test]
fn b64_to_hex_invalid_both_ways() {
    let e = b64_to_hex("!!!", HexCase::Lower).unwrap_err();
    assert!(e.starts_with("Failed to decode as classic or URL-safe base64: "));
}

#[test]
fn b64_round_trip_classic() {
    // Encoding bytes and decoding through the fallback yields them back.
    let hex_in = "fbff00a1";
    let b64 = hex_to_b64(hex_in, false).unwrap();
    assert_eq!(b64, "+/8AoQ==");
    assert_eq!(b64_to_hex(&b64, HexCase::Lower).unwrap(), hex_in);
}

#[test]
fn b64_round_trip_urlsafe() {
    let hex_in = "fbff00a1";
    let b64 = hex_to_b64(hex_in, true).unwrap();
    assert_eq!(b64, "-_8AoQ==");
    assert_eq!(b64_to_hex(&b64, HexCase::Lower).unwrap(), hex_in);
}

#[test]
fn hex_to_b64_simple() {
    assert_eq!(hex_to_b64("0x68656c6c6f", false).unwrap(), "aGVsbG8=");
    assert_eq!(hex_to_b64("68656c6c6f", true).unwrap(), "aGVsbG8=");
}

#[test]
fn hex_to_b64_errors_carry_over() {
    assert_eq!(hex_to_b64("abc", false).unwrap_err(), "Hex string must have even length");
    assert_eq!(hex_to_b64("", false).unwrap_err(), "Empty hex string");
    assert_eq!(
        hex_to_b64("zz", false).unwrap_err(),
        "Invalid hex pair 'zz': invalid digit found in string"
    );
}

#[test]
fn whitespace_normalized_before_decode() {
    assert_eq!(hex_to_b64("68 65 6c 6c 6f", false).unwrap(), "aGVsbG8=");
    // The Base64 codec itself sees whitespace as invalid; removal is the
    // normalizer's job, which drops every whitespace character.
    assert_eq!(normalize_input("68 65 6c 6c 6f"), "68656c6c6f");
    assert_eq!(normalize_input(" a\tG\nVs\r\nbG8= "), "aGVsbG8=");
    assert_eq!(normalize_input("\u{a0}x\u{3000}"), "x");
    assert_eq!(normalize_input(" \n\t "), "");
}

#[test]
fn empty_base64_decodes_to_no_bytes() {
    // "" is the classic rendering of the empty byte sequence.
    assert_eq!(b64_to_hex("", HexCase::Lower).unwrap(), "");
    assert_eq!(hex_to_b64("", true).unwrap_err(), "Empty hex string");
}
