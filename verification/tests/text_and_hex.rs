use tenzro_cli::hex::{hex_decode, hex_decode_bytes, hex_encode, HexError};
use tenzro_cli::text::{decimal_string, str_contains, str_starts_with, string_from_chars, trim_matches};

#[test]
fn decimal_string_matches_to_string() {
    for n in [0u64, 1, 9, 10, 11, 99, 100, 12345, 1_000_000, u64::MAX - 1, u64::MAX] {
        assert_eq!(decimal_string(n), n.to_string());
    }
}

#[test]
fn contains_finds_substrings() {
    assert!(str_contains("Synced (best #10)", "Synced"));
    assert!(str_contains("connection refused", "refused"));
    assert!(str_contains("abc", ""));
    assert!(str_contains("", ""));
    assert!(!str_contains("Syncing", "Synced"));
    assert!(!str_contains("ab", "abc"));
    assert!(str_contains("xxabab", "abab"));
}

#[test]
fn starts_with_checks_prefixes() {
    assert!(str_starts_with("https://x", "https://"));
    assert!(str_starts_with("http://x", "http://"));
    assert!(!str_starts_with("http:/", "http://"));
    assert!(str_starts_with("anything", ""));
}

#[test]
fn trim_matches_agrees_with_std() {
    for s in ["\"abc\"", "abc", "\"\"", "\"", "", "\"a\"b\"", "\"\"x\"\"", "x\"", "é\"ü"] {
        assert_eq!(trim_matches(s, '"'), s.trim_matches('"'));
    }
}

#[test]
fn lowercase_and_chars() {
    assert_eq!(string_from_chars(&['a', 'é', 'z']), "aéz");
}

#[test]
fn hex_encode_matches_hex_crate() {
    let samples: Vec<Vec<u8>> = vec![vec![], vec![0], vec![255], vec![1, 2, 3, 15, 16], (0..=255).collect()];
    for s in &samples {
        assert_eq!(hex_encode(s), hex::encode(s));
    }
    assert_eq!(hex_encode(b"Hello world!"), "48656c6c6f20776f726c6421");
}

#[test]
fn hex_decode_matches_hex_crate() {
    let samples = ["", "00", "ff", "FF", "f9B4Ca", "123", "zz", "0g", "g0", "abcx", "é0", "48656c6c6f20776f726c6421", "0x12"];
    for s in samples {
        let ours = hex_decode(s);
        match hex::decode(s) {
            Ok(v) => assert_eq!(ours, Ok(v)),
            Err(hex::FromHexError::OddLength) => assert_eq!(ours, Err(HexError::OddLength)),
            Err(hex::FromHexError::InvalidHexCharacter { c, index }) => {
                assert_eq!(ours, Err(HexError::InvalidHexCharacter { c, index }))
            }
            Err(e) => panic!("unexpected error {:?}", e),
        }
    }
}

#[test]
fn hex_decode_reports_first_bad_byte() {
    assert_eq!(hex_decode("123"), Err(HexError::OddLength));
    assert_eq!(hex_decode("0g1h"), Err(HexError::InvalidHexCharacter { c: 'g', index: 1 }));
    assert_eq!(hex_decode_bytes(&[b'a', b'b', b'q', b'0']), Err(HexError::InvalidHexCharacter { c: 'q', index: 2 }));
}

#[test]
fn hex_round_trip() {
    let data: Vec<u8> = (0..=255).rev().collect();
    assert_eq!(hex_decode(&hex_encode(&data)), Ok(data));
}
