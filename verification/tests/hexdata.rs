use amidi::error::Error;
use amidi::hexdata::HexData;

#[test]
fn from_str_decodes_digit_pairs() {
    let h = HexData::from_str("f00001f7").unwrap();
    assert_eq!(h.0, vec![0xf0, 0x00, 0x01, 0xf7]);
}

#[test]
fn from_str_accepts_mixed_case() {
    let h = HexData::from_str("F0a5").unwrap();
    assert_eq!(h.0, vec![0xf0, 0xa5]);
}

#[test]
fn from_str_empty_text_is_empty_payload() {
    let h = HexData::from_str("").unwrap();
    assert!(h.0.is_empty());
}

#[test]
fn from_str_rejects_odd_digit_count() {
    assert_eq!(HexData::from_str("f0a"), Err(Error::Input));
}

#[test]
fn from_str_rejects_non_hex_character() {
    assert_eq!(HexData::from_str("zz"), Err(Error::Input));
}
