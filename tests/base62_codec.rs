use snowid_registry::{decode_base62, encode_base62, SnowIdError, BASE62_WIDTH};

fn is_alphabet(c: char) -> bool {
    c.is_ascii_digit() || c.is_ascii_uppercase() || c.is_ascii_lowercase()
}

#[test]
fn encode_pads_to_fixed_width() {
    assert_eq!(encode_base62(0), "00000000000");
    assert_eq!(encode_base62(61), "0000000000z");
    assert_eq!(encode_base62(62), "00000000010");
    assert_eq!(encode_base62(1337), "000000000LZ");
    assert_eq!(encode_base62(u64::MAX), "LygHa16AHYF");
}

#[test]
fn decode_exact_values() {
    assert_eq!(decode_base62("00000000000"), Ok(0));
    assert_eq!(decode_base62("0000000000z"), Ok(61));
    assert_eq!(decode_base62("000000000LZ"), Ok(1337));
    assert_eq!(decode_base62("LygHa16AHYF"), Ok(u64::MAX));
}

#[test]
fn decode_rejects_wrong_width() {
    assert_eq!(decode_base62(""), Err(SnowIdError::InvalidBase62 { text: "".to_string() }));
    assert_eq!(decode_base62("LZ"), Err(SnowIdError::InvalidBase62 { text: "LZ".to_string() }));
    assert_eq!(decode_base62("000000000000"), Err(SnowIdError::InvalidBase62 { text: "000000000000".to_string() }));
}

#[test]
fn decode_rejects_characters_outside_alphabet() {
    assert_eq!(decode_base62("0000000000!"), Err(SnowIdError::InvalidBase62 { text: "0000000000!".to_string() }));
    assert_eq!(decode_base62("00000-00000"), Err(SnowIdError::InvalidBase62 { text: "00000-00000".to_string() }));
    assert_eq!(decode_base62("0000000000é"), Err(SnowIdError::InvalidBase62 { text: "0000000000é".to_string() }));
}

#[test]
fn decode_rejects_values_above_64_bits() {
    assert_eq!(decode_base62("LygHa16AHYG"), Err(SnowIdError::InvalidBase62 { text: "LygHa16AHYG".to_string() }));
    assert_eq!(decode_base62("zzzzzzzzzzz"), Err(SnowIdError::InvalidBase62 { text: "zzzzzzzzzzz".to_string() }));
}

#[test]
fn encode_then_decode_round_trips() {
    for id in [0u64, 1, 61, 62, 3843, 3844, 1 << 40, (1 << 63) - 1, u64::MAX - 1, u64::MAX] {
        let text = encode_base62(id);
        assert_eq!(text.len(), BASE62_WIDTH);
        assert!(text.chars().all(is_alphabet));
        assert_eq!(decode_base62(&text), Ok(id));
    }
}

#[test]
fn text_order_matches_numeric_order() {
    let ids = [0u64, 9, 10, 35, 36, 61, 62, 1000, 1 << 32, u64::MAX];
    for w in ids.windows(2) {
        assert!(encode_base62(w[0]) < encode_base62(w[1]));
    }
}
