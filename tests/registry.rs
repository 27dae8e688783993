use std::time::{SystemTime, UNIX_EPOCH};

use snowid_registry::{
    decode_base62, encode_base62, NodeIdentity, Registry, SnowIdError, DEFAULT_KEY, MAX_KEYS,
};

const SCHEME_EPOCH_MS: u64 = 1_704_067_200_000;

fn node(n: i16) -> NodeIdentity {
    let mut cell = NodeIdentity::new();
    cell.set(n).unwrap();
    cell
}

fn now_since_epoch_ms() -> i64 {
    let ms = SystemTime::now().duration_since(UNIX_EPOCH).unwrap().as_millis() as u64;
    (ms - SCHEME_EPOCH_MS) as i64
}

#[test]
fn registry_starts_empty() {
    let reg = Registry::new();
    assert_eq!(reg.snapshot_count(), 0);
    assert!(reg.snapshot_keys().is_empty());
    assert_eq!(MAX_KEYS, 1024);
}

#[test]
fn three_rapid_ids_for_one_key_increase() {
    let cell = node(1);
    let mut reg = Registry::new();
    let a = reg.generate(&cell, 1).unwrap();
    let b = reg.generate(&cell, 1).unwrap();
    let c = reg.generate(&cell, 1).unwrap();
    assert!(a < b && b < c);
    assert!(c <= i64::MAX as u64);
    assert_eq!(reg.snapshot_count(), 1);
    assert_eq!(reg.snapshot_keys(), vec![1]);
}

#[test]
fn many_successive_ids_for_one_key_increase() {
    let cell = node(9);
    let mut reg = Registry::new();
    let mut prev = reg.generate(&cell, 77).unwrap();
    for _ in 0..20_000 {
        let next = reg.generate(&cell, 77).unwrap();
        assert!(next > prev);
        prev = next;
    }
}

#[test]
fn ids_carry_node_identity_at_creation() {
    let mut cell = node(42);
    let mut reg = Registry::new();
    let id = reg.generate(&cell, 5).unwrap();
    assert_eq!((id >> 12) & 0x3ff, 42);
    cell.set(7).unwrap();
    let again = reg.generate(&cell, 5).unwrap();
    assert_eq!((again >> 12) & 0x3ff, 42);
    let other = reg.generate(&cell, 6).unwrap();
    assert_eq!((other >> 12) & 0x3ff, 7);
}

#[test]
fn generate_rejects_non_positive_keys() {
    let cell = node(1);
    let mut reg = Registry::new();
    assert_eq!(reg.generate(&cell, 0), Err(SnowIdError::NonPositiveKey { key: 0 }));
    assert_eq!(reg.generate(&cell, -3), Err(SnowIdError::NonPositiveKey { key: -3 }));
    assert!(matches!(
        reg.generate_base62(&cell, -1),
        Err(SnowIdError::NonPositiveKey { key: -1 })
    ));
    assert_eq!(reg.snapshot_count(), 0);
}

#[test]
fn timestamp_is_close_to_wall_clock() {
    let cell = node(1);
    let mut reg = Registry::new();
    let before = now_since_epoch_ms();
    let id = reg.generate(&cell, 1).unwrap();
    let after = now_since_epoch_ms();
    let ts = reg.get_timestamp(&cell, id as i64).unwrap();
    assert!(ts >= before - 5 && ts <= after + 5);
}

#[test]
fn get_timestamp_exact_and_negative() {
    let cell = node(1);
    let mut reg = Registry::new();
    assert_eq!(reg.get_timestamp(&cell, -1), Err(SnowIdError::NegativeId { id: -1 }));
    assert_eq!(reg.snapshot_count(), 0);
    assert_eq!(reg.get_timestamp(&cell, (123_456 << 22) | (3 << 12) | 9), Ok(123_456));
    assert_eq!(reg.get_timestamp(&cell, 0), Ok(0));
    assert_eq!(reg.get_timestamp(&cell, i64::MAX), Ok((1 << 41) - 1));
}

#[test]
fn timestamp_lookup_creates_default_generator_once() {
    let cell = node(1);
    let mut reg = Registry::new();
    reg.get_timestamp(&cell, 1).unwrap();
    assert_eq!(reg.snapshot_keys(), vec![DEFAULT_KEY]);
    reg.get_timestamp(&cell, 1).unwrap();
    reg.generate(&cell, 3).unwrap();
    reg.get_timestamp(&cell, 1).unwrap();
    assert_eq!(reg.snapshot_keys(), vec![DEFAULT_KEY, 3]);
}

#[test]
fn get_timestamp_base62_exact_and_errors() {
    let cell = node(1);
    let mut reg = Registry::new();
    let text = encode_base62(987_654 << 22);
    assert_eq!(reg.get_timestamp_base62(&cell, &text), Ok(987_654));
    assert_eq!(reg.get_timestamp_base62(&cell, "bad!"), Err(SnowIdError::InvalidBase62 { text: "bad!".to_string() }));
    assert_eq!(reg.get_timestamp_base62(&cell, "zzzzzzzzzzz"), Err(SnowIdError::InvalidBase62 { text: "zzzzzzzzzzz".to_string() }));
}

#[test]
fn base62_and_integer_forms_agree() {
    let cell = node(1);
    let mut reg = Registry::new();
    let text = reg.generate_base62(&cell, 10).unwrap();
    let id = reg.generate(&cell, 10).unwrap();
    let decoded = decode_base62(&text).unwrap();
    assert!(decoded < id);
    assert_eq!(encode_base62(decoded), text);
    assert_eq!(decoded >> 12 & 0x3ff, id >> 12 & 0x3ff);
    assert_eq!(
        reg.get_timestamp_base62(&cell, &text).unwrap(),
        reg.get_timestamp(&cell, decoded as i64).unwrap()
    );
}

#[test]
fn generate_base62_is_eleven_alphabet_characters() {
    let cell = node(1023);
    let mut reg = Registry::new();
    for _ in 0..1000 {
        let text = reg.generate_base62(&cell, 2).unwrap();
        assert_eq!(text.chars().count(), 11);
        assert!(text.chars().all(|c| c.is_ascii_alphanumeric()));
    }
}

#[test]
fn capacity_exceeded_on_key_after_max() {
    let cell = node(1);
    let mut reg = Registry::new();
    for key in 1..=(MAX_KEYS as i32) {
        reg.generate(&cell, key).unwrap();
    }
    assert_eq!(reg.snapshot_count(), MAX_KEYS);
    let extra = MAX_KEYS as i32 + 1;
    assert_eq!(reg.generate(&cell, extra), Err(SnowIdError::CapacityExceeded { key: extra }));
    assert_eq!(reg.resolve(&cell, extra), Err(SnowIdError::CapacityExceeded { key: extra }));
    assert_eq!(reg.snapshot_count(), MAX_KEYS);
    for key in 1..=(MAX_KEYS as i32) {
        reg.generate(&cell, key).unwrap();
    }
    let keys = reg.snapshot_keys();
    assert_eq!(keys, (1..=(MAX_KEYS as i32)).collect::<Vec<i32>>());
}

#[test]
fn resolve_is_stable_per_key() {
    let cell = node(1);
    let mut reg = Registry::new();
    assert_eq!(reg.resolve(&cell, 30), Ok(0));
    assert_eq!(reg.resolve(&cell, 40), Ok(1));
    assert_eq!(reg.resolve(&cell, 30), Ok(0));
    assert_eq!(reg.peek_any(&cell), Ok(0));
    assert_eq!(reg.snapshot_keys(), vec![30, 40]);
}

#[test]
fn fresh_generators_for_two_keys_can_collide() {
    let cell = node(1);
    let mut seen_equal = false;
    for _ in 0..2000 {
        let mut reg = Registry::new();
        let a = reg.generate(&cell, 1).unwrap();
        let b = reg.generate(&cell, 2).unwrap();
        if a == b {
            seen_equal = true;
            break;
        }
    }
    assert!(seen_equal);
}

#[test]
fn table1_then_table2_may_be_equal_when_same_millisecond() {
    let cell = node(1);
    let mut reg = Registry::new();
    let a = reg.generate(&cell, 1).unwrap();
    let b = reg.generate(&cell, 2).unwrap();
    if a >> 22 == b >> 22 {
        assert_eq!(a, b);
    } else {
        assert!(a < b);
    }
    let c = reg.generate(&cell, 1).unwrap();
    assert!(c > a);
}

#[test]
fn minted_ids_fit_signed_64_bits() {
    let cell = node(1023);
    let mut reg = Registry::new();
    for key in 1..=50 {
        let id = reg.generate(&cell, key).unwrap();
        assert!(id <= i64::MAX as u64);
        assert!(i64::try_from(id).is_ok());
    }
}

#[test]
fn lookup_timestamp_reads_without_creating() {
    let cell = node(1);
    let mut reg = Registry::new();
    assert_eq!(reg.lookup_timestamp(5 << 22), None);
    assert_eq!(reg.snapshot_count(), 0);
    reg.generate(&cell, 4).unwrap();
    assert_eq!(reg.lookup_timestamp((5 << 22) | 17), Some(5));
    assert_eq!(reg.snapshot_keys(), vec![4]);
}
