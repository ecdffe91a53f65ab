use simple_messenger::codec::{dec_to_u128, token_from_bytes, u128_to_dec};
use simple_messenger::store::ExpiringStore;

#[test]
fn set_then_get_before_expiry() {
    let mut store = ExpiringStore::new();
    store.set_ex("k".to_string(), "v".to_string(), 60, 1000);
    assert_eq!(store.get(&"k".to_string(), 1000), Some("v".to_string()));
    assert_eq!(store.get(&"k".to_string(), 1059), Some("v".to_string()));
}

#[test]
fn get_after_expiry_is_none() {
    let mut store = ExpiringStore::new();
    store.set_ex("k".to_string(), "v".to_string(), 60, 1000);
    assert_eq!(store.get(&"k".to_string(), 1060), None);
    assert_eq!(store.get(&"k".to_string(), 5000), None);
}

#[test]
fn set_replaces_earlier_value() {
    let mut store = ExpiringStore::new();
    store.set_ex("k".to_string(), "v1".to_string(), 60, 1000);
    store.set_ex("k".to_string(), "v2".to_string(), 60, 1010);
    assert_eq!(store.get(&"k".to_string(), 1020), Some("v2".to_string()));
    assert_eq!(store.get(&"k".to_string(), 1069), Some("v2".to_string()));
}

#[test]
fn get_del_consumes_exactly_once() {
    let mut store = ExpiringStore::new();
    store.set_ex("s".to_string(), "verifier".to_string(), 600, 0);
    store.set_ex("other".to_string(), "kept".to_string(), 600, 0);
    assert_eq!(store.get_del(&"s".to_string(), 10), Some("verifier".to_string()));
    assert_eq!(store.get_del(&"s".to_string(), 10), None);
    assert_eq!(store.get(&"other".to_string(), 10), Some("kept".to_string()));
}

#[test]
fn unknown_key_is_none() {
    let store = ExpiringStore::new();
    assert_eq!(store.get(&"missing".to_string(), 0), None);
}

#[test]
fn dec_rendering_is_exact() {
    assert_eq!(u128_to_dec(0), "0");
    assert_eq!(u128_to_dec(905), "905");
    assert_eq!(u128_to_dec(10), "10");
    assert_eq!(
        u128_to_dec(u128::MAX),
        "340282366920938463463374607431768211455"
    );
}

#[test]
fn dec_parsing_round_trips() {
    for n in [0u128, 1, 9, 10, 99, 12345, u128::MAX - 1, u128::MAX] {
        assert_eq!(dec_to_u128(&u128_to_dec(n)), Some(n));
    }
}

#[test]
fn dec_parsing_rejects_non_canonical() {
    assert_eq!(dec_to_u128(""), None);
    assert_eq!(dec_to_u128("007"), None);
    assert_eq!(dec_to_u128("abc"), None);
    assert_eq!(dec_to_u128("12x"), None);
    assert_eq!(dec_to_u128("-5"), None);
    // one past u128::MAX
    assert_eq!(dec_to_u128("340282366920938463463374607431768211456"), None);
}

#[test]
fn token_bytes_little_endian() {
    let mut bytes = [0u8; 16];
    bytes[0] = 1;
    assert_eq!(token_from_bytes(&bytes), 1);
    let mut high = [0u8; 16];
    high[15] = 1;
    assert_eq!(token_from_bytes(&high), 1u128 << 120);
    let mixed = [
        0x01, 0x02, 0x03, 0x04, 0x05, 0x06, 0x07, 0x08, 0x09, 0x0a, 0x0b, 0x0c, 0x0d, 0x0e, 0x0f,
        0x10,
    ];
    assert_eq!(token_from_bytes(&mixed), u128::from_le_bytes(mixed));
}
