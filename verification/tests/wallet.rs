use cryptocurrency::crypto::PublicKey;
use cryptocurrency::encoding::{is_utf8, read_u16, read_u32, read_u64, utf8_text, write_u64, DecodeError};
use cryptocurrency::wallet::Wallet;
use cryptocurrency::INIT_BALANCE;

fn key(byte: u8) -> PublicKey {
    PublicKey::new([byte; 32])
}

fn stored(pub_key: u8, position: u32, count: u32, balance: u64, name: &[u8]) -> Vec<u8> {
    let mut raw = vec![pub_key; 32];
    raw.extend_from_slice(&position.to_le_bytes());
    raw.extend_from_slice(&count.to_le_bytes());
    raw.extend_from_slice(&balance.to_le_bytes());
    raw.extend_from_slice(name);
    raw
}

#[test]
fn wallet_has_the_documented_layout() {
    let wallet = Wallet::new(&key(1), "Alice", 1000);
    let mut expected = vec![1u8; 32];
    expected.extend_from_slice(&[48, 0, 0, 0]);
    expected.extend_from_slice(&[5, 0, 0, 0]);
    expected.extend_from_slice(&[0xe8, 0x03, 0, 0, 0, 0, 0, 0]);
    expected.extend_from_slice(b"Alice");
    assert_eq!(wallet.as_bytes(), &expected[..]);
    assert_eq!(wallet.as_bytes().len(), 53);
}

#[test]
fn wallet_fields_read_back() {
    let wallet = Wallet::new(&key(7), "Боб", u64::MAX);
    assert_eq!(wallet.pub_key(), key(7));
    assert_eq!(wallet.name(), "Боб");
    assert_eq!(wallet.balance(), u64::MAX);
}

#[test]
fn wallet_with_empty_name() {
    let wallet = Wallet::new(&key(0), "", 0);
    assert_eq!(wallet.as_bytes().len(), 48);
    assert_eq!(wallet.name(), "");
    assert_eq!(wallet.balance(), 0);
}

#[test]
fn wallet_round_trips_through_bytes() {
    let wallet = Wallet::new(&key(3), "Carol", INIT_BALANCE);
    let decoded = Wallet::from_bytes(wallet.clone().into_bytes()).unwrap();
    assert_eq!(decoded, wallet);
    assert_eq!(decoded.pub_key(), key(3));
    assert_eq!(decoded.name(), "Carol");
    assert_eq!(decoded.balance(), 1000);
}

#[test]
fn bytes_round_trip_through_wallet() {
    let raw = stored(9, 48, 3, 77, b"Dan");
    let wallet = Wallet::from_bytes(raw.clone()).unwrap();
    assert_eq!(wallet.into_bytes(), raw);
}

#[test]
fn increase_adds_to_the_balance_only() {
    let mut wallet = Wallet::new(&key(1), "Alice", 1000);
    wallet.increase(300);
    assert_eq!(wallet.balance(), 1300);
    assert_eq!(wallet.name(), "Alice");
    assert_eq!(wallet.pub_key(), key(1));
    assert_eq!(wallet, Wallet::new(&key(1), "Alice", 1300));
}

#[test]
fn decrease_takes_from_the_balance_only() {
    let mut wallet = Wallet::new(&key(1), "Alice", 1000);
    wallet.decrease(1000);
    assert_eq!(wallet.balance(), 0);
    assert_eq!(wallet, Wallet::new(&key(1), "Alice", 0));
}

#[test]
fn increase_up_to_the_largest_balance() {
    let mut wallet = Wallet::new(&key(1), "Alice", u64::MAX - 5);
    wallet.increase(5);
    assert_eq!(wallet.balance(), u64::MAX);
}

#[test]
fn short_buffer_is_not_a_wallet() {
    assert_eq!(
        Wallet::from_bytes(vec![0u8; 47]),
        Err(DecodeError::UnexpectedlyShortPayload { actual_size: 47, minimum_size: 48 })
    );
    assert_eq!(
        Wallet::check(&[]),
        Err(DecodeError::UnexpectedlyShortPayload { actual_size: 0, minimum_size: 48 })
    );
}

#[test]
fn name_must_start_where_the_header_ends() {
    assert_eq!(
        Wallet::check(&stored(1, 47, 1, 0, b"a")),
        Err(DecodeError::OverlappingSegment { last_end: 48, start: 47 })
    );
    assert_eq!(
        Wallet::check(&stored(1, 49, 1, 0, b"ab")),
        Err(DecodeError::SpaceBetweenSegments { last_end: 48, start: 49 })
    );
}

#[test]
fn name_must_lie_within_the_buffer() {
    assert_eq!(
        Wallet::check(&stored(1, 48, 6, 0, b"Alice")),
        Err(DecodeError::IncorrectSegmentSize { position: 36, value: 6 })
    );
}

#[test]
fn name_length_must_not_overflow() {
    assert_eq!(
        Wallet::check(&stored(1, 48, u32::MAX, 0, b"Alice")),
        Err(DecodeError::OffsetOverflow)
    );
}

#[test]
fn name_must_be_utf8() {
    assert_eq!(
        Wallet::check(&stored(1, 48, 2, 0, &[0xc3, 0x28])),
        Err(DecodeError::Utf8 { position: 48 })
    );
}

#[test]
fn nothing_may_follow_the_name() {
    assert_eq!(
        Wallet::check(&stored(1, 48, 3, 0, b"Alice")),
        Err(DecodeError::IncorrectLength { actual_size: 53, expected_size: 51 })
    );
}

#[test]
fn well_formed_buffer_is_a_wallet() {
    assert_eq!(Wallet::check(&stored(1, 48, 5, 12, b"Alice")), Ok(()));
}

#[test]
fn utf8_is_told_from_other_bytes() {
    assert!(is_utf8(b"plain"));
    assert!(is_utf8("ключ".as_bytes()));
    assert!(is_utf8(&[]));
    assert!(!is_utf8(&[0xff]));
    assert!(!is_utf8(&[0xe2, 0x82]));
    assert!(!is_utf8(&[0xed, 0xa0, 0x80]));
}

#[test]
fn utf8_text_decodes_the_bytes() {
    assert_eq!(utf8_text(&[0xd0, 0x96, 0x41]), "ЖA");
    assert_eq!(utf8_text(b""), "");
}

#[test]
fn integers_are_little_endian() {
    let buf = [0x01u8, 0x02, 0x03, 0x04, 0x05, 0x06, 0x07, 0x08, 0x09];
    assert_eq!(read_u16(&buf, 0), 0x0201);
    assert_eq!(read_u16(&buf, 7), 0x0908);
    assert_eq!(read_u32(&buf, 1), 0x05040302);
    assert_eq!(read_u64(&buf, 1), 0x0908070605040302);
}

#[test]
fn write_changes_the_eight_bytes_only() {
    let mut buf = vec![0xaau8; 12];
    write_u64(&mut buf, 2, 0x1122334455667788);
    assert_eq!(
        buf,
        vec![0xaa, 0xaa, 0x88, 0x77, 0x66, 0x55, 0x44, 0x33, 0x22, 0x11, 0xaa, 0xaa]
    );
}

#[test]
fn public_key_needs_thirty_two_bytes() {
    assert_eq!(PublicKey::from_slice(&[5u8; 32]), Some(key(5)));
    assert_eq!(PublicKey::from_slice(&[5u8; 31]), None);
    assert_eq!(PublicKey::from_slice(&[5u8; 33]), None);
    assert!(key(1) != key(2));
    let mut bytes = [1u8; 32];
    bytes[31] = 2;
    assert!(PublicKey::new(bytes) != key(1));
}
