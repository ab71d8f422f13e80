use casper_types::bytesrepr::{FromBytes, ToBytes};
use deploy_acceptor::era_id::{ConsensusMessage, EraId};

#[test]
fn bytesrepr_roundtrip() {
    let era_id = EraId(0xdead_beef_1234_5678);
    let bytes = era_id.to_bytes();
    assert_eq!(bytes.len(), era_id.serialized_length());
    let (decoded, remainder) = EraId::from_bytes(&bytes).expect("eight bytes must decode");
    assert_eq!(decoded, era_id);
    assert!(remainder.is_empty());
}

#[test]
fn era_encoding_matches_chain_encoding() {
    let value: u64 = 123_456_789_012_345;
    let era = EraId(value);
    assert_eq!(era.to_bytes(), value.to_bytes().unwrap());
    assert_eq!(era.to_bytes(), value.to_le_bytes().to_vec());
    let encoded = era.to_bytes();
    let (raw, rest) = <u64 as FromBytes>::from_bytes(&encoded).unwrap();
    assert_eq!(raw, value);
    assert!(rest.is_empty());
}

#[test]
fn era_decoding_matches_chain_decoding() {
    let bytes: Vec<u8> = vec![1, 2, 3, 4, 5, 6, 7, 8, 99, 100];
    let (era, remainder) = EraId::from_bytes(&bytes).unwrap();
    let (raw, raw_remainder) = <u64 as FromBytes>::from_bytes(&bytes).unwrap();
    assert_eq!(era.value(), raw);
    assert_eq!(remainder, raw_remainder.to_vec());
    assert_eq!(remainder, vec![99, 100]);
}

#[test]
fn era_decoding_fails_on_short_input() {
    let bytes: Vec<u8> = vec![1, 2, 3, 4, 5, 6, 7];
    assert!(EraId::from_bytes(&bytes).is_none());
    assert!(<u64 as FromBytes>::from_bytes(&bytes).is_err());
}

#[test]
fn era_successor_and_genesis() {
    let genesis = EraId(0);
    assert!(genesis.is_genesis());
    let next = genesis.successor();
    assert_eq!(next, EraId(1));
    assert!(!next.is_genesis());
}

#[test]
fn era_checked_sub() {
    assert_eq!(EraId(5).checked_sub(2), Some(EraId(3)));
    assert_eq!(EraId(5).checked_sub(5), Some(EraId(0)));
    assert_eq!(EraId(5).checked_sub(6), None);
}

#[test]
fn era_saturating_arithmetic() {
    assert_eq!(EraId(5).saturating_sub(7), EraId(0));
    assert_eq!(EraId(5).saturating_sub(3), EraId(2));
    assert_eq!(EraId(u64::MAX).saturating_add(1), EraId(u64::MAX));
    assert_eq!(EraId(10).saturating_add(5), EraId(15));
}

#[test]
fn era_message_wraps_payload() {
    let era = EraId(3);
    let payload: Vec<u8> = vec![9, 8, 7];
    let message = era.message(payload.clone());
    assert_eq!(message, ConsensusMessage::Protocol { era_id: era, payload });
}
