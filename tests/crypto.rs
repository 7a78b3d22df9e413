use typed_codec::cipher::DesCrypto;
use typed_codec::{CodecError, ContextualDecodeExt, ContextualEncodeExt};

#[test]
fn crypto_encode() {
    let key = vec![0x00, 0x11, 0x22, 0x33, 0x44, 0x55, 0x66, 0x77];
    let value = vec![0x01, 0x02, 0x03, 0x04, 0x05, 0x06, 0x07, 0x08];

    let actual = value.contextual_encode::<DesCrypto>(&key).unwrap();
    let expected = vec![0xe4, 0x04, 0xf3, 0xdf, 0x18, 0xa4, 0x53, 0x1b];

    assert_eq!(actual, expected);
}

#[test]
fn crypto_decode() {
    let key = vec![0x00, 0x11, 0x22, 0x33, 0x44, 0x55, 0x66, 0x77];
    let value = vec![0xe4, 0x04, 0xf3, 0xdf, 0x18, 0xa4, 0x53, 0x1b];

    let actual = value.contextual_decode::<DesCrypto>(&key).unwrap();
    let expected = vec![0x01, 0x02, 0x03, 0x04, 0x05, 0x06, 0x07, 0x08];

    assert_eq!(actual, expected);
}

#[test]
fn crypto_round_trip_on_random_blocks() {
    fn round_trip(mut key: Vec<u8>, mut block: Vec<u8>) -> bool {
        key.resize(8, 0);
        block.resize(8, 0);
        let encoded = block.contextual_encode::<DesCrypto>(&key).unwrap();
        let decoded = encoded.contextual_decode::<DesCrypto>(&key).unwrap();
        encoded.len() == 8 && decoded == block
    }
    quickcheck::quickcheck(round_trip as fn(Vec<u8>, Vec<u8>) -> bool);
}

#[test]
fn crypto_encode_changes_the_block() {
    let key = vec![0x13, 0x34, 0x57, 0x79, 0x9b, 0xbc, 0xdf, 0xf1];
    let value = vec![0x01, 0x23, 0x45, 0x67, 0x89, 0xab, 0xcd, 0xef];

    let actual = value.contextual_encode::<DesCrypto>(&key).unwrap();
    let expected = vec![0x85, 0xe8, 0x13, 0x54, 0x0f, 0x0a, 0xb4, 0x05];

    assert_eq!(actual, expected);
    assert_eq!(actual.contextual_decode::<DesCrypto>(&key), Ok(value));
}

#[test]
fn crypto_rejects_short_and_long_keys() {
    let value = vec![0u8; 8];
    let short_key = vec![0u8; 7];
    let long_key = vec![0u8; 9];

    assert_eq!(value.contextual_encode::<DesCrypto>(&short_key), Err(CodecError::InvalidKeyLength));
    assert_eq!(value.contextual_encode::<DesCrypto>(&long_key), Err(CodecError::InvalidKeyLength));
    assert_eq!(value.contextual_decode::<DesCrypto>(&short_key), Err(CodecError::InvalidKeyLength));
}

#[test]
fn crypto_rejects_values_that_are_not_one_block() {
    let key = vec![0u8; 8];
    let empty: Vec<u8> = vec![];
    let long = vec![0u8; 16];

    assert_eq!(empty.contextual_encode::<DesCrypto>(&key), Err(CodecError::InvalidBlockLength));
    assert_eq!(long.contextual_encode::<DesCrypto>(&key), Err(CodecError::InvalidBlockLength));
    assert_eq!(long.contextual_decode::<DesCrypto>(&key), Err(CodecError::InvalidBlockLength));
}

#[test]
fn crypto_checks_the_key_before_the_block() {
    let key = vec![0u8; 3];
    let value = vec![0u8; 3];

    assert_eq!(value.contextual_encode::<DesCrypto>(&key), Err(CodecError::InvalidKeyLength));
    assert_eq!(value.contextual_decode::<DesCrypto>(&key), Err(CodecError::InvalidKeyLength));
}

#[test]
fn crypto_key_error_carries_a_cause() {
    let key = vec![0u8; 5];
    let value = vec![0u8; 8];

    let error = value.contextual_encode::<DesCrypto>(&key).unwrap_err();

    assert_eq!(error.message(), "invalid key length");
    assert_eq!(CodecError::InvalidBlockLength.message(), "invalid block length");
}
