use typed_codec::text::{text_from_decoded, Base64Codec};
use typed_codec::{CodecError, DecodeExt, EncodeExt};

#[test]
fn simple_encode() {
    let actual = "foobarbaz12345".encode::<Base64Codec<_>>();
    let expected = "Zm9vYmFyYmF6MTIzNDU=".to_owned();

    assert_eq!(actual, expected);
}

#[test]
fn simple_decode() {
    let actual = "Zm9vYmFyYmF6MTIzNDU=".decode::<Base64Codec<_>>().unwrap();
    let expected = "foobarbaz12345".to_owned();

    assert_eq!(actual, expected);
}

#[test]
fn text_round_trip_on_chosen_strings() {
    let samples = ["", "a", "ab", "abc", "héllo wörld", "日本語のテキスト", "\u{0}\u{10ffff}"];
    for sample in samples {
        let value = sample.to_owned();
        let actual = value
            .encode::<Base64Codec<_>>()
            .decode::<Base64Codec<_>>()
            .unwrap();
        assert_eq!(actual, value);
    }
}

#[test]
fn text_round_trip_on_random_strings() {
    fn round_trip(value: String) -> bool {
        let decoded = value
            .encode::<Base64Codec<_>>()
            .decode::<Base64Codec<_>>();
        decoded == Ok(value)
    }
    quickcheck::quickcheck(round_trip as fn(String) -> bool);
}

#[test]
fn text_encode_of_empty_string_is_empty() {
    assert_eq!("".encode::<Base64Codec<_>>(), "");
    assert_eq!("".decode::<Base64Codec<_>>(), Ok(String::new()));
}

#[test]
fn text_encode_of_bytes() {
    let bytes: Vec<u8> = vec![0xff, 0x00, 0x10];
    assert_eq!(bytes.encode::<Base64Codec<_>>(), "/wAQ");
}

#[test]
fn text_decode_rejects_characters_outside_the_alphabet() {
    assert_eq!("Zm9v*mFy".decode::<Base64Codec<_>>(), Err(CodecError::InvalidText));
}

#[test]
fn text_decode_rejects_bad_padding() {
    assert_eq!("Zm9=v".decode::<Base64Codec<_>>(), Err(CodecError::InvalidText));
}

#[test]
fn text_decode_rejects_bytes_that_are_not_utf8() {
    let text = "/w==".to_owned();
    assert_eq!(text.decode::<Base64Codec<_>>(), Err(CodecError::InvalidUtf8));
}

#[test]
fn text_from_decoded_outcomes() {
    assert_eq!(text_from_decoded(None), Err(CodecError::InvalidText));
    assert_eq!(text_from_decoded(Some(vec![0xc3, 0x28])), Err(CodecError::InvalidUtf8));
    assert_eq!(text_from_decoded(Some(vec![0x68, 0x69])), Ok("hi".to_owned()));
    assert_eq!(text_from_decoded(Some(vec![])), Ok(String::new()));
}
