//! A reversible text codec: standard base64, with padding, of the UTF-8
//! bytes of a string.
use vstd::prelude::*;
use vstd::utf8::{decode_utf8, encode_utf8, valid_utf8};
use crate::error::CodecError;
use crate::{Decode, Encode};

verus! {

/// A value that holds a run of bytes: text holds its UTF-8 bytes.
pub trait ByteSource {
    /// The bytes that the value holds.
    spec fn source_bytes(&self) -> Seq<u8>;

    /// The bytes that the value holds, as a slice.
    fn source_slice(&self) -> (r: &[u8])
        ensures
            r@ == self.source_bytes(),
    ;
}

impl ByteSource for str {
    open spec fn source_bytes(&self) -> Seq<u8> {
        encode_utf8(self@)
    }

    fn source_slice(&self) -> (r: &[u8]) {
        self.as_bytes()
    }
}

impl ByteSource for String {
    open spec fn source_bytes(&self) -> Seq<u8> {
        encode_utf8(self@)
    }

    fn source_slice(&self) -> (r: &[u8]) {
        self.as_str().as_bytes()
    }
}

impl ByteSource for Vec<u8> {
    open spec fn source_bytes(&self) -> Seq<u8> {
        self@
    }

    fn source_slice(&self) -> (r: &[u8]) {
        self.as_slice()
    }
}

impl<'a, T: ByteSource + ?Sized> ByteSource for &'a T {
    open spec fn source_bytes(&self) -> Seq<u8> {
        (**self).source_bytes()
    }

    fn source_slice(&self) -> (r: &[u8]) {
        (**self).source_slice()
    }
}

/// The standard base64 text, with padding, of `bytes`.
pub uninterp spec fn base64_text(bytes: Seq<u8>) -> Seq<char>;

/// The bytes that standard base64 text, given by its bytes, stands for, or
/// `None` when it is not valid base64.
pub uninterp spec fn base64_bytes(text: Seq<u8>) -> Option<Seq<u8>>;

/// Relies on `base64::encode`: the standard alphabet, with padding.
#[verifier::external_body]
fn base64_encode(bytes: &[u8]) -> (r: String)
    ensures
        r@ == base64_text(bytes@),
{
    base64::encode(bytes)
}

/// Relies on `base64::decode`: the bytes that standard base64 text stands
/// for, or its error on any other text; the text of any bytes decodes back to
/// those bytes.
#[verifier::external_body]
fn base64_decode(text: &[u8]) -> (r: Option<Vec<u8>>)
    ensures
        match r {
            Some(bytes) => base64_bytes(text@) == Some(bytes@),
            None => base64_bytes(text@) is None,
        },
        forall|bytes: Seq<u8>|
            encode_utf8(#[trigger] base64_text(bytes)) == text@ ==> r.is_some() && r.unwrap()@
                == bytes,
{
    base64::decode(text).ok()
}

/// Relies on `String::from_utf8`: the bytes become a string exactly when they
/// are valid UTF-8.
#[verifier::external_body]
fn string_from_utf8(bytes: Vec<u8>) -> (r: Option<String>)
    ensures
        match r {
            Some(s) => valid_utf8(bytes@) && s@ == decode_utf8(bytes@),
            None => !valid_utf8(bytes@),
        },
{
    String::from_utf8(bytes).ok()
}

/// The string that `bytes` encode in UTF-8, or why there is none.
pub open spec fn utf8_decoding(bytes: Seq<u8>) -> Result<Seq<char>, CodecError> {
    if valid_utf8(bytes) {
        Ok(decode_utf8(bytes))
    } else {
        Err(CodecError::InvalidUtf8)
    }
}

/// The string that base64 text, given by its bytes, stands for, or why there
/// is none.
pub open spec fn text_decoding(text: Seq<u8>) -> Result<Seq<char>, CodecError> {
    match base64_bytes(text) {
        Some(bytes) => utf8_decoding(bytes),
        None => Err(CodecError::InvalidText),
    }
}

/// Whether `r` is the executable form of `s`.
pub open spec fn same_text(r: Result<String, CodecError>, s: Result<Seq<char>, CodecError>) -> bool {
    match r {
        Ok(v) => s == Ok::<Seq<char>, CodecError>(v@),
        Err(e) => s == Err::<Seq<char>, CodecError>(e),
    }
}

/// Turns the outcome of base64 decoding into a string: fails when the text
/// was not valid base64, or when its bytes are not valid UTF-8.
pub fn text_from_decoded(decoded: Option<Vec<u8>>) -> (r: Result<String, CodecError>)
    ensures
        same_text(
            r,
            match decoded {
                Some(bytes) => utf8_decoding(bytes@),
                None => Err(CodecError::InvalidText),
            },
        ),
{
    match decoded {
        Some(bytes) => match string_from_utf8(bytes) {
            Some(s) => Ok(s),
            None => Err(CodecError::InvalidUtf8),
        },
        None => Err(CodecError::InvalidText),
    }
}

/// The base64 text codec: encodes the bytes a value holds, and decodes base64
/// text back to a string.
pub struct Base64Codec<T>(core::marker::PhantomData<T>);

impl<T: ByteSource> Encode for Base64Codec<T> {
    type Target = T;

    type Output = String;

    /// The base64 text of the bytes that the value holds.
    open spec fn encode_ensures(value: T, output: String) -> bool {
        output@ == base64_text(value.source_bytes())
    }

    fn encode(value: T) -> (output: String) {
        base64_encode(value.source_slice())
    }
}

impl<T: ByteSource> Decode for Base64Codec<T> {
    type Target = T;

    type Output = Result<String, CodecError>;

    /// The string that the base64 text stands for, or why there is none. The
    /// text of any bytes is never rejected as bad base64: it decodes to the
    /// string those bytes encode, if they are UTF-8. So the text of any string
    /// decodes back to that string.
    open spec fn decode_ensures(text: T, output: Result<String, CodecError>) -> bool {
        &&& same_text(output, text_decoding(text.source_bytes()))
        &&& forall|bytes: Seq<u8>|
            encode_utf8(#[trigger] base64_text(bytes)) == text.source_bytes() ==> same_text(
                output,
                utf8_decoding(bytes),
            )
        &&& forall|s: Seq<char>|
            encode_utf8(#[trigger] base64_text(encode_utf8(s))) == text.source_bytes()
                ==> same_text(output, Ok(s))
    }

    fn decode(text: T) -> (output: Result<String, CodecError>) {
        let decoded = base64_decode(text.source_slice());
        let r = text_from_decoded(decoded);
        assert forall|s: Seq<char>|
            encode_utf8(#[trigger] base64_text(encode_utf8(s))) == text.source_bytes()
                implies same_text(r, Ok(s)) by {
            broadcast use vstd::utf8::encode_utf8_valid_utf8, vstd::utf8::encode_utf8_decode_utf8;

            assert(encode_utf8(base64_text(encode_utf8(s))) == text.source_bytes());
        }
        r
    }
}

} // verus!
