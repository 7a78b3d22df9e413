use vstd::prelude::*;

verus! {

/// Why a codec of this crate failed.
#[derive(Debug, Clone, Copy, PartialEq, Eq, Structural)]
pub enum CodecError {
    /// The cipher key does not have the length that the cipher requires.
    InvalidKeyLength,
    /// The value to encipher or decipher is not exactly one block long.
    InvalidBlockLength,
    /// The text holds a character outside the alphabet, or bad padding.
    InvalidText,
    /// The decoded bytes are not valid UTF-8.
    InvalidUtf8,
    /// The stream ended before the bytes that a read needed.
    UnexpectedEnd,
    /// A payload is too long for its length to fit in the 32-bit header.
    LengthOverflow,
}

impl CodecError {
    /// A human-readable cause of the error.
    pub fn message(&self) -> (r: &'static str)
        ensures
            r@ == match *self {
                CodecError::InvalidKeyLength => "invalid key length"@,
                CodecError::InvalidBlockLength => "invalid block length"@,
                CodecError::InvalidText => "invalid base64 text"@,
                CodecError::InvalidUtf8 => "invalid UTF-8"@,
                CodecError::UnexpectedEnd => "unexpected end of stream"@,
                CodecError::LengthOverflow => "payload length does not fit in 32 bits"@,
            },
    {
        match self {
            CodecError::InvalidKeyLength => "invalid key length",
            CodecError::InvalidBlockLength => "invalid block length",
            CodecError::InvalidText => "invalid base64 text",
            CodecError::InvalidUtf8 => "invalid UTF-8",
            CodecError::UnexpectedEnd => "unexpected end of stream",
            CodecError::LengthOverflow => "payload length does not fit in 32 bits",
        }
    }
}

} // verus!
