//! A contextual block-cipher codec: DES on one 8-byte block, keyed by an
//! 8-byte key given as the context.
use vstd::prelude::*;
use des::cipher::generic_array::GenericArray;
use des::cipher::{BlockDecrypt, BlockEncrypt, KeyInit};
use crate::error::CodecError;
use crate::{ContextualDecode, ContextualEncode};

verus! {

/// The block that DES makes of the 8-byte `block` under the 8-byte `key`.
pub uninterp spec fn des_encrypt(key: Seq<u8>, block: Seq<u8>) -> Seq<u8>;

/// The block that DES deciphering makes of the 8-byte `block` under the
/// 8-byte `key`.
pub uninterp spec fn des_decrypt(key: Seq<u8>, block: Seq<u8>) -> Seq<u8>;

/// Relies on `des::Des` (`KeyInit::new`, `BlockEncrypt::encrypt_block`):
/// enciphers one 8-byte block under an 8-byte key into 8 bytes.
#[verifier::external_body]
fn encrypt_block(key: &[u8], block: &[u8]) -> (r: Vec<u8>)
    requires
        key@.len() == 8,
        block@.len() == 8,
    ensures
        r@ == des_encrypt(key@, block@),
        r@.len() == 8,
{
    let cipher = des::Des::new(GenericArray::from_slice(key));
    let mut b = GenericArray::clone_from_slice(block);
    cipher.encrypt_block(&mut b);
    b.to_vec()
}

/// Relies on `des::Des` (`KeyInit::new`, `BlockDecrypt::decrypt_block`):
/// deciphers one 8-byte block under an 8-byte key into 8 bytes, undoing
/// `encrypt_block` under the same key.
#[verifier::external_body]
fn decrypt_block(key: &[u8], block: &[u8]) -> (r: Vec<u8>)
    requires
        key@.len() == 8,
        block@.len() == 8,
    ensures
        r@ == des_decrypt(key@, block@),
        r@.len() == 8,
        forall|p: Seq<u8>| p.len() == 8 && #[trigger] des_encrypt(key@, p) == block@ ==> r@ == p,
{
    let cipher = des::Des::new(GenericArray::from_slice(key));
    let mut b = GenericArray::clone_from_slice(block);
    cipher.decrypt_block(&mut b);
    b.to_vec()
}

/// The length in bytes of a key and of a block.
pub const BLOCK_LEN: usize = 8;

/// Why `block` cannot be enciphered or deciphered under `key`, if it cannot:
/// the key is checked first.
pub open spec fn cipher_input_error(block: Seq<u8>, key: Seq<u8>) -> Option<CodecError> {
    if key.len() != BLOCK_LEN {
        Some(CodecError::InvalidKeyLength)
    } else if block.len() != BLOCK_LEN {
        Some(CodecError::InvalidBlockLength)
    } else {
        None
    }
}

/// What enciphering `block` under `key` gives.
pub open spec fn cipher_encoding(block: Seq<u8>, key: Seq<u8>) -> Result<Seq<u8>, CodecError> {
    match cipher_input_error(block, key) {
        Some(e) => Err(e),
        None => Ok(des_encrypt(key, block)),
    }
}

/// What deciphering `block` under `key` gives.
pub open spec fn cipher_decoding(block: Seq<u8>, key: Seq<u8>) -> Result<Seq<u8>, CodecError> {
    match cipher_input_error(block, key) {
        Some(e) => Err(e),
        None => Ok(des_decrypt(key, block)),
    }
}

/// Whether `r` is the executable form of `s`.
pub open spec fn same_result(r: Result<Vec<u8>, CodecError>, s: Result<Seq<u8>, CodecError>) -> bool {
    match r {
        Ok(v) => s == Ok::<Seq<u8>, CodecError>(v@),
        Err(e) => s == Err::<Seq<u8>, CodecError>(e),
    }
}

/// Checks that `block` can be enciphered or deciphered under `key`.
fn check_cipher_input(block: &Vec<u8>, key: &Vec<u8>) -> (r: Option<CodecError>)
    ensures
        r == cipher_input_error(block@, key@),
{
    if key.len() != BLOCK_LEN {
        Some(CodecError::InvalidKeyLength)
    } else if block.len() != BLOCK_LEN {
        Some(CodecError::InvalidBlockLength)
    } else {
        None
    }
}

/// The DES codec: the value is one block, the context is the key.
pub struct DesCrypto<'a>(core::marker::PhantomData<&'a ()>);

impl<'a> ContextualEncode for DesCrypto<'a> {
    type Target = &'a Vec<u8>;

    type Context = &'a Vec<u8>;

    type Output = Result<Vec<u8>, CodecError>;

    /// The block enciphered under the key, or why that cannot be done; an
    /// enciphered block is one block long.
    open spec fn encode_ensures(block: &'a Vec<u8>, key: &'a Vec<u8>, output: Result<Vec<u8>, CodecError>) -> bool {
        &&& same_result(output, cipher_encoding(block@, key@))
        &&& output matches Ok(v) ==> v@.len() == BLOCK_LEN
    }

    fn encode(block: &'a Vec<u8>, key: &'a Vec<u8>) -> (output: Result<Vec<u8>, CodecError>) {
        match check_cipher_input(block, key) {
            Some(e) => Err(e),
            None => Ok(encrypt_block(key.as_slice(), block.as_slice())),
        }
    }
}

impl<'a> ContextualDecode for DesCrypto<'a> {
    type Target = &'a Vec<u8>;

    type Context = &'a Vec<u8>;

    type Output = Result<Vec<u8>, CodecError>;

    /// The block deciphered under the key, or why that cannot be done; a
    /// block enciphered under the key deciphers back to that block.
    open spec fn decode_ensures(block: &'a Vec<u8>, key: &'a Vec<u8>, output: Result<Vec<u8>, CodecError>) -> bool {
        &&& same_result(output, cipher_decoding(block@, key@))
        &&& forall|plain: Seq<u8>|
            #![trigger des_encrypt(key@, plain)]
            block@.len() == BLOCK_LEN && cipher_encoding(plain, key@) == Ok::<Seq<u8>, CodecError>(
                block@,
            ) ==> same_result(output, Ok(plain))
    }

    fn decode(block: &'a Vec<u8>, key: &'a Vec<u8>) -> (output: Result<Vec<u8>, CodecError>) {
        match check_cipher_input(block, key) {
            Some(e) => Err(e),
            None => Ok(decrypt_block(key.as_slice(), block.as_slice())),
        }
    }
}

} // verus!
