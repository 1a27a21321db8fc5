//! The primitives that the decoder composes and does not define: AES-128 in
//! ECB mode with PKCS#7 padding, base64 in the standard alphabet, and the
//! UTF-8 check of the standard library. Their contracts are taken on trust.

use vstd::prelude::*;
use vstd::utf8::{decode_utf8, valid_utf8};
use aes::Aes128;
use base64::Engine;
use block_modes::block_padding::Pkcs7;
use block_modes::{BlockMode, BlockModeError, Ecb};
use crate::constants::AES_BLOCK_LEN;
use crate::error::UnboxError;

verus! {

/// The error of `block_modes`, carried through without being read.
#[verifier::external_type_specification]
#[verifier::external_body]
pub struct ExBlockModeError(block_modes::BlockModeError);

/// The error of `base64`, carried through without being read.
#[verifier::external_type_specification]
#[verifier::external_body]
pub struct ExBase64DecodeError(base64::DecodeError);

/// The error of `String::from_utf8`, carried through without being read.
#[verifier::external_type_specification]
#[verifier::external_body]
pub struct ExFromUtf8Error(std::string::FromUtf8Error);

/// What AES-128-ECB decryption with PKCS#7 unpadding makes of `ciphertext`
/// under `key`: the plaintext, or `None` where the decryption fails.
pub uninterp spec fn aes_ecb_plaintext(ciphertext: Seq<u8>, key: Seq<u8>) -> Option<Seq<u8>>;

/// What decoding in the standard base64 alphabet, with padding, makes of
/// `text`: the bytes, or `None` where the text is malformed.
pub uninterp spec fn base64_decoded(text: Seq<u8>) -> Option<Seq<u8>>;

/// Calls `BlockMode::decrypt` of `block_modes` on an `Ecb<Aes128, Pkcs7>`
/// made by `new_from_slices` with `key` and no IV. The result is a function
/// of ciphertext and key. On trust: it fails where the ciphertext is no whole
/// number of 16-byte blocks, and a plaintext is shorter than its ciphertext,
/// at least the last padding byte being removed.
#[verifier::external_body]
fn ecb_decrypt(ciphertext: Vec<u8>, key: &[u8; 16]) -> (res: Result<Vec<u8>, BlockModeError>)
    ensures
        res is Ok <==> aes_ecb_plaintext(ciphertext@, key@) is Some,
        res is Ok ==> aes_ecb_plaintext(ciphertext@, key@) == Some(res->Ok_0@),
        ciphertext@.len() % (AES_BLOCK_LEN as nat) != 0 ==> res is Err,
        res is Ok ==> res->Ok_0@.len() < ciphertext@.len(),
{
    let mut buffer = ciphertext;
    let cipher = Ecb::<Aes128, Pkcs7>::new_from_slices(key, &[]).unwrap();
    cipher.decrypt(buffer.as_mut_slice()).map(|plain| plain.to_vec())
}

/// Calls `Engine::decode` of `base64` on the engine `BASE64_STANDARD`. On
/// trust: the result is a function of the text.
#[verifier::external_body]
fn standard_base64_decode(text: &[u8]) -> (res: Result<Vec<u8>, base64::DecodeError>)
    ensures
        res is Ok <==> base64_decoded(text@) is Some,
        res is Ok ==> base64_decoded(text@) == Some(res->Ok_0@),
{
    base64::prelude::BASE64_STANDARD.decode(text)
}

/// Calls `String::from_utf8`. On trust: it succeeds exactly on valid UTF-8,
/// and the string then holds the characters that the bytes encode.
#[verifier::external_body]
fn string_from_utf8(bytes: Vec<u8>) -> (res: Result<String, std::string::FromUtf8Error>)
    ensures
        res is Ok <==> valid_utf8(bytes@),
        res is Ok ==> res->Ok_0@ == decode_utf8(bytes@),
{
    String::from_utf8(bytes)
}

/// Decrypts `ciphertext` with AES-128 in ECB mode under `key` and removes
/// the PKCS#7 padding. Fails with `Decrypt` where the ciphertext is no whole
/// number of blocks or the padding is malformed.
pub fn aes_decode(ciphertext: Vec<u8>, key: [u8; 16]) -> (res: Result<Vec<u8>, UnboxError>)
    ensures
        match res {
            Ok(plain) => aes_ecb_plaintext(ciphertext@, key@) == Some(plain@)
                && ciphertext@.len() % (AES_BLOCK_LEN as nat) == 0 && plain@.len() < ciphertext@.len(),
            Err(e) => e == UnboxError::Decrypt && aes_ecb_plaintext(ciphertext@, key@) is None,
        },
        ciphertext@.len() % (AES_BLOCK_LEN as nat) != 0 ==> res is Err,
{
    match ecb_decrypt(ciphertext, &key) {
        Ok(plain) => Ok(plain),
        Err(_) => Err(UnboxError::Decrypt),
    }
}

/// Decodes base64 text in the standard alphabet. Fails with `Base64` where
/// the text is malformed.
pub fn base64_decode(text: &[u8]) -> (res: Result<Vec<u8>, UnboxError>)
    ensures
        match res {
            Ok(bytes) => base64_decoded(text@) == Some(bytes@),
            Err(e) => e == UnboxError::Base64 && base64_decoded(text@) is None,
        },
{
    match standard_base64_decode(text) {
        Ok(bytes) => Ok(bytes),
        Err(_) => Err(UnboxError::Base64),
    }
}

/// Reads bytes as UTF-8 text. Fails with `Utf8` where they are not UTF-8.
pub fn utf8_text(bytes: Vec<u8>) -> (res: Result<String, UnboxError>)
    ensures
        match res {
            Ok(text) => valid_utf8(bytes@) && text@ == decode_utf8(bytes@),
            Err(e) => e == UnboxError::Utf8 && !valid_utf8(bytes@),
        },
{
    match string_from_utf8(bytes) {
        Ok(text) => Ok(text),
        Err(_) => Err(UnboxError::Utf8),
    }
}

} // verus!
