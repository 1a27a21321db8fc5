//! Constants of the container format. None of them varies per file.

use vstd::prelude::*;

verus! {

/// Length of the magic and version prefix at the start of a container.
pub const HEADER_LEN: usize = 10;

/// Width of every block length field.
pub const LENGTH_FIELD_LEN: usize = 4;

/// Obfuscation byte of the key block.
pub const KEY_MASK: u8 = 0x64;

/// Obfuscation byte of the metadata block.
pub const META_MASK: u8 = 0x63;

/// Length of the tag in front of the session key inside the decrypted key block.
pub const KEY_PREFIX_LEN: usize = 17;

/// Length of the tag in front of the base64 text inside the metadata block.
pub const META_BLOCK_PREFIX_LEN: usize = 22;

/// Length of the tag in front of the JSON text inside the decrypted metadata.
pub const META_TEXT_PREFIX_LEN: usize = 6;

/// Length of the unused trailer behind the metadata block.
pub const META_TRAILER_LEN: usize = 9;

/// Size of the chunks in which the audio payload is decrypted.
pub const CHUNK_LEN: usize = 0x8000;

/// Number of entries of the stream cipher's table, and the period of its
/// keystream.
pub const TABLE_LEN: usize = 256;

/// Block size of the cipher that wraps the key and the metadata.
pub const AES_BLOCK_LEN: usize = 16;

/// AES key under which the key block is encrypted.
pub const CODE_KEY: [u8; 16] = [
    0x68, 0x7A, 0x48, 0x52, 0x41, 0x6D, 0x73, 0x6F,
    0x35, 0x6B, 0x49, 0x6E, 0x62, 0x61, 0x78, 0x57,
];

/// AES key under which the metadata block is encrypted.
pub const META_KEY: [u8; 16] = [
    0x23, 0x31, 0x34, 0x6C, 0x6A, 0x6B, 0x5F, 0x21,
    0x5C, 0x5D, 0x26, 0x30, 0x55, 0x3C, 0x27, 0x28,
];

/// Length of the signature that marks a PNG image.
pub const PNG_SIGNATURE_LEN: usize = 8;

/// The signature that marks a PNG image.
pub const PNG_SIGNATURE: [u8; 8] = [0x89, 0x50, 0x4E, 0x47, 0x0D, 0x0A, 0x1A, 0x0A];

} // verus!
