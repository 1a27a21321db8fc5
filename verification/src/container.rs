//! The container's layout, read front to back: a fixed header, the key
//! block, the metadata block with its trailer, the image block, and the
//! audio payload to the end of the input.

use vstd::prelude::*;
use vstd::utf8::{decode_utf8, valid_utf8};
use vstd::slice::slice_subrange;
use crate::cipher::{
    lemma_payload_round_trip, lemma_xor_twice, music_data, scheduled_table, xor_payload,
};
use crate::constants::{
    AES_BLOCK_LEN, CODE_KEY, HEADER_LEN, KEY_MASK, KEY_PREFIX_LEN, LENGTH_FIELD_LEN,
    META_BLOCK_PREFIX_LEN, META_KEY, META_MASK, META_TEXT_PREFIX_LEN, META_TRAILER_LEN,
};
use crate::error::UnboxError;
use crate::primitives::{aes_decode, aes_ecb_plaintext, base64_decode, base64_decoded, utf8_text};

verus! {

/// The number that four bytes hold, least significant byte first.
pub open spec fn le_u32(bytes: Seq<u8>) -> int {
    bytes[0] + bytes[1] * 0x100 + bytes[2] * 0x1_0000 + bytes[3] * 0x100_0000
}

/// `block` with every byte XOR-ed with `mask`.
pub open spec fn unmask(block: Seq<u8>, mask: u8) -> Seq<u8> {
    Seq::new(block.len(), |i: int| block[i] ^ mask)
}

/// The length-prefixed block that starts at `pos`, and the position behind
/// it; `None` where the input ends before the block does.
pub open spec fn block_at(data: Seq<u8>, pos: int) -> Option<(Seq<u8>, int)> {
    if pos + LENGTH_FIELD_LEN > data.len() {
        None
    } else {
        let start = pos + LENGTH_FIELD_LEN;
        let len = le_u32(data.subrange(pos, start));
        if start + len > data.len() {
            None
        } else {
            Some((data.subrange(start, start + len), start + len))
        }
    }
}

/// The session key inside a decrypted key block: what follows the tag.
pub open spec fn session_key_in(plain: Seq<u8>) -> Result<Seq<u8>, UnboxError> {
    if plain.len() < KEY_PREFIX_LEN {
        Err(UnboxError::MissingPrefix)
    } else {
        Ok(plain.skip(KEY_PREFIX_LEN as int))
    }
}

/// The session key that a key block, as stored, stands for.
pub open spec fn session_key_of(block: Seq<u8>) -> Result<Seq<u8>, UnboxError> {
    match aes_ecb_plaintext(unmask(block, KEY_MASK), CODE_KEY@) {
        None => Err(UnboxError::Decrypt),
        Some(plain) => session_key_in(plain),
    }
}

/// The JSON text inside decrypted metadata: what follows the tag, as UTF-8.
pub open spec fn metadata_text_in(plain: Seq<u8>) -> Result<Seq<char>, UnboxError> {
    if plain.len() < META_TEXT_PREFIX_LEN {
        Err(UnboxError::MissingPrefix)
    } else if !valid_utf8(plain.skip(META_TEXT_PREFIX_LEN as int)) {
        Err(UnboxError::Utf8)
    } else {
        Ok(decode_utf8(plain.skip(META_TEXT_PREFIX_LEN as int)))
    }
}

/// The JSON text that a metadata block, as stored, stands for.
pub open spec fn metadata_text_of(block: Seq<u8>) -> Result<Seq<char>, UnboxError> {
    let clear = unmask(block, META_MASK);
    if clear.len() < META_BLOCK_PREFIX_LEN {
        Err(UnboxError::MissingPrefix)
    } else {
        match base64_decoded(clear.skip(META_BLOCK_PREFIX_LEN as int)) {
            None => Err(UnboxError::Base64),
            Some(ciphertext) => match aes_ecb_plaintext(ciphertext, META_KEY@) {
                None => Err(UnboxError::Decrypt),
                Some(plain) => metadata_text_in(plain),
            },
        }
    }
}

/// Reads a block length: four bytes, least significant first.
pub fn get_length(bytes: &[u8; 4]) -> (len: u32)
    ensures
        len == le_u32(bytes@),
{
    let b0: u32 = bytes[0] as u32;
    let b1: u32 = bytes[1] as u32;
    let b2: u32 = bytes[2] as u32;
    let b3: u32 = bytes[3] as u32;
    let len: u32 = b0 | (b1 << 8) | (b2 << 16) | (b3 << 24);
    assert(len == b0 + b1 * 0x100 + b2 * 0x1_0000 + b3 * 0x100_0000) by (bit_vector)
        requires
            b0 < 256,
            b1 < 256,
            b2 < 256,
            b3 < 256,
            len == b0 | (b1 << 8) | (b2 << 16) | (b3 << 24),
    ;
    len
}

/// XORs every byte of `block` with `mask`.
pub fn unmask_block(block: &mut Vec<u8>, mask: u8)
    ensures
        final(block)@ == unmask(old(block)@, mask),
{
    let n: usize = block.len();
    let mut i: usize = 0;
    while i < n
        invariant
            i <= n,
            n == block@.len(),
            n == old(block)@.len(),
            forall|m: int| 0 <= m < i ==> block@[m] == old(block)@[m] ^ mask,
            forall|m: int| i <= m < n ==> block@[m] == old(block)@[m],
        decreases n - i,
    {
        let byte: u8 = block[i];
        block.set(i, byte ^ mask);
        i += 1;
    }
    assert(block@ =~= unmask(old(block)@, mask));
}

/// Copies `data[from..to]`.
pub fn copy_range(data: &[u8], from: usize, to: usize) -> (out: Vec<u8>)
    requires
        from <= to <= data@.len(),
    ensures
        out@ == data@.subrange(from as int, to as int),
{
    let mut out: Vec<u8> = Vec::new();
    let mut i: usize = from;
    while i < to
        invariant
            from <= i <= to <= data@.len(),
            out@ == data@.subrange(from as int, i as int),
        decreases to - i,
    {
        out.push(data[i]);
        i += 1;
    }
    out
}

/// Skips the header that starts at `pos` and gives the position behind it.
/// Fails with `UnexpectedEnd` where the input ends inside the header.
pub fn magic_header(data: &[u8], pos: usize) -> (res: Result<usize, UnboxError>)
    ensures
        match res {
            Ok(next) => next == pos + HEADER_LEN && next <= data@.len(),
            Err(e) => e == UnboxError::UnexpectedEnd && pos + HEADER_LEN > data@.len(),
        },
{
    if pos > data.len() || data.len() - pos < HEADER_LEN {
        Err(UnboxError::UnexpectedEnd)
    } else {
        Ok(pos + HEADER_LEN)
    }
}

/// Reads the length-prefixed block at `pos`: its bytes, as stored, and the
/// position behind it. Fails with `UnexpectedEnd` where the input ends
/// before the block does.
pub fn read_block(data: &[u8], pos: usize) -> (res: Result<(Vec<u8>, usize), UnboxError>)
    ensures
        match res {
            Ok((block, next)) => block_at(data@, pos as int) == Some((block@, next as int))
                && next <= data@.len(),
            Err(e) => e == UnboxError::UnexpectedEnd && block_at(data@, pos as int) is None,
        },
{
    if pos > data.len() || data.len() - pos < LENGTH_FIELD_LEN {
        return Err(UnboxError::UnexpectedEnd);
    }
    let field: [u8; 4] = [data[pos], data[pos + 1], data[pos + 2], data[pos + 3]];
    assert(field@ =~= data@.subrange(pos as int, pos + LENGTH_FIELD_LEN));
    let len: usize = get_length(&field) as usize;
    let start: usize = pos + LENGTH_FIELD_LEN;
    if data.len() - start < len {
        return Err(UnboxError::UnexpectedEnd);
    }
    let block = copy_range(data, start, start + len);
    Ok((block, start + len))
}

/// Takes the session key out of a decrypted key block: drops the tag in
/// front of it. Fails with `MissingPrefix` where the plaintext is shorter
/// than the tag.
pub fn session_key_from_plaintext(plain: Vec<u8>) -> (res: Result<Vec<u8>, UnboxError>)
    ensures
        match res {
            Ok(key) => session_key_in(plain@) == Ok::<Seq<u8>, UnboxError>(key@),
            Err(e) => session_key_in(plain@) == Err::<Seq<u8>, UnboxError>(e),
        },
{
    if plain.len() < KEY_PREFIX_LEN {
        return Err(UnboxError::MissingPrefix);
    }
    let key = copy_range(plain.as_slice(), KEY_PREFIX_LEN, plain.len());
    Ok(key)
}

/// Takes the JSON text out of decrypted metadata: drops the tag in front of
/// it and reads the rest as UTF-8. Fails with `MissingPrefix` where the
/// plaintext is shorter than the tag, else with `Utf8` where the rest is not
/// UTF-8.
pub fn metadata_text_from_plaintext(plain: Vec<u8>) -> (res: Result<String, UnboxError>)
    ensures
        match res {
            Ok(text) => metadata_text_in(plain@) == Ok::<Seq<char>, UnboxError>(text@),
            Err(e) => metadata_text_in(plain@) == Err::<Seq<char>, UnboxError>(e),
        },
{
    if plain.len() < META_TEXT_PREFIX_LEN {
        return Err(UnboxError::MissingPrefix);
    }
    let body = copy_range(plain.as_slice(), META_TEXT_PREFIX_LEN, plain.len());
    utf8_text(body)
}

/// Unwraps a key block: removes the obfuscation, decrypts under the format's
/// key for key blocks, and drops the tag. Fails with `Decrypt` where the
/// decryption fails, else with `MissingPrefix`.
pub fn unwrap_session_key(block: Vec<u8>) -> (res: Result<Vec<u8>, UnboxError>)
    ensures
        match res {
            Ok(key) => session_key_of(block@) == Ok::<Seq<u8>, UnboxError>(key@),
            Err(e) => session_key_of(block@) == Err::<Seq<u8>, UnboxError>(e),
        },
        block@.len() % (AES_BLOCK_LEN as nat) != 0 ==> res == Err::<Vec<u8>, UnboxError>(
            UnboxError::Decrypt,
        ),
{
    let mut buffer = block;
    unmask_block(&mut buffer, KEY_MASK);
    match aes_decode(buffer, CODE_KEY) {
        Err(e) => Err(e),
        Ok(plain) => session_key_from_plaintext(plain),
    }
}

/// Unwraps a metadata block: removes the obfuscation, drops the tag,
/// decodes the base64 text, decrypts under the format's key for metadata,
/// drops the second tag and reads the rest as UTF-8. The first step that
/// fails gives the error.
pub fn unwrap_metadata_text(block: Vec<u8>) -> (res: Result<String, UnboxError>)
    ensures
        match res {
            Ok(text) => metadata_text_of(block@) == Ok::<Seq<char>, UnboxError>(text@),
            Err(e) => metadata_text_of(block@) == Err::<Seq<char>, UnboxError>(e),
        },
        block@.len() < META_BLOCK_PREFIX_LEN ==> res == Err::<String, UnboxError>(
            UnboxError::MissingPrefix,
        ),
{
    let mut buffer = block;
    unmask_block(&mut buffer, META_MASK);
    if buffer.len() < META_BLOCK_PREFIX_LEN {
        return Err(UnboxError::MissingPrefix);
    }
    let text = copy_range(buffer.as_slice(), META_BLOCK_PREFIX_LEN, buffer.len());
    let ciphertext = match base64_decode(text.as_slice()) {
        Err(e) => { return Err(e); },
        Ok(bytes) => bytes,
    };
    match aes_decode(ciphertext, META_KEY) {
        Err(e) => Err(e),
        Ok(plain) => metadata_text_from_plaintext(plain),
    }
}

/// The key block at `pos`, unwrapped, and the position behind it.
pub open spec fn key_region(data: Seq<u8>, pos: int) -> Result<(Seq<u8>, int), UnboxError> {
    match block_at(data, pos) {
        None => Err(UnboxError::UnexpectedEnd),
        Some((block, next)) => match session_key_of(block) {
            Err(e) => Err(e),
            Ok(key) => Ok((key, next)),
        },
    }
}

/// The metadata block at `pos`, unwrapped, and the position behind its
/// trailer.
pub open spec fn metadata_region(data: Seq<u8>, pos: int) -> Result<(Seq<char>, int), UnboxError> {
    match block_at(data, pos) {
        None => Err(UnboxError::UnexpectedEnd),
        Some((block, next)) => if next + META_TRAILER_LEN > data.len() {
            Err(UnboxError::UnexpectedEnd)
        } else {
            match metadata_text_of(block) {
                Err(e) => Err(e),
                Ok(text) => Ok((text, next + META_TRAILER_LEN)),
            }
        },
    }
}

/// Reads the key block at `pos` and unwraps the session key.
pub fn cr4key(data: &[u8], pos: usize) -> (res: Result<(Vec<u8>, usize), UnboxError>)
    ensures
        match res {
            Ok((key, next)) => key_region(data@, pos as int) == Ok::<(Seq<u8>, int), UnboxError>(
                (key@, next as int),
            ) && next <= data@.len(),
            Err(e) => key_region(data@, pos as int) == Err::<(Seq<u8>, int), UnboxError>(e),
        },
{
    let (block, next) = match read_block(data, pos) {
        Err(e) => { return Err(e); },
        Ok(found) => found,
    };
    match unwrap_session_key(block) {
        Err(e) => Err(e),
        Ok(key) => Ok((key, next)),
    }
}

/// Reads the metadata block at `pos`, skips its trailer and unwraps the
/// JSON text.
pub fn meta_data(data: &[u8], pos: usize) -> (res: Result<(String, usize), UnboxError>)
    ensures
        match res {
            Ok((text, next)) => metadata_region(data@, pos as int) == Ok::<
                (Seq<char>, int),
                UnboxError,
            >((text@, next as int)) && next <= data@.len(),
            Err(e) => metadata_region(data@, pos as int) == Err::<(Seq<char>, int), UnboxError>(e),
        },
{
    let (block, next) = match read_block(data, pos) {
        Err(e) => { return Err(e); },
        Ok(found) => found,
    };
    if data.len() - next < META_TRAILER_LEN {
        return Err(UnboxError::UnexpectedEnd);
    }
    match unwrap_metadata_text(block) {
        Err(e) => Err(e),
        Ok(text) => Ok((text, next + META_TRAILER_LEN)),
    }
}

/// Reads the image block at `pos`: the cover image, stored as it is.
pub fn album_image(data: &[u8], pos: usize) -> (res: Result<(Vec<u8>, usize), UnboxError>)
    ensures
        match res {
            Ok((image, next)) => block_at(data@, pos as int) == Some((image@, next as int))
                && next <= data@.len(),
            Err(e) => e == UnboxError::UnexpectedEnd && block_at(data@, pos as int) is None,
        },
{
    read_block(data, pos)
}

/// What a container decodes to: the metadata as JSON text, the cover image,
/// and the audio in the clear.
pub struct Unboxed {
    pub meta_json: String,
    pub image: Vec<u8>,
    pub audio: Vec<u8>,
}

/// An `Unboxed` as plain sequences.
pub struct UnboxedView {
    pub meta_json: Seq<char>,
    pub image: Seq<u8>,
    pub audio: Seq<u8>,
}

impl View for Unboxed {
    type V = UnboxedView;

    open spec fn view(&self) -> UnboxedView {
        UnboxedView { meta_json: self.meta_json@, image: self.image@, audio: self.audio@ }
    }
}

/// The audio payload that starts at `pos`, decrypted under `key`. The
/// payload runs to the end of the input.
pub open spec fn audio_region(data: Seq<u8>, pos: int, key: Seq<u8>) -> Seq<u8> {
    xor_payload(scheduled_table(key), data.skip(pos))
}

/// What a whole container decodes to. The regions are read in their fixed
/// order, and the first one that fails gives the error; a key block that
/// unwraps to an empty session key is refused once the image has been read.
pub open spec fn unboxed_of(data: Seq<u8>) -> Result<UnboxedView, UnboxError> {
    if data.len() < HEADER_LEN {
        Err(UnboxError::UnexpectedEnd)
    } else {
        match key_region(data, HEADER_LEN as int) {
            Err(e) => Err(e),
            Ok((key, after_key)) => match metadata_region(data, after_key) {
                Err(e) => Err(e),
                Ok((text, after_meta)) => match block_at(data, after_meta) {
                    None => Err(UnboxError::UnexpectedEnd),
                    Some((image, after_image)) => if key.len() == 0 {
                        Err(UnboxError::EmptyKey)
                    } else {
                        Ok(
                            UnboxedView {
                                meta_json: text,
                                image: image,
                                audio: audio_region(data, after_image, key),
                            },
                        )
                    },
                },
            },
        }
    }
}

/// Decodes a whole container held in memory: header, session key, metadata
/// text, cover image, and the audio payload decrypted under the session key.
pub fn unboxing(data: &[u8]) -> (res: Result<Unboxed, UnboxError>)
    ensures
        match res {
            Ok(unboxed) => unboxed_of(data@) == Ok::<UnboxedView, UnboxError>(unboxed@),
            Err(e) => unboxed_of(data@) == Err::<UnboxedView, UnboxError>(e),
        },
{
    let start: usize = match magic_header(data, 0) {
        Err(e) => { return Err(e); },
        Ok(next) => next,
    };
    let (key, after_key) = match cr4key(data, start) {
        Err(e) => { return Err(e); },
        Ok(found) => found,
    };
    let (meta_json, after_meta) = match meta_data(data, after_key) {
        Err(e) => { return Err(e); },
        Ok(found) => found,
    };
    let (image, after_image) = match album_image(data, after_meta) {
        Err(e) => { return Err(e); },
        Ok(found) => found,
    };
    if key.len() == 0 {
        return Err(UnboxError::EmptyKey);
    }
    let payload = slice_subrange(data, after_image, data.len());
    assert(payload@ =~= data@.skip(after_image as int));
    let audio = music_data(payload, key);
    Ok(Unboxed { meta_json, image, audio })
}

/// Removing the obfuscation twice with the same byte gives the block back.
pub proof fn lemma_unmask_twice(block: Seq<u8>, mask: u8)
    ensures
        unmask(unmask(block, mask), mask) == block,
{
    let twice = unmask(unmask(block, mask), mask);
    assert forall|i: int| 0 <= i < block.len() implies twice[i] == block[i] by {
        lemma_xor_twice(block[i], mask);
    }
    assert(twice =~= block);
}

/// A container whose audio payload was encrypted with the stream cipher
/// under a session key decodes to that audio: the cipher undoes itself.
pub proof fn lemma_audio_round_trip(plain: Seq<u8>, key: Seq<u8>)
    ensures
        audio_region(xor_payload(scheduled_table(key), plain), 0, key) == plain,
{
    let table = scheduled_table(key);
    let stored = xor_payload(table, plain);
    assert(stored.skip(0) =~= stored);
    lemma_payload_round_trip(table, plain);
}

} // verus!
