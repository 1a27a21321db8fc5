//! What can go wrong while a container is decoded.

use vstd::prelude::*;

verus! {

/// Why a container could not be decoded. No failure is recovered from: the
/// first one ends the decode.
#[derive(Clone, Copy, Debug, PartialEq, Eq, Structural)]
pub enum UnboxError {
    /// The input ends inside a region that the layout asks for.
    UnexpectedEnd,
    /// An encrypted block is no whole number of cipher blocks, or its
    /// padding is malformed.
    Decrypt,
    /// A block or a plaintext is shorter than the fixed tag in front of it.
    MissingPrefix,
    /// The metadata block holds malformed base64.
    Base64,
    /// The metadata plaintext is not UTF-8.
    Utf8,
    /// The key block holds no session key bytes.
    EmptyKey,
}

impl UnboxError {
    /// A line that names the failure.
    pub fn message(&self) -> (text: &'static str)
        ensures
            text@ == (match *self {
                UnboxError::UnexpectedEnd => "unexpected end of input"@,
                UnboxError::Decrypt => "decryption failed"@,
                UnboxError::MissingPrefix => "block shorter than its prefix"@,
                UnboxError::Base64 => "malformed base64"@,
                UnboxError::Utf8 => "metadata is not UTF-8"@,
                UnboxError::EmptyKey => "empty session key"@,
            }),
    {
        match self {
            UnboxError::UnexpectedEnd => "unexpected end of input",
            UnboxError::Decrypt => "decryption failed",
            UnboxError::MissingPrefix => "block shorter than its prefix",
            UnboxError::Base64 => "malformed base64",
            UnboxError::Utf8 => "metadata is not UTF-8",
            UnboxError::EmptyKey => "empty session key",
        }
    }
}

} // verus!
