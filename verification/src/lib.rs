//! Decoder for an encrypted audio container: the block layout, the two key
//! layers, the stream cipher of the audio payload and the values that end up
//! in the tags of the decoded file.

pub mod cipher;
pub mod constants;
pub mod error;
pub mod primitives;
pub mod container;
pub mod meta;
pub mod paths;
