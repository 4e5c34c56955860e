//! Message codecs: the length-delimited frame format and the string
//! encodings selected by [`Codec`].
use vstd::prelude::*;

pub mod builder;
pub mod formats;
pub mod serde;
pub mod serializer;
pub mod wire;

pub use self::builder::{codec_builder_fn, CodecBuilder, CodecBuilderFn, LengthDelimitedCodec};
pub use self::serde::SerdeCodec;
pub use self::serializer::CodecSerializer;

verus! {

/// The serialization format used for the messages of a stream.
#[derive(Clone, Copy, Debug, PartialEq, Eq, Structural)]
pub enum Codec {
    Bincode,
    Json,
    MessagePack,
    Cbor,
}

/// Why encoding or decoding a message failed.
#[derive(Debug)]
pub enum CodecError {
    /// The payload is longer than the largest frame the codec writes.
    PayloadTooLarge,
    /// A frame header announces a payload longer than the largest frame the
    /// codec accepts.
    DeclaredLengthTooLarge,
    /// The serialization format could not write the message; its error.
    Encode(std::io::Error),
    /// The payload of a frame is not a valid encoding of a message; the
    /// serialization format's error.
    Decode(std::io::Error),
}

} // verus!
