//! Turning messages into payload bytes and back, in the format that a
//! [`Codec`] selects.
use std::marker::PhantomData;
use vstd::prelude::*;
use vstd::utf8::encode_utf8;

use super::formats::{
    bincode_deserialize, bincode_serialize, bincode_string_decoding, bincode_string_encoding,
    lemma_bincode_string_roundtrip,
    cbor_deserialize, cbor_serialize, cbor_string_decoding, cbor_string_encoding,
    json_deserialize, json_serialize, json_string_decoding, json_string_encoding,
    msgpack_deserialize, msgpack_serialize, msgpack_string_decoding, msgpack_string_encoding,
};
use super::Codec;

verus! {

/// The payload that `codec` writes for the string `s`.
pub open spec fn codec_encoding(codec: Codec, s: Seq<char>) -> Seq<u8> {
    match codec {
        Codec::Bincode => bincode_string_encoding(s),
        Codec::Json => json_string_encoding(s),
        Codec::MessagePack => msgpack_string_encoding(s),
        Codec::Cbor => cbor_string_encoding(s),
    }
}

/// The string that `codec` reads from the payload `bytes`, if any.
pub open spec fn codec_decoding(codec: Codec, bytes: Seq<u8>) -> Option<Seq<char>> {
    match codec {
        Codec::Bincode => bincode_string_decoding(bytes),
        Codec::Json => json_string_decoding(bytes),
        Codec::MessagePack => msgpack_string_decoding(bytes),
        Codec::Cbor => cbor_string_decoding(bytes),
    }
}

/// Whether the string `s` is one that `codec` reads back from its own
/// encoding: every string whose length fits the length field, which is 32
/// bits in MessagePack and 64 bits in bincode.
pub open spec fn codec_round_trips(codec: Codec, s: Seq<char>) -> bool {
    match codec {
        Codec::MessagePack => encode_utf8(s).len() < 4294967296,
        Codec::Bincode => encode_utf8(s).len() < 18446744073709551616,
        _ => true,
    }
}

/// A string whose encoding is shorter than 2^32 bytes reads back from it.
pub proof fn lemma_short_encoding_round_trips(codec: Codec, s: Seq<char>)
    requires
        codec_encoding(codec, s).len() < 4294967296,
    ensures
        codec_round_trips(codec, s),
{
    match codec {
        Codec::Bincode => {
            assert(bincode_string_encoding(s).len() >= encode_utf8(s).len());
        },
        Codec::MessagePack => {
            assert(msgpack_string_encoding(s).len() >= encode_utf8(s).len());
        },
        _ => {},
    }
}

/// Serializes messages of type `SinkItem` and deserializes messages of type
/// `Item` in the format of `codec`.
#[derive(Debug)]
pub struct CodecSerializer<Item, SinkItem> {
    codec: Codec,
    phantom: PhantomData<(Item, SinkItem)>,
}

impl<Item, SinkItem> CodecSerializer<Item, SinkItem> {
    /// The format of this serializer.
    pub closed spec fn format(&self) -> Codec {
        self.codec
    }

    /// A serializer for `codec`.
    pub fn new(codec: Codec) -> (res: Self)
        ensures
            res.format() == codec,
    {
        CodecSerializer { codec, phantom: PhantomData }
    }

    /// The format of this serializer.
    pub fn codec(&self) -> (res: Codec)
        ensures
            res == self.format(),
    {
        self.codec
    }
}

impl<Item, SinkItem> Clone for CodecSerializer<Item, SinkItem> {
    /// A serializer of the same format.
    fn clone(&self) -> (res: Self)
        ensures
            res.format() == self.format(),
    {
        CodecSerializer { codec: self.codec, phantom: PhantomData }
    }
}

impl CodecSerializer<String, String> {
    /// The payload bytes of `item`.
    pub fn serialize(&self, item: &String) -> (res: Result<Vec<u8>, std::io::Error>)
        ensures
            res matches Ok(v) && v@ == codec_encoding(self.format(), item@),
    {
        match self.codec {
            Codec::Bincode => match bincode_serialize(item) {
                Ok(v) => Ok(v),
                Err(e) => Err(e),
            },
            Codec::Json => match json_serialize(item) {
                Ok(v) => Ok(v),
                Err(e) => Err(e),
            },
            Codec::MessagePack => match msgpack_serialize(item) {
                Ok(v) => Ok(v),
                Err(e) => Err(e),
            },
            Codec::Cbor => match cbor_serialize(item) {
                Ok(v) => Ok(v),
                Err(e) => Err(e),
            },
        }
    }

    /// The message that the payload `src` holds. A payload that `serialize`
    /// wrote reads back as the message it was written for.
    pub fn deserialize(&self, src: &[u8]) -> (res: Result<String, std::io::Error>)
        ensures
            match res {
                Ok(v) => codec_decoding(self.format(), src@) == Some(v@),
                Err(_) => codec_decoding(self.format(), src@) is None,
            },
            forall|s: Seq<char>| #[trigger]
                codec_encoding(self.format(), s) == src@ && codec_round_trips(self.format(), s)
                    ==> (res matches Ok(v) && v@ == s),
    {
        match self.codec {
            Codec::Bincode => {
                assert forall|s: Seq<char>| #[trigger]
                    bincode_string_encoding(s) == src@ && encode_utf8(s).len()
                        < 18446744073709551616 implies bincode_string_decoding(src@) == Some(
                    s,
                ) by {
                    lemma_bincode_string_roundtrip(s);
                }
                match bincode_deserialize(src) {
                    Ok(v) => Ok(v),
                    Err(e) => Err(e),
                }
            },
            Codec::Json => match json_deserialize(src) {
                Ok(v) => Ok(v),
                Err(e) => Err(e),
            },
            Codec::MessagePack => match msgpack_deserialize(src) {
                Ok(v) => Ok(v),
                Err(e) => Err(e),
            },
            Codec::Cbor => match cbor_deserialize(src) {
                Ok(v) => Ok(v),
                Err(e) => Err(e),
            },
        }
    }
}

} // verus!
