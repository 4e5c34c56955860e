//! Message streams: each message is serialized in the format of a
//! [`Codec`] and sent as one length-delimited frame.
use std::marker::PhantomData;
use vstd::prelude::*;

use super::builder::{frame_decoding, frame_encoding, lemma_frame_roundtrip, LengthDelimitedCodec, MAX_FRAME_LENGTH};
use super::serializer::{
    codec_decoding, codec_encoding, lemma_short_encoding_round_trips,
    CodecSerializer,
};
use super::formats::lemma_bincode_string_roundtrip;
use super::wire::lemma_be_bytes_len;
use super::{Codec, CodecError};

verus! {

/// The codec of a stream of `Req` requests and `Res` responses.
#[derive(Debug)]
pub struct SerdeCodec<Req, Res> {
    _phantom: PhantomData<(Req, Res)>,
    codec: Codec,
}

impl<Req, Res> SerdeCodec<Req, Res> {
    /// The format of the messages.
    pub closed spec fn format(&self) -> Codec {
        self.codec
    }

    /// A codec whose messages are in the format of `codec`.
    pub fn new(codec: Codec) -> (res: Self)
        ensures
            res.format() == codec,
    {
        Self { codec, _phantom: PhantomData }
    }

    /// The format of the messages.
    pub fn codec(&self) -> (res: Codec)
        ensures
            res == self.format(),
    {
        self.codec
    }

    /// The serializer of the server side, which reads requests and writes
    /// responses.
    pub fn server_serializer(&self) -> (res: CodecSerializer<Req, Res>)
        ensures
            res.format() == self.format(),
    {
        CodecSerializer::new(self.codec)
    }

    /// The serializer of the client side, which reads responses and writes
    /// requests.
    pub fn client_serializer(&self) -> (res: CodecSerializer<Res, Req>)
        ensures
            res.format() == self.format(),
    {
        CodecSerializer::new(self.codec)
    }
}

impl<Req, Res> Clone for SerdeCodec<Req, Res> {
    /// A codec of the same format.
    fn clone(&self) -> (res: Self)
        ensures
            res.format() == self.format(),
    {
        SerdeCodec { _phantom: PhantomData, codec: self.codec }
    }
}

/// The bytes on the wire of the message `m` in the format `codec`: one frame
/// whose payload is the message's encoding.
pub open spec fn message_encoding(codec: Codec, m: Seq<char>) -> Seq<u8> {
    frame_encoding(codec_encoding(codec, m))
}

/// In bincode, the bytes on the wire of a message whose encoding fits in a
/// frame read back, whatever follows them, as one frame that holds the
/// message's encoding, and that encoding reads back as the message.
pub proof fn lemma_bincode_message_roundtrip(m: Seq<char>, rest: Seq<u8>)
    requires
        codec_encoding(Codec::Bincode, m).len() <= MAX_FRAME_LENGTH,
    ensures
        frame_decoding(message_encoding(Codec::Bincode, m) + rest) == Ok::<
            Option<(Seq<u8>, nat)>,
            (),
        >(Some((codec_encoding(Codec::Bincode, m), message_encoding(Codec::Bincode, m).len()))),
        codec_decoding(Codec::Bincode, codec_encoding(Codec::Bincode, m)) == Some(m),
{
    let payload = codec_encoding(Codec::Bincode, m);
    lemma_frame_roundtrip(payload, rest);
    lemma_be_bytes_len(payload.len(), 4);
    lemma_short_encoding_round_trips(Codec::Bincode, m);
    lemma_bincode_string_roundtrip(m);
}

impl SerdeCodec<String, String> {
    /// The bytes to send for the message `item`: its encoding, framed.
    pub fn encode_message(&self, item: &String) -> (res: Result<Vec<u8>, CodecError>)
        ensures
            res is Ok <==> codec_encoding(self.format(), item@).len() <= MAX_FRAME_LENGTH,
            res matches Ok(v) ==> v@ == message_encoding(self.format(), item@),
            res matches Err(e) ==> e == CodecError::PayloadTooLarge,
    {
        let serializer: CodecSerializer<String, String> = CodecSerializer::new(self.codec);
        let payload = match serializer.serialize(item) {
            Ok(p) => p,
            Err(e) => {
                return Err(CodecError::Encode(e));
            },
        };
        let frames = LengthDelimitedCodec;
        frames.encode_frame(payload.as_slice())
    }

    /// Reads one message from the start of `buf`: `Ok(None)` while the
    /// frame is incomplete, otherwise the message and the number of bytes
    /// its frame occupies. The bytes that `encode_message` wrote for a
    /// message read back as that message, whatever follows them.
    pub fn decode_message(&self, buf: &[u8]) -> (res: Result<Option<(String, usize)>, CodecError>)
        ensures
            match frame_decoding(buf@) {
                Err(()) => res == Err::<Option<(String, usize)>, CodecError>(
                    CodecError::DeclaredLengthTooLarge,
                ),
                Ok(None) => res matches Ok(None),
                Ok(Some((p, c))) => match codec_decoding(self.format(), p) {
                    Some(s) => res matches Ok(Some((v, n))) && v@ == s && n == c,
                    None => res matches Err(CodecError::Decode(_)),
                },
            },
            forall|m: Seq<char>, rest: Seq<u8>|
                buf@ == #[trigger] (message_encoding(self.format(), m) + rest) && codec_encoding(
                    self.format(),
                    m,
                ).len() <= MAX_FRAME_LENGTH ==> (res matches Ok(
                    Some((v, n)),
                ) && v@ == m && n == message_encoding(self.format(), m).len()),
    {
        let frames = LengthDelimitedCodec;
        let decoded = frames.decode_frame(buf);
        assert forall|m: Seq<char>, rest: Seq<u8>|
            buf@ == #[trigger] (message_encoding(self.format(), m) + rest) && codec_encoding(
                self.format(),
                m,
            ).len() <= MAX_FRAME_LENGTH implies frame_decoding(buf@) == Ok::<
            Option<(Seq<u8>, nat)>,
            (),
        >(
            Some(
                (
                    codec_encoding(self.format(), m),
                    message_encoding(self.format(), m).len(),
                ),
            ),
        ) by {
            lemma_frame_roundtrip(codec_encoding(self.format(), m), rest);
            lemma_be_bytes_len(codec_encoding(self.format(), m).len(), 4);
            lemma_short_encoding_round_trips(self.format(), m);
        }
        match decoded {
            Err(e) => Err(e),
            Ok(None) => Ok(None),
            Ok(Some((payload, consumed))) => {
                let serializer: CodecSerializer<String, String> = CodecSerializer::new(self.codec);
                match serializer.deserialize(payload.as_slice()) {
                    Ok(v) => Ok(Some((v, consumed))),
                    Err(e) => Err(CodecError::Decode(e)),
                }
            },
        }
    }
}

} // verus!
