//! Codec builders, and the length-delimited frame format that every codec
//! stream of this library speaks on the wire.
use std::marker::PhantomData;
use vstd::prelude::*;

use super::formats::IoError;
use super::wire::{be_bytes, be_value, byte_range, lemma_be_bytes_len, lemma_be_roundtrip};
use super::CodecError;

verus! {

/// Builds the codec stream of one accepted connection.
///
/// `accepts` says which connections the builder takes, `builds` relates a
/// connection to the codec stream built for it.
pub trait CodecBuilder {
    type Io;
    type Output;

    spec fn accepts(&self, incoming: Self::Io) -> bool;

    spec fn builds(&self, incoming: Self::Io, codec: Self::Output) -> bool;

    fn build_codec(&self, incoming: Self::Io) -> (codec: Self::Output)
        requires
            self.accepts(incoming),
        ensures
            self.builds(incoming, codec),
    ;
}

/// A [`CodecBuilder`] made from a closure.
#[verifier::reject_recursive_types(I)]
#[verifier::reject_recursive_types(O)]
pub struct CodecBuilderFn<F, I, O> where F: Fn(I) -> O {
    f: F,
    _phantom: PhantomData<(I, O)>,
}

impl<F, I, O> CodecBuilderFn<F, I, O> where F: Fn(I) -> O {
    /// The closure that builds the codecs.
    pub closed spec fn builder(&self) -> F {
        self.f
    }
}

/// Wraps `f` as a [`CodecBuilder`]: each connection's codec is what `f`
/// returns for it.
pub fn codec_builder_fn<F, I, O>(f: F) -> (builder: CodecBuilderFn<F, I, O>) where F: Fn(I) -> O
    ensures
        builder.builder() == f,
{
    CodecBuilderFn { f, _phantom: PhantomData }
}

impl<F, I, O> CodecBuilder for CodecBuilderFn<F, I, O> where F: Fn(I) -> O {
    type Io = I;

    type Output = O;

    open spec fn accepts(&self, incoming: I) -> bool {
        call_requires(self.builder(), (incoming,))
    }

    open spec fn builds(&self, incoming: I, codec: O) -> bool {
        call_ensures(self.builder(), (incoming,), codec)
    }

    fn build_codec(&self, incoming: I) -> (codec: O) {
        (self.f)(incoming)
    }
}

/// The largest payload that a frame carries: 8 MiB.
pub const MAX_FRAME_LENGTH: usize = 8388608;

/// A frame: the payload's length as a 4-byte big-endian number, then the
/// payload.
pub open spec fn frame_encoding(payload: Seq<u8>) -> Seq<u8> {
    be_bytes(payload.len(), 4) + payload
}

/// What reading one frame from the start of `buf` gives: `Err(())` when the
/// header announces more than [`MAX_FRAME_LENGTH`] bytes, `Ok(None)` while
/// the header or the payload is incomplete, and otherwise the payload and
/// the number of bytes the frame occupies.
pub open spec fn frame_decoding(buf: Seq<u8>) -> Result<Option<(Seq<u8>, nat)>, ()> {
    if buf.len() < 4 {
        Ok(None)
    } else {
        let n = be_value(buf.subrange(0, 4));
        if n > MAX_FRAME_LENGTH {
            Err(())
        } else if buf.len() < 4 + n {
            Ok(None)
        } else {
            Ok(Some((buf.subrange(4, 4 + n as int), (4 + n) as nat)))
        }
    }
}

/// Calls the `Encoder<&[u8]>` impl of `tokio_util::codec::LengthDelimitedCodec`,
/// in its default configuration, on an empty buffer. Its source writes the
/// payload's length as 4 big-endian bytes and then the payload, and fails
/// exactly when the payload is longer than 8 MiB.
#[verifier::external_body]
fn length_delimited_encode(payload: &[u8]) -> (res: Result<Vec<u8>, IoError>)
    ensures
        match res {
            Ok(v) => payload@.len() <= MAX_FRAME_LENGTH && v@ == frame_encoding(payload@),
            Err(_) => payload@.len() > MAX_FRAME_LENGTH,
        },
{
    let mut codec = tokio_util::codec::LengthDelimitedCodec::new();
    let mut dst = bytes::BytesMut::new();
    match tokio_util::codec::Encoder::<&[u8]>::encode(&mut codec, payload, &mut dst) {
        Ok(()) => Ok(dst.to_vec()),
        Err(e) => Err(e),
    }
}

/// Calls the `Decoder` impl of `tokio_util::codec::LengthDelimitedCodec`, in
/// its default configuration and fresh decoding state, once on a buffer
/// holding `buf`. Its source returns an error when the 4-byte big-endian
/// header announces more than 8 MiB, `None` while the header or the payload
/// is incomplete, and otherwise splits the payload off the buffer. The second
/// part of the result is what is left in the buffer after the frame.
#[verifier::external_body]
fn length_delimited_decode(buf: &[u8]) -> (res: Result<Option<(Vec<u8>, usize)>, IoError>)
    ensures
        match frame_decoding(buf@) {
            Err(()) => res is Err,
            Ok(None) => res matches Ok(None),
            Ok(Some((p, c))) => res matches Ok(Some((v, left))) && v@ == p && left + c
                == buf@.len(),
        },
{
    let mut codec = tokio_util::codec::LengthDelimitedCodec::new();
    let mut src = bytes::BytesMut::from(buf);
    match tokio_util::codec::Decoder::decode(&mut codec, &mut src) {
        Ok(Some(frame)) => Ok(Some((frame.to_vec(), src.len()))),
        Ok(None) => Ok(None),
        Err(e) => Err(e),
    }
}

/// Frames raw byte messages with a 4-byte big-endian length prefix.
pub struct LengthDelimitedCodec;

impl LengthDelimitedCodec {
    /// Writes `payload` as one frame.
    pub fn encode_frame(&self, payload: &[u8]) -> (res: Result<Vec<u8>, CodecError>)
        ensures
            res is Ok <==> payload@.len() <= MAX_FRAME_LENGTH,
            res matches Ok(v) ==> v@ == frame_encoding(payload@),
            res matches Err(e) ==> e == CodecError::PayloadTooLarge,
    {
        match length_delimited_encode(payload) {
            Ok(v) => Ok(v),
            Err(_) => Err(CodecError::PayloadTooLarge),
        }
    }

    /// Reads one frame from the start of `buf`: `Ok(None)` when more bytes
    /// are needed, otherwise the payload and the number of bytes the frame
    /// occupies.
    pub fn decode_frame(&self, buf: &[u8]) -> (res: Result<Option<(Vec<u8>, usize)>, CodecError>)
        ensures
            match frame_decoding(buf@) {
                Err(()) => res == Err::<Option<(Vec<u8>, usize)>, CodecError>(
                    CodecError::DeclaredLengthTooLarge,
                ),
                Ok(None) => res matches Ok(None),
                Ok(Some((p, c))) => res matches Ok(Some((v, n))) && v@ == p && n == c,
            },
    {
        match length_delimited_decode(buf) {
            Ok(Some((frame, left))) => {
                let consumed = buf.len() - left;
                Ok(Some((frame, consumed)))
            },
            Ok(None) => Ok(None),
            Err(_) => Err(CodecError::DeclaredLengthTooLarge),
        }
    }
}

/// A frame written by `encode_frame` reads back, by `decode_frame`, as its
/// payload, whatever bytes follow it.
pub proof fn lemma_frame_roundtrip(payload: Seq<u8>, rest: Seq<u8>)
    requires
        payload.len() <= MAX_FRAME_LENGTH,
    ensures
        frame_decoding(frame_encoding(payload) + rest) == Ok::<Option<(Seq<u8>, nat)>, ()>(
            Some((payload, (4 + payload.len()) as nat)),
        ),
{
    let n = payload.len();
    let buf = frame_encoding(payload) + rest;
    lemma_be_bytes_len(n, 4);
    assert(byte_range(4) == 4294967296) by {
        reveal_with_fuel(byte_range, 5);
    }
    lemma_be_roundtrip(n, 4);
    assert(buf.subrange(0, 4) =~= be_bytes(n, 4));
    assert(buf.subrange(4, 4 + n as int) =~= payload);
}

/// Every proper prefix of a frame reads as incomplete: the reader waits for
/// the rest of the frame.
pub proof fn lemma_frame_prefix_incomplete(payload: Seq<u8>, k: nat)
    requires
        payload.len() <= MAX_FRAME_LENGTH,
        k < frame_encoding(payload).len(),
    ensures
        frame_decoding(frame_encoding(payload).take(k as int)) == Ok::<
            Option<(Seq<u8>, nat)>,
            (),
        >(None),
{
    let n = payload.len();
    let buf = frame_encoding(payload).take(k as int);
    lemma_be_bytes_len(n, 4);
    if k >= 4 {
        assert(byte_range(4) == 4294967296) by {
            reveal_with_fuel(byte_range, 5);
        }
        lemma_be_roundtrip(n, 4);
        assert(buf.subrange(0, 4) =~= be_bytes(n, 4));
    }
}

} // verus!
