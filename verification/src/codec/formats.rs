//! The four serialization formats of [`super::Codec`], applied to string
//! messages through the format types of `tokio_serde`.
use vstd::prelude::*;
use vstd::utf8::{decode_utf8, encode_utf8, encode_utf8_decode_utf8, encode_utf8_valid_utf8, valid_utf8};

use super::wire::{be_bytes, byte_range, le_bytes, le_value, lemma_le_bytes_len, lemma_le_roundtrip};

pub use std::io::Error as IoError;

verus! {

#[verifier::external_type_specification]
#[verifier::external_body]
pub struct ExIoError(std::io::Error);

/// The variable-length integer of bincode's default options: one byte up to
/// 250, otherwise a marker byte and 2, 4 or 8 little-endian bytes.
pub open spec fn bincode_varint(n: nat) -> Seq<u8> {
    if n <= 250 {
        seq![n as u8]
    } else if n <= 0xffff {
        seq![251u8] + le_bytes(n, 2)
    } else if n <= 0xffff_ffff {
        seq![252u8] + le_bytes(n, 4)
    } else {
        seq![253u8] + le_bytes(n, 8)
    }
}

/// A string in bincode's default options: its UTF-8 length as a varint, then
/// its UTF-8 bytes.
pub open spec fn bincode_string_encoding(s: Seq<char>) -> Seq<u8> {
    bincode_varint(encode_utf8(s).len()) + encode_utf8(s)
}

/// The header of a MessagePack string of `len` bytes: fixstr, str8, str16
/// or str32, lengths big-endian.
pub open spec fn msgpack_str_header(len: nat) -> Seq<u8> {
    if len < 32 {
        seq![(0xa0 + len) as u8]
    } else if len < 256 {
        seq![0xd9u8, len as u8]
    } else if len < 65536 {
        seq![0xdau8] + be_bytes(len, 2)
    } else {
        seq![0xdbu8] + be_bytes(len, 4)
    }
}

/// A string in MessagePack: the header for its UTF-8 length taken as a
/// 32-bit number, then its UTF-8 bytes.
pub open spec fn msgpack_string_encoding(s: Seq<char>) -> Seq<u8> {
    msgpack_str_header(encode_utf8(s).len() % 4294967296) + encode_utf8(s)
}

/// The header of a CBOR text string (major type 3) of `len` bytes, in its
/// shortest form, lengths big-endian.
pub open spec fn cbor_text_header(len: nat) -> Seq<u8> {
    if len <= 23 {
        seq![(0x60 + len) as u8]
    } else if len <= 0xff {
        seq![0x78u8, len as u8]
    } else if len <= 0xffff {
        seq![0x79u8] + be_bytes(len, 2)
    } else if len <= 0xffff_ffff {
        seq![0x7au8] + be_bytes(len, 4)
    } else {
        seq![0x7bu8] + be_bytes(len, 8)
    }
}

/// A string in CBOR: a text string header, then its UTF-8 bytes.
pub open spec fn cbor_string_encoding(s: Seq<char>) -> Seq<u8> {
    cbor_text_header(encode_utf8(s).len()) + encode_utf8(s)
}

/// A lowercase hexadecimal digit.
pub open spec fn hex_digit(d: nat) -> u8 {
    if d < 10 {
        (0x30 + d) as u8
    } else {
        (0x57 + d) as u8
    }
}

/// How `serde_json` writes one byte of a string: `"` and `\` and the
/// control characters escaped (the short forms where JSON has them, else
/// `\u00` and two hex digits), every other byte as it is.
pub open spec fn json_escaped_byte(b: u8) -> Seq<u8> {
    if b == 0x08 {
        seq![0x5cu8, 0x62u8]
    } else if b == 0x09 {
        seq![0x5cu8, 0x74u8]
    } else if b == 0x0a {
        seq![0x5cu8, 0x6eu8]
    } else if b == 0x0c {
        seq![0x5cu8, 0x66u8]
    } else if b == 0x0d {
        seq![0x5cu8, 0x72u8]
    } else if b == 0x22 {
        seq![0x5cu8, 0x22u8]
    } else if b == 0x5c {
        seq![0x5cu8, 0x5cu8]
    } else if b < 0x20 {
        seq![0x5cu8, 0x75u8, 0x30u8, 0x30u8, hex_digit(b as nat / 16), hex_digit(b as nat % 16)]
    } else {
        seq![b]
    }
}

/// The escaped form of the bytes of a string.
pub open spec fn json_escaped(bytes: Seq<u8>) -> Seq<u8>
    decreases bytes.len(),
{
    if bytes.len() == 0 {
        Seq::empty()
    } else {
        json_escaped_byte(bytes[0]) + json_escaped(bytes.drop_first())
    }
}

/// A string in compact JSON: its escaped UTF-8 bytes between double quotes.
pub open spec fn json_string_encoding(s: Seq<char>) -> Seq<u8> {
    seq![0x22u8] + json_escaped(encode_utf8(s)) + seq![0x22u8]
}

/// The varint at the start of `bytes` in bincode's default options, with
/// the number of bytes it occupies. Bytes 254 and 255 start no varint that
/// fits 64 bits.
pub open spec fn bincode_varint_decoding(bytes: Seq<u8>) -> Option<(nat, nat)> {
    if bytes.len() == 0 {
        None
    } else if bytes[0] <= 250 {
        Some((bytes[0] as nat, 1))
    } else if bytes[0] == 251 {
        if bytes.len() >= 3 {
            Some((le_value(bytes.subrange(1, 3)), 3))
        } else {
            None
        }
    } else if bytes[0] == 252 {
        if bytes.len() >= 5 {
            Some((le_value(bytes.subrange(1, 5)), 5))
        } else {
            None
        }
    } else if bytes[0] == 253 {
        if bytes.len() >= 9 {
            Some((le_value(bytes.subrange(1, 9)), 9))
        } else {
            None
        }
    } else {
        None
    }
}

/// The string that bincode's default options read from `bytes`: a varint
/// length, then exactly that many bytes of valid UTF-8, with nothing after
/// them.
pub open spec fn bincode_string_decoding(bytes: Seq<u8>) -> Option<Seq<char>> {
    match bincode_varint_decoding(bytes) {
        Some((n, w)) => {
            let body = bytes.subrange(w as int, bytes.len() as int);
            if body.len() == n && valid_utf8(body) {
                Some(decode_utf8(body))
            } else {
                None
            }
        },
        None => None,
    }
}

/// Bincode reads every string back from its encoding (lengths are 64-bit
/// numbers).
pub proof fn lemma_bincode_string_roundtrip(s: Seq<char>)
    requires
        encode_utf8(s).len() < 18446744073709551616,
    ensures
        bincode_string_decoding(bincode_string_encoding(s)) == Some(s),
{
    let b = encode_utf8(s);
    let n = b.len();
    let e = bincode_string_encoding(s);
    encode_utf8_valid_utf8(s);
    encode_utf8_decode_utf8(s);
    assert(byte_range(2) == 65536 && byte_range(4) == 4294967296 && byte_range(8)
        == 18446744073709551616) by {
        reveal_with_fuel(byte_range, 9);
    }
    if n <= 250 {
        assert(e.subrange(1, e.len() as int) =~= b);
    } else if n <= 0xffff {
        lemma_le_bytes_len(n, 2);
        lemma_le_roundtrip(n, 2);
        assert(e.subrange(1, 3) =~= le_bytes(n, 2));
        assert(e.subrange(3, e.len() as int) =~= b);
    } else if n <= 0xffff_ffff {
        lemma_le_bytes_len(n, 4);
        lemma_le_roundtrip(n, 4);
        assert(e.subrange(1, 5) =~= le_bytes(n, 4));
        assert(e.subrange(5, e.len() as int) =~= b);
    } else {
        lemma_le_bytes_len(n, 8);
        lemma_le_roundtrip(n, 8);
        assert(e.subrange(1, 9) =~= le_bytes(n, 8));
        assert(e.subrange(9, e.len() as int) =~= b);
    }
}

/// The string that `serde_json` reads from `bytes`, if any.
pub uninterp spec fn json_string_decoding(bytes: Seq<u8>) -> Option<Seq<char>>;

/// The string that `rmp_serde` reads from `bytes`, if any.
pub uninterp spec fn msgpack_string_decoding(bytes: Seq<u8>) -> Option<Seq<char>>;

/// The string that `serde_cbor` reads from `bytes`, if any.
pub uninterp spec fn cbor_string_decoding(bytes: Seq<u8>) -> Option<Seq<char>>;

/// Calls `Serializer::serialize` of `tokio_serde::formats::Bincode` (bincode
/// with its default options: varint lengths, no size limit). Its source
/// writes a string as its varint length and its bytes into a growing vector,
/// which cannot fail.
#[verifier::external_body]
pub(crate) fn bincode_serialize(item: &String) -> (res: Result<Vec<u8>, std::io::Error>)
    ensures
        match res {
            Ok(v) => v@ == bincode_string_encoding(item@),
            Err(_) => false,
        },
{
    let mut format = tokio_serde::formats::Bincode::<String, String>::default();
    match tokio_serde::Serializer::serialize(std::pin::Pin::new(&mut format), item) {
        Ok(b) => Ok(b.to_vec()),
        Err(e) => Err(e),
    }
}

/// Calls `Deserializer::deserialize` of `tokio_serde::formats::Bincode`
/// (bincode's default options on a slice). Its source reads the varint
/// length, then that many bytes, checks that they are UTF-8 and that nothing
/// follows them: `bincode_string_decoding`.
#[verifier::external_body]
pub(crate) fn bincode_deserialize(src: &[u8]) -> (res: Result<String, std::io::Error>)
    ensures
        match res {
            Ok(v) => bincode_string_decoding(src@) == Some(v@),
            Err(_) => bincode_string_decoding(src@) is None,
        },
{
    let mut format = tokio_serde::formats::Bincode::<String, String>::default();
    let buf = bytes::BytesMut::from(src);
    tokio_serde::Deserializer::deserialize(std::pin::Pin::new(&mut format), &buf)
}

/// Calls `Serializer::serialize` of `tokio_serde::formats::Json`
/// (`serde_json::to_vec`, compact formatter), its error turned into an
/// `io::Error`. Its source writes a string between quotes, escaping `"`,
/// `\\` and control bytes, into a vector, which cannot fail.
#[verifier::external_body]
pub(crate) fn json_serialize(item: &String) -> (res: Result<Vec<u8>, std::io::Error>)
    ensures
        match res {
            Ok(v) => v@ == json_string_encoding(item@),
            Err(_) => false,
        },
{
    let mut format = tokio_serde::formats::Json::<String, String>::default();
    match tokio_serde::Serializer::serialize(std::pin::Pin::new(&mut format), item) {
        Ok(b) => Ok(b.to_vec()),
        Err(e) => Err(e.into()),
    }
}

/// Calls `Deserializer::deserialize` of `tokio_serde::formats::Json`
/// (`serde_json::from_reader`), its error turned into an `io::Error`.
/// The result is named by
/// `json_string_decoding`; the JSON text written for a string reads back as
/// that string.
#[verifier::external_body]
pub(crate) fn json_deserialize(src: &[u8]) -> (res: Result<String, std::io::Error>)
    ensures
        match res {
            Ok(v) => json_string_decoding(src@) == Some(v@),
            Err(_) => json_string_decoding(src@) is None,
        },
        forall|s: Seq<char>| #[trigger]
            json_string_encoding(s) == src@ ==> match res {
                Ok(v) => v@ == s,
                Err(_) => false,
            },
{
    let mut format = tokio_serde::formats::Json::<String, String>::default();
    let buf = bytes::BytesMut::from(src);
    match tokio_serde::Deserializer::deserialize(std::pin::Pin::new(&mut format), &buf) {
        Ok(v) => Ok(v),
        Err(e) => Err(e.into()),
    }
}

/// Calls `Serializer::serialize` of `tokio_serde::formats::MessagePack`
/// (`rmp_serde::to_vec`). Its source writes the string header for the
/// length cast to `u32`, then the bytes, into a vector, which cannot fail.
#[verifier::external_body]
pub(crate) fn msgpack_serialize(item: &String) -> (res: Result<Vec<u8>, std::io::Error>)
    ensures
        match res {
            Ok(v) => v@ == msgpack_string_encoding(item@),
            Err(_) => false,
        },
{
    let mut format = tokio_serde::formats::MessagePack::<String, String>::default();
    match tokio_serde::Serializer::serialize(std::pin::Pin::new(&mut format), item) {
        Ok(b) => Ok(b.to_vec()),
        Err(e) => Err(e),
    }
}

/// Calls `Deserializer::deserialize` of `tokio_serde::formats::MessagePack`
/// (`rmp_serde::from_read`). The result is named by
/// `msgpack_string_decoding`; a string of fewer than 2^32 bytes reads back
/// from its encoding.
#[verifier::external_body]
pub(crate) fn msgpack_deserialize(src: &[u8]) -> (res: Result<String, std::io::Error>)
    ensures
        match res {
            Ok(v) => msgpack_string_decoding(src@) == Some(v@),
            Err(_) => msgpack_string_decoding(src@) is None,
        },
        forall|s: Seq<char>| #[trigger]
            msgpack_string_encoding(s) == src@ && encode_utf8(s).len() < 4294967296 ==> match res {
                Ok(v) => v@ == s,
                Err(_) => false,
            },
{
    let mut format = tokio_serde::formats::MessagePack::<String, String>::default();
    let buf = bytes::BytesMut::from(src);
    tokio_serde::Deserializer::deserialize(std::pin::Pin::new(&mut format), &buf)
}

/// Calls `Serializer::serialize` of `tokio_serde::formats::Cbor`
/// (`serde_cbor::to_vec`). Its source writes the shortest text string
/// header, then the bytes, into a vector, which cannot fail.
#[verifier::external_body]
pub(crate) fn cbor_serialize(item: &String) -> (res: Result<Vec<u8>, std::io::Error>)
    ensures
        match res {
            Ok(v) => v@ == cbor_string_encoding(item@),
            Err(_) => false,
        },
{
    let mut format = tokio_serde::formats::Cbor::<String, String>::default();
    match tokio_serde::Serializer::serialize(std::pin::Pin::new(&mut format), item) {
        Ok(b) => Ok(b.to_vec()),
        Err(e) => Err(e),
    }
}

/// Calls `Deserializer::deserialize` of `tokio_serde::formats::Cbor`
/// (`serde_cbor::from_slice`). The result is named by
/// `cbor_string_decoding`; a string's encoding reads back as that string.
#[verifier::external_body]
pub(crate) fn cbor_deserialize(src: &[u8]) -> (res: Result<String, std::io::Error>)
    ensures
        match res {
            Ok(v) => cbor_string_decoding(src@) == Some(v@),
            Err(_) => cbor_string_decoding(src@) is None,
        },
        forall|s: Seq<char>| #[trigger]
            cbor_string_encoding(s) == src@ ==> match res {
                Ok(v) => v@ == s,
                Err(_) => false,
            },
{
    let mut format = tokio_serde::formats::Cbor::<String, String>::default();
    let buf = bytes::BytesMut::from(src);
    tokio_serde::Deserializer::deserialize(std::pin::Pin::new(&mut format), &buf)
}

} // verus!
