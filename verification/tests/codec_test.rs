use transport_async::codec::{
    codec_builder_fn, Codec, CodecBuilder, CodecError, CodecSerializer, LengthDelimitedCodec,
    SerdeCodec,
};
use transport_async::CodecTransport;

const CODECS: [Codec; 4] = [Codec::Bincode, Codec::Json, Codec::MessagePack, Codec::Cbor];

#[test]
fn frame_has_big_endian_length_prefix() {
    let frame = LengthDelimitedCodec.encode_frame(b"hello").unwrap();
    assert_eq!(frame, vec![0, 0, 0, 5, b'h', b'e', b'l', b'l', b'o']);
}

#[test]
fn empty_frame_is_only_the_header() {
    let frame = LengthDelimitedCodec.encode_frame(b"").unwrap();
    assert_eq!(frame, vec![0, 0, 0, 0]);
    assert_eq!(LengthDelimitedCodec.decode_frame(&frame).unwrap(), Some((vec![], 4)));
}

#[test]
fn frame_length_above_256_uses_two_bytes() {
    let payload = vec![7u8; 300];
    let frame = LengthDelimitedCodec.encode_frame(&payload).unwrap();
    assert_eq!(&frame[..4], &[0, 0, 1, 44]);
    assert_eq!(frame.len(), 304);
}

#[test]
fn frame_roundtrip_leaves_following_bytes() {
    let mut buf = LengthDelimitedCodec.encode_frame(b"abc").unwrap();
    buf.extend_from_slice(&[9, 9]);
    assert_eq!(
        LengthDelimitedCodec.decode_frame(&buf).unwrap(),
        Some((b"abc".to_vec(), 7))
    );
}

#[test]
fn every_proper_prefix_of_a_frame_is_incomplete() {
    let frame = LengthDelimitedCodec.encode_frame(b"hello").unwrap();
    for k in 0..frame.len() {
        assert_eq!(LengthDelimitedCodec.decode_frame(&frame[..k]).unwrap(), None);
    }
}

#[test]
fn largest_frame_is_accepted_and_one_more_byte_is_refused() {
    let payload = vec![0u8; 8 * 1024 * 1024];
    let frame = LengthDelimitedCodec.encode_frame(&payload).unwrap();
    assert_eq!(&frame[..4], &[0, 0x80, 0, 0]);
    let decoded = LengthDelimitedCodec.decode_frame(&frame).unwrap().unwrap();
    assert_eq!(decoded.1, 8 * 1024 * 1024 + 4);
    let too_large = vec![0u8; 8 * 1024 * 1024 + 1];
    assert!(matches!(
        LengthDelimitedCodec.encode_frame(&too_large),
        Err(CodecError::PayloadTooLarge)
    ));
}

#[test]
fn header_announcing_too_much_is_refused() {
    assert!(matches!(
        LengthDelimitedCodec.decode_frame(&[0, 0x80, 0, 1]),
        Err(CodecError::DeclaredLengthTooLarge)
    ));
    assert!(matches!(
        LengthDelimitedCodec.decode_frame(&[0xff, 0xff, 0xff, 0xff, 1, 2]),
        Err(CodecError::DeclaredLengthTooLarge)
    ));
}

#[test]
fn header_announcing_the_maximum_waits_for_the_payload() {
    assert_eq!(LengthDelimitedCodec.decode_frame(&[0, 0x80, 0, 0, 1]).unwrap(), None);
}

#[test]
fn bincode_string_is_varint_length_then_bytes() {
    let s = CodecSerializer::<String, String>::new(Codec::Bincode);
    assert_eq!(s.serialize(&"hello".to_string()).unwrap(), b"\x05hello".to_vec());
    let long = "x".repeat(300);
    let bytes = s.serialize(&long).unwrap();
    assert_eq!(&bytes[..3], &[251, 44, 1]);
    assert_eq!(bytes.len(), 303);
}

#[test]
fn bincode_varint_boundary() {
    let s = CodecSerializer::<String, String>::new(Codec::Bincode);
    let at = "y".repeat(250);
    assert_eq!(s.serialize(&at).unwrap()[0], 250);
    let above = "y".repeat(251);
    assert_eq!(&s.serialize(&above).unwrap()[..3], &[251, 251, 0]);
}

#[test]
fn bincode_utf8_length_counts_bytes() {
    let s = CodecSerializer::<String, String>::new(Codec::Bincode);
    assert_eq!(s.serialize(&"é".to_string()).unwrap(), vec![2, 0xc3, 0xa9]);
}

#[test]
fn messagepack_string_headers() {
    let s = CodecSerializer::<String, String>::new(Codec::MessagePack);
    assert_eq!(s.serialize(&"hello".to_string()).unwrap(), b"\xa5hello".to_vec());
    let s40 = "z".repeat(40);
    assert_eq!(&s.serialize(&s40).unwrap()[..2], &[0xd9, 40]);
    let s300 = "z".repeat(300);
    assert_eq!(&s.serialize(&s300).unwrap()[..3], &[0xda, 1, 44]);
    let s70000 = "z".repeat(70000);
    assert_eq!(&s.serialize(&s70000).unwrap()[..5], &[0xdb, 0, 1, 0x11, 0x70]);
}

#[test]
fn cbor_text_headers() {
    let s = CodecSerializer::<String, String>::new(Codec::Cbor);
    assert_eq!(s.serialize(&"hello".to_string()).unwrap(), b"\x65hello".to_vec());
    let s23 = "q".repeat(23);
    assert_eq!(s.serialize(&s23).unwrap()[0], 0x77);
    let s24 = "q".repeat(24);
    assert_eq!(&s.serialize(&s24).unwrap()[..2], &[0x78, 24]);
    let s300 = "q".repeat(300);
    assert_eq!(&s.serialize(&s300).unwrap()[..3], &[0x79, 1, 44]);
    let s70000 = "q".repeat(70000);
    assert_eq!(&s.serialize(&s70000).unwrap()[..5], &[0x7a, 0, 1, 0x11, 0x70]);
}

#[test]
fn json_string_is_quoted_and_escaped() {
    let s = CodecSerializer::<String, String>::new(Codec::Json);
    assert_eq!(s.serialize(&"hello".to_string()).unwrap(), b"\"hello\"".to_vec());
    assert_eq!(s.serialize(&"a\"b".to_string()).unwrap(), b"\"a\\\"b\"".to_vec());
}

#[test]
fn json_escapes_control_bytes() {
    let s = CodecSerializer::<String, String>::new(Codec::Json);
    assert_eq!(s.serialize(&"\u{1}".to_string()).unwrap(), b"\"\\u0001\"".to_vec());
    assert_eq!(s.serialize(&"\u{1f}".to_string()).unwrap(), b"\"\\u001f\"".to_vec());
    assert_eq!(s.serialize(&"\t\n\r".to_string()).unwrap(), b"\"\\t\\n\\r\"".to_vec());
    assert_eq!(s.serialize(&"\u{8}\u{c}\\".to_string()).unwrap(), b"\"\\b\\f\\\\\"".to_vec());
    assert_eq!(s.serialize(&"é/".to_string()).unwrap(), vec![b'"', 0xc3, 0xa9, b'/', b'"']);
}

#[test]
fn every_codec_reads_back_what_it_wrote() {
    for codec in CODECS {
        let s = CodecSerializer::<String, String>::new(codec);
        for msg in ["", "hello", "grüße", "line\nbreak \"quoted\""] {
            let bytes = s.serialize(&msg.to_string()).unwrap();
            assert_eq!(s.deserialize(&bytes).unwrap(), msg.to_string());
        }
    }
}

#[test]
fn garbage_payload_fails_to_decode() {
    let bincode = CodecSerializer::<String, String>::new(Codec::Bincode);
    assert!(bincode.deserialize(&[5, b'a']).is_err());
    assert!(bincode.deserialize(&[1, b'a', b'b']).is_err());
    assert!(bincode.deserialize(&[2, 0xff, 0xfe]).is_err());
    assert_eq!(
        bincode.deserialize(&[2, 0xff, 0xfe]).unwrap_err().kind(),
        std::io::ErrorKind::InvalidData
    );
    let json = CodecSerializer::<String, String>::new(Codec::Json);
    assert!(json.deserialize(b"hello").is_err());
    assert_eq!(
        json.deserialize(b"\"hel").unwrap_err().kind(),
        std::io::ErrorKind::UnexpectedEof
    );
    let msgpack = CodecSerializer::<String, String>::new(Codec::MessagePack);
    assert!(msgpack.deserialize(&[0xa5, b'a']).is_err());
    let cbor = CodecSerializer::<String, String>::new(Codec::Cbor);
    assert!(cbor.deserialize(&[0x65, b'a']).is_err());
    assert_eq!(
        cbor.deserialize(&[0x65, b'a']).unwrap_err().kind(),
        std::io::ErrorKind::UnexpectedEof
    );
}

#[test]
fn clones_keep_the_codec() {
    for codec in CODECS {
        let s = CodecSerializer::<String, String>::new(codec);
        assert_eq!(s.clone().codec(), codec);
        let c = SerdeCodec::<String, String>::new(codec);
        assert_eq!(c.clone().codec(), codec);
    }
}

#[test]
fn serializer_keeps_its_codec() {
    for codec in CODECS {
        assert_eq!(CodecSerializer::<String, String>::new(codec).codec(), codec);
        assert_eq!(SerdeCodec::<String, String>::new(codec).codec(), codec);
    }
}

#[test]
fn message_is_one_frame_around_the_encoding() {
    let codec = SerdeCodec::<String, String>::new(Codec::Bincode);
    assert_eq!(
        codec.encode_message(&"hello".to_string()).unwrap(),
        vec![0, 0, 0, 6, 5, b'h', b'e', b'l', b'l', b'o']
    );
}

#[test]
fn messages_read_back_in_order() {
    for codec in CODECS {
        let c = SerdeCodec::<String, String>::new(codec);
        let mut wire = c.encode_message(&"hello".to_string()).unwrap();
        wire.extend(c.encode_message(&"world".to_string()).unwrap());
        let (first, used) = c.decode_message(&wire).unwrap().unwrap();
        assert_eq!(first, "hello");
        let (second, used2) = c.decode_message(&wire[used..]).unwrap().unwrap();
        assert_eq!(second, "world");
        assert_eq!(used + used2, wire.len());
    }
}

#[test]
fn partial_message_waits() {
    let c = SerdeCodec::<String, String>::new(Codec::Json);
    let wire = c.encode_message(&"hello".to_string()).unwrap();
    assert_eq!(c.decode_message(&wire[..wire.len() - 1]).unwrap(), None);
}

#[test]
fn message_errors() {
    let c = SerdeCodec::<String, String>::new(Codec::Bincode);
    assert!(matches!(
        c.decode_message(&[0x01, 0, 0, 0]),
        Err(CodecError::DeclaredLengthTooLarge)
    ));
    assert!(matches!(
        c.decode_message(&[0, 0, 0, 2, 9, b'x']),
        Err(CodecError::Decode(_))
    ));
    let huge = "h".repeat(8 * 1024 * 1024);
    assert!(matches!(
        c.encode_message(&huge),
        Err(CodecError::PayloadTooLarge)
    ));
}

#[test]
fn builder_fn_builds_with_its_closure() {
    let builder = codec_builder_fn(|x: u32| x as u64 * 2);
    assert_eq!(builder.build_codec(21), 42);
}

#[test]
fn codec_transport_maps_each_connection() {
    let builder = codec_builder_fn(|x: u32| vec![x; 2]);
    let transport: CodecTransport<_, u32, String, ()> = CodecTransport::new((), builder);
    assert_eq!(transport.next_item(Some(Ok(3))), Some(Ok(vec![3, 3])));
    assert_eq!(
        transport.next_item(Some(Err("refused".to_string()))),
        Some(Err("refused".to_string()))
    );
    assert_eq!(transport.next_item(None), None);
}
