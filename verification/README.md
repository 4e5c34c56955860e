# transport_async

Transports (TCP, UDP, local sockets and named pipes, QUIC, stdio, in-process
channels) and the codecs that turn their byte streams into message streams.

## Layout

- `src/` — the verified library (Verus).
  - `codec/builder.rs` — the `CodecBuilder` trait, `codec_builder_fn`, and the
    length-delimited frame format (`LengthDelimitedCodec::encode_frame` /
    `decode_frame`) with its round-trip and incompleteness lemmas.
  - `codec/formats.rs` — the string encodings of bincode, JSON, MessagePack and
    CBOR, as produced by the `tokio_serde` formats.
  - `codec/serializer.rs` — `CodecSerializer`, which picks the format of a `Codec`.
  - `codec/serde.rs` — `SerdeCodec`: messages, each serialized and framed.
  - `codec/wire.rs` — fixed-width integers as bytes.
  - `transport/codec.rs` — `CodecTransport`, which attaches a codec to every
    accepted connection.
  - `transport/local.rs` — the in-process transport over tokio's mpsc channels.
  - `transport/{tcp,udp,ipc,quic,stdio}.rs` — the endpoint kinds of the socket
    transports.
- `app/` — the async side: `Bind`/`Connect`, the socket transports, the tokio
  frame codec `FrameCodec` over the verified frame functions, `string_codec`
  over the verified string serializer, and `serde_codec` for messages of any
  serde type.
- `tests/` — tests of the library.
