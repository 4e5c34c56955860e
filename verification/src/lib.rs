//! Transports (TCP, UDP, IPC, QUIC, stdio, in-process channels) and the
//! codecs that turn their byte streams into message streams.
//!
//! The verified part of the library is the message layer: the length-delimited
//! frame format, the per-codec string encodings, the stream adapter that
//! attaches a codec to every accepted connection, and the in-process channel
//! transport.
pub mod codec;
pub mod transport;

pub use transport::codec::CodecTransport;
pub use transport::ipc;
pub use transport::local;
pub use transport::quic;
pub use transport::stdio;
pub use transport::tcp;
pub use transport::udp;
