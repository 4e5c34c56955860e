pub mod codec;
pub mod ipc;
pub mod local;
mod mpsc;
pub mod quic;
pub mod stdio;
pub mod tcp;
pub mod udp;
