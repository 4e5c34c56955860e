//! UDP: a socket bound to one address and connected to another. Binding and
//! connecting are I/O and happen outside the verified library.
use std::marker::PhantomData;
use vstd::prelude::*;

verus! {

/// The local address to bind and the peer address to connect to.
pub struct ConnectionParams<B, C> {
    pub bind_addr: B,
    pub connect_addr: C,
}

/// The UDP listener kind: its stream yields the one connected socket.
pub struct Endpoint<B, C> {
    _phantom: PhantomData<(B, C)>,
}

/// The UDP connector kind.
pub struct Connection<B, C> {
    _phantom: PhantomData<(B, C)>,
}

} // verus!
