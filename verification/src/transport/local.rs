//! An in-process transport: connections and messages travel over tokio's
//! mpsc channels, bounded or unbounded.
use vstd::prelude::*;

use super::mpsc::{bounded_pair, unbounded_pair, ChannelSender};

verus! {

/// Why a message was not sent; the message comes back with the failure.
pub enum SendFailure<T> {
    /// The bounded channel holds as many messages as it can.
    Full(T),
    /// The receiving half is gone.
    Closed(T),
}

impl<T> SendFailure<T> {
    /// The message that was not sent.
    pub open spec fn message(self) -> T {
        match self {
            SendFailure::Full(m) => m,
            SendFailure::Closed(m) => m,
        }
    }
}

/// The receiving half of a channel of the transport.
#[derive(Debug)]
#[verifier::reject_recursive_types(T)]
pub enum LocalReceiver<T> {
    Bounded(tokio::sync::mpsc::Receiver<T>),
    Unbounded(tokio::sync::mpsc::UnboundedReceiver<T>),
}

/// One end of an in-process connection: it sends `Req` messages and
/// receives `Res` messages.
#[verifier::reject_recursive_types(Req)]
#[verifier::reject_recursive_types(Res)]
pub struct LocalTransport<Req, Res> {
    tx: ChannelSender<Req>,
    rx: LocalReceiver<Res>,
}

impl<Req, Res> LocalTransport<Req, Res> {
    /// Whether the messages this end sends go over a bounded channel.
    pub closed spec fn sends_bounded(&self) -> bool {
        self.tx.is_bounded()
    }

    /// The number of messages the channel this end sends on was made to
    /// hold, `None` when it is unbounded.
    pub closed spec fn send_bound(&self) -> Option<usize> {
        self.tx.bound()
    }

    /// The receiving half that the messages this end sends reach.
    pub closed spec fn feeds(&self) -> LocalReceiver<Req> {
        self.tx.receiver()
    }

    /// Whether the messages this end receives come over a bounded channel.
    pub closed spec fn receives_bounded(&self) -> bool {
        self.rx is Bounded
    }

    /// The receiving half.
    pub closed spec fn receiver(&self) -> LocalReceiver<Res> {
        self.rx
    }

    /// Sends `item` to the other end. A failure hands `item` back; over an
    /// unbounded channel the only failure is that the other end is gone.
    pub fn start_send(&self, item: Req) -> (res: Result<(), SendFailure<Req>>)
        ensures
            match res {
                Ok(()) => true,
                Err(f) => f.message() == item && (!self.sends_bounded() ==> f is Closed),
            },
    {
        self.tx.send_item(item)
    }

    /// The receiving half, for polling.
    pub fn receiver_mut(&mut self) -> (res: &mut LocalReceiver<Res>)
        ensures
            *res == old(self).receiver(),
            final(self).receiver() == *final(res),
            final(self).sends_bounded() == old(self).sends_bounded(),
    {
        &mut self.rx
    }
}

/// Whether `a` and `b` are the two ends of one connection: what each sends,
/// the other's receiving half receives.
pub open spec fn wired<A, B>(a: LocalTransport<A, B>, b: LocalTransport<B, A>) -> bool {
    a.feeds() == b.receiver() && b.feeds() == a.receiver()
}

/// The two ends of a new connection whose two directions are channels that
/// hold up to `buffer` messages each.
pub fn bounded_connection<Req, Res>(buffer: usize) -> (res: (LocalTransport<Res, Req>, LocalTransport<Req, Res>))
    requires
        0 < buffer <= usize::MAX >> 3,
    ensures
        wired(res.0, res.1),
        res.0.send_bound() == Some(buffer),
        res.1.send_bound() == Some(buffer),
        res.0.sends_bounded() && res.0.receives_bounded(),
        res.1.sends_bounded() && res.1.receives_bounded(),
{
    let (tx1, rx2) = bounded_pair(buffer);
    let (tx2, rx1) = bounded_pair(buffer);
    (LocalTransport { tx: tx1, rx: rx1 }, LocalTransport { tx: tx2, rx: rx2 })
}

/// The two ends of a new connection whose two directions are unbounded
/// channels.
pub fn unbounded_connection<Req, Res>() -> (res: (LocalTransport<Res, Req>, LocalTransport<Req, Res>))
    ensures
        wired(res.0, res.1),
        res.0.send_bound() is None,
        res.1.send_bound() is None,
        !res.0.sends_bounded() && !res.0.receives_bounded(),
        !res.1.sends_bounded() && !res.1.receives_bounded(),
{
    let (tx1, rx2) = unbounded_pair();
    let (tx2, rx1) = unbounded_pair();
    (LocalTransport { tx: tx1, rx: rx1 }, LocalTransport { tx: tx2, rx: rx2 })
}

/// The listening side: it receives the server end of every connection that
/// a [`LocalClientStream`] opens.
#[verifier::reject_recursive_types(Req)]
#[verifier::reject_recursive_types(Res)]
pub struct LocalTransportFactory<Req, Res> {
    rx: LocalReceiver<LocalTransport<Req, Res>>,
}

impl<Req, Res> LocalTransportFactory<Req, Res> {
    /// Whether connections arrive over a bounded channel.
    pub closed spec fn is_bounded(&self) -> bool {
        self.rx is Bounded
    }

    /// The receiving half of the channel that connections arrive on.
    pub closed spec fn receiver(&self) -> LocalReceiver<LocalTransport<Req, Res>> {
        self.rx
    }

    /// A listener that takes its connections from `params`.
    pub fn bind(params: LocalReceiver<LocalTransport<Req, Res>>) -> (res: Self)
        ensures
            res.receiver() == params,
    {
        Self { rx: params }
    }

    /// The receiving half of the channel that connections arrive on, for
    /// polling.
    pub fn receiver_mut(&mut self) -> (res: &mut LocalReceiver<LocalTransport<Req, Res>>)
        ensures
            *res == old(self).receiver(),
            final(self).receiver() == *final(res),
    {
        &mut self.rx
    }
}

/// How a client opens its connections.
pub enum ConnectMode {
    Unbounded,
    Bounded { buffer_size: usize },
}

/// Why a client could not open a connection.
#[derive(Clone, Copy, Debug, PartialEq, Eq, Structural)]
pub enum ConnectError {
    /// The listener's bounded channel is full.
    Full,
    /// The listener is gone.
    Closed,
    /// The listener's bounded channel has no room left, so no buffer size
    /// can be taken from it for the new connection.
    NoCapacity,
}

impl ConnectError {
    /// The connection error for a listener that did not take the server
    /// end: a full listener channel is `Full`, a gone listener `Closed`.
    pub fn from_send_failure<T>(failure: SendFailure<T>) -> (res: ConnectError)
        ensures
            match failure {
                SendFailure::Full(_) => res == ConnectError::Full,
                SendFailure::Closed(_) => res == ConnectError::Closed,
            },
    {
        match failure {
            SendFailure::Full(_) => ConnectError::Full,
            SendFailure::Closed(_) => ConnectError::Closed,
        }
    }
}

/// The connecting side: it opens connections to a [`LocalTransportFactory`].
#[verifier::reject_recursive_types(Req)]
#[verifier::reject_recursive_types(Res)]
pub struct LocalClientStream<Req, Res> {
    tx: ChannelSender<LocalTransport<Res, Req>>,
}

/// A listener and a client connected to it, both over unbounded channels.
pub fn unbounded_channel<Req, Res>() -> (res: (LocalTransportFactory<Req, Res>, LocalClientStream<Res, Req>))
    ensures
        !res.0.is_bounded(),
        !res.1.is_bounded(),
        res.1.listener() == res.0.receiver(),
        res.1.listener_bound() is None,
{
    let (tx, rx) = unbounded_pair();
    (LocalTransportFactory { rx }, LocalClientStream { tx })
}

/// A listener and a client connected to it over a channel that holds up to
/// `buffer` pending connections; `buffer` is at least 1 and at most
/// `usize::MAX >> 3`.
pub fn channel<Req, Res>(buffer: usize) -> (res: (LocalTransportFactory<Req, Res>, LocalClientStream<Res, Req>))
    requires
        0 < buffer <= usize::MAX >> 3,
    ensures
        res.0.is_bounded(),
        res.1.is_bounded(),
        res.1.listener() == res.0.receiver(),
        res.1.listener_bound() == Some(buffer),
{
    let (tx, rx) = bounded_pair(buffer);
    (LocalTransportFactory { rx }, LocalClientStream { tx })
}

impl<Req, Res> LocalClientStream<Req, Res> {
    /// Whether the connections go to the listener over a bounded channel.
    pub closed spec fn is_bounded(&self) -> bool {
        self.tx.is_bounded()
    }

    /// The receiving half that the connections this client opens reach.
    pub closed spec fn listener(&self) -> LocalReceiver<LocalTransport<Res, Req>> {
        self.tx.receiver()
    }

    /// The number of pending connections that the listener's channel was
    /// made to hold, `None` when it is unbounded.
    pub closed spec fn listener_bound(&self) -> Option<usize> {
        self.tx.bound()
    }

    /// Opens a connection whose two directions are unbounded channels: the
    /// server end goes to the listener, the client end comes back. When the
    /// listener does not take it, the server end comes back in the failure.
    pub fn connect_unbounded(&self) -> (res: Result<LocalTransport<Req, Res>, SendFailure<LocalTransport<Res, Req>>>)
        ensures
            match res {
                Ok(t) => !t.sends_bounded() && !t.receives_bounded() && t.send_bound() is None,
                Err(f) => !f.message().sends_bounded() && !f.message().receives_bounded() && (
                !self.is_bounded() ==> f is Closed) && f.message().send_bound() is None,
            },
    {
        let (server, client) = unbounded_connection::<Req, Res>();
        match self.tx.send_item(server) {
            Ok(()) => Ok(client),
            Err(f) => Err(f),
        }
    }

    /// Opens a connection whose two directions are channels holding up to
    /// `buffer` messages each: the server end goes to the listener, the
    /// client end comes back. When the listener does not take it, the server
    /// end comes back in the failure. `buffer` is at least 1 and at most
    /// `usize::MAX >> 3`.
    pub fn connect_bounded(&self, buffer: usize) -> (res: Result<LocalTransport<Req, Res>, SendFailure<LocalTransport<Res, Req>>>)
        requires
            0 < buffer <= usize::MAX >> 3,
        ensures
            match res {
                Ok(t) => t.sends_bounded() && t.receives_bounded() && t.send_bound() == Some(buffer),
                Err(f) => f.message().sends_bounded() && f.message().receives_bounded() && (
                !self.is_bounded() ==> f is Closed) && f.message().send_bound() == Some(buffer),
            },
    {
        let (server, client) = bounded_connection::<Req, Res>(buffer);
        match self.tx.send_item(server) {
            Ok(()) => Ok(client),
            Err(f) => Err(f),
        }
    }

    /// Opens a connection whose two directions are bounded by `capacity`,
    /// the room left in the listener's channel: refused with `NoCapacity`
    /// exactly when that is 0, otherwise opened as by `connect_bounded`, with
    /// the listener's refusal turned into `Full` or `Closed`.
    pub fn connect_with_capacity(&self, capacity: usize) -> (res: Result<LocalTransport<Req, Res>, ConnectError>)
        requires
            capacity <= usize::MAX >> 3,
        ensures
            capacity == 0 <==> res == Err::<LocalTransport<Req, Res>, ConnectError>(
                ConnectError::NoCapacity,
            ),
            match res {
                Ok(t) => t.sends_bounded() && t.receives_bounded() && t.send_bound() == Some(capacity),
                Err(e) => capacity == 0 || e == ConnectError::Closed || (self.is_bounded() && e
                    == ConnectError::Full),
            },
    {
        if capacity == 0 {
            return Err(ConnectError::NoCapacity);
        }
        match self.connect_bounded(capacity) {
            Ok(t) => Ok(t),
            Err(failure) => Err(ConnectError::from_send_failure(failure)),
        }
    }

    /// Opens a connection of the listener's kind: unbounded for an
    /// unbounded listener; for a bounded one, bounded by the room left in
    /// the listener's channel at this moment, which must not be 0.
    pub fn connect(params: Self) -> (res: Result<LocalTransport<Req, Res>, ConnectError>)
        ensures
            match res {
                Ok(t) => t.sends_bounded() == params.is_bounded() && t.receives_bounded()
                    == params.is_bounded() && (t.send_bound() is Some <==> params.is_bounded()),
                Err(e) => (e == ConnectError::Closed) || (params.is_bounded() && (e
                    == ConnectError::Full || e == ConnectError::NoCapacity)),
            },
    {
        match params.tx.capacity() {
            None => match params.connect_unbounded() {
                Ok(t) => Ok(t),
                Err(failure) => Err(ConnectError::from_send_failure(failure)),
            },
            Some(capacity) => params.connect_with_capacity(capacity),
        }
    }
}

} // verus!
