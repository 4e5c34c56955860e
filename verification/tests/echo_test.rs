use transport_async::codec::{Codec, SerdeCodec};
use transport_async::local::{
    channel, unbounded_channel, LocalClientStream, LocalReceiver, LocalTransport,
    LocalTransportFactory,
};

fn accept(factory: &mut LocalTransportFactory<Vec<u8>, Vec<u8>>) -> LocalTransport<Vec<u8>, Vec<u8>> {
    match factory.receiver_mut() {
        LocalReceiver::Bounded(rx) => rx.try_recv().ok().unwrap(),
        LocalReceiver::Unbounded(rx) => rx.try_recv().ok().unwrap(),
    }
}

fn receive(transport: &mut LocalTransport<Vec<u8>, Vec<u8>>) -> Vec<u8> {
    match transport.receiver_mut() {
        LocalReceiver::Bounded(rx) => rx.try_recv().ok().unwrap(),
        LocalReceiver::Unbounded(rx) => rx.try_recv().ok().unwrap(),
    }
}

/// The server reads one message and sends it back; the client reads the
/// reply.
fn echo(
    factory: &mut LocalTransportFactory<Vec<u8>, Vec<u8>>,
    client: &LocalClientStream<Vec<u8>, Vec<u8>>,
    codec: Codec,
    msg: &str,
) -> String {
    let serde = SerdeCodec::<String, String>::new(codec);
    let mut client_end = match client.connect_unbounded() {
        Ok(t) => t,
        Err(_) => panic!("listener refused the connection"),
    };
    let mut server_end = accept(factory);

    let request = serde.encode_message(&msg.to_string()).unwrap();
    assert!(client_end.start_send(request).is_ok());

    let wire = receive(&mut server_end);
    let (received, used) = serde.decode_message(&wire).unwrap().unwrap();
    assert_eq!(used, wire.len());
    let reply = serde.encode_message(&received).unwrap();
    assert!(server_end.start_send(reply).is_ok());

    let wire = receive(&mut client_end);
    let (answer, _) = serde.decode_message(&wire).unwrap().unwrap();
    answer
}

#[test]
fn echo_hello_over_every_codec() {
    let (mut factory, client) = unbounded_channel::<Vec<u8>, Vec<u8>>();
    for codec in [Codec::Bincode, Codec::Json, Codec::MessagePack, Codec::Cbor] {
        assert_eq!(echo(&mut factory, &client, codec, "hello"), "hello");
    }
}

#[test]
fn two_clients_each_get_their_own_echo() {
    let (mut factory, client) = channel::<Vec<u8>, Vec<u8>>(8);
    assert_eq!(echo(&mut factory, &client, Codec::Bincode, "hello"), "hello");
    assert_eq!(echo(&mut factory, &client, Codec::Bincode, "again"), "again");
}
