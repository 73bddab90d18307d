use std::sync::mpsc::channel;

use bert::frame::{frame_for_server, parse_server_frame};
use bert::ids::ClientIds;
use bert::{Action, Broker, ClientReceiver, ClientSender, Message, ServerReceiver};

fn empty_broker() -> Broker<(), (), ()> {
    let (server_write, _server_rx) = channel::<Vec<u8>>();
    let (handle, receiver) = channel::<Message>();
    Broker::new(server_write, handle, receiver, ())
}

#[test]
fn new_broker_knows_no_client() {
    let broker = empty_broker();
    for id in 0..=255u8 {
        assert!(broker.client(id).is_none());
    }
}

#[test]
fn connect_client_registers_it() {
    let mut broker = empty_broker();
    let (tx, rx) = channel::<Vec<u8>>();
    let action = broker.route(Message::ConnectClient(3, tx));
    assert!(matches!(action, Action::Registered(3)));
    broker.client(3).unwrap().send(vec![42]).unwrap();
    assert_eq!(rx.recv().unwrap(), vec![42]);
    assert!(broker.client(4).is_none());
}

#[test]
fn first_registration_wins() {
    let mut broker = empty_broker();
    let (first, first_rx) = channel::<Vec<u8>>();
    let (second, second_rx) = channel::<Vec<u8>>();
    assert!(matches!(broker.route(Message::ConnectClient(9, first)), Action::Registered(9)));
    assert!(matches!(broker.route(Message::ConnectClient(9, second)), Action::AlreadyConnected(9)));
    broker.client(9).unwrap().send(vec![1, 2]).unwrap();
    assert_eq!(first_rx.recv().unwrap(), vec![1, 2]);
    // the second channel was dropped by the broker
    assert!(second_rx.recv().is_err());
}

#[test]
fn chunk_for_registered_client_is_delivered() {
    let mut broker = empty_broker();
    let (tx, _rx) = channel::<Vec<u8>>();
    broker.route(Message::ConnectClient(7, tx));
    match broker.route(Message::ToClient(7, vec![10, 20, 30])) {
        Action::Deliver(id, chunk) => {
            assert_eq!(id, 7);
            assert_eq!(chunk, vec![10, 20, 30]);
        },
        _ => panic!("expected a delivery"),
    }
}

#[test]
fn chunk_for_unknown_client_asks_for_one() {
    let mut broker = empty_broker();
    let action = broker.route(Message::ToClient(200, vec![1]));
    assert!(matches!(action, Action::CreateClient(200)));
    assert!(broker.client(200).is_none());
}

#[test]
fn chunk_from_client_is_framed_for_server() {
    let mut broker = empty_broker();
    match broker.route(Message::ToServer(4, vec![1, 2, 3])) {
        Action::WriteToServer(bytes) => assert_eq!(bytes, vec![1, 2, 3, 4]),
        _ => panic!("expected a write to the server"),
    }
    match broker.route(Message::ToServer(0, vec![])) {
        Action::WriteToServer(bytes) => assert_eq!(bytes, vec![0]),
        _ => panic!("expected a write to the server"),
    }
}

#[test]
fn round_trip_through_server_reaches_sender() {
    let mut broker = empty_broker();
    let (tx, _rx) = channel::<Vec<u8>>();
    broker.route(Message::ConnectClient(5, tx));
    let framed = match broker.route(Message::ToServer(5, vec![9, 8])) {
        Action::WriteToServer(bytes) => bytes,
        _ => panic!("expected a write to the server"),
    };
    let (handle, _r) = channel::<Message>();
    let server = ServerReceiver::new((), handle);
    let back = server.on_chunk(framed).unwrap();
    match broker.route(back) {
        Action::Deliver(id, chunk) => {
            assert_eq!(id, 5);
            assert_eq!(chunk, vec![9, 8]);
        },
        _ => panic!("expected a delivery"),
    }
}

#[test]
fn frame_then_parse_gives_back_parts() {
    let bytes = frame_for_server(17, vec![4, 5, 6]);
    assert_eq!(bytes, vec![4, 5, 6, 17]);
    assert_eq!(parse_server_frame(bytes), Some((17, vec![4, 5, 6])));
}

#[test]
fn parse_of_empty_chunk_is_none() {
    assert_eq!(parse_server_frame(vec![]), None);
    assert_eq!(parse_server_frame(vec![3]), Some((3, vec![])));
}

#[test]
fn server_receiver_reads_id_from_last_byte() {
    let (handle, _r) = channel::<Message>();
    let server = ServerReceiver::new((), handle);
    assert!(server.on_chunk(vec![]).is_none());
    match server.on_chunk(vec![100, 101, 2]) {
        Some(Message::ToClient(id, chunk)) => {
            assert_eq!(id, 2);
            assert_eq!(chunk, vec![100, 101]);
        },
        _ => panic!("expected a chunk for a client"),
    }
}

#[test]
fn client_receiver_tags_chunks_with_its_id() {
    let (handle, _r) = channel::<Message>();
    let client = ClientReceiver::new((), handle, 12);
    assert_eq!(client.id(), 12);
    assert!(client.on_chunk(vec![]).is_none());
    match client.on_chunk(vec![7, 7]) {
        Some(Message::ToServer(id, chunk)) => {
            assert_eq!(id, 12);
            assert_eq!(chunk, vec![7, 7]);
        },
        _ => panic!("expected a chunk for the server"),
    }
}

#[test]
fn client_sender_holds_its_channel() {
    let (tx, rx) = channel::<Vec<u8>>();
    let mut sender = ClientSender::new(rx, Vec::<u8>::new());
    tx.send(vec![1, 2]).unwrap();
    let chunk = sender.channel().try_recv().unwrap();
    sender.socket_mut().extend_from_slice(&chunk);
    assert_eq!(*sender.socket_mut(), vec![1, 2]);
}

#[test]
fn client_ids_count_from_one() {
    let mut ids = ClientIds::new();
    assert_eq!(ids.next_id(), 1);
    assert_eq!(ids.next_id(), 2);
    assert_eq!(ids.next_id(), 3);
}

#[test]
fn client_ids_wrap_after_255() {
    let mut ids = ClientIds::new();
    let mut seen = Vec::new();
    for _ in 0..256 {
        seen.push(ids.next_id());
    }
    assert_eq!(seen[254], 255);
    assert_eq!(seen[255], 0);
    let mut sorted = seen.clone();
    sorted.sort();
    sorted.dedup();
    assert_eq!(sorted.len(), 256);
    assert_eq!(ids.next_id(), 1);
}

#[test]
fn registrations_persist_over_run() {
    let mut broker = empty_broker();
    let (a, a_rx) = channel::<Vec<u8>>();
    let (b, b_rx) = channel::<Vec<u8>>();
    let (c, _c_rx) = channel::<Vec<u8>>();
    let msgs = vec![
        Message::ConnectClient(1, a),
        Message::ToServer(1, vec![5]),
        Message::ConnectClient(2, b),
        Message::ToClient(3, vec![6]),
        Message::ConnectClient(1, c),
        Message::ToClient(2, vec![7]),
    ];
    let mut actions = Vec::new();
    for msg in msgs {
        actions.push(broker.route(msg));
    }
    assert_eq!(actions.len(), 6);
    assert!(matches!(actions[4], Action::AlreadyConnected(1)));
    assert!(broker.client(3).is_none());
    broker.client(1).unwrap().send(vec![1]).unwrap();
    broker.client(2).unwrap().send(vec![2]).unwrap();
    assert_eq!(a_rx.recv().unwrap(), vec![1]);
    assert_eq!(b_rx.recv().unwrap(), vec![2]);
}
