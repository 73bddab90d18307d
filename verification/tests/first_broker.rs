use std::sync::mpsc::channel;

use bert::broker::{Broker, Dispatch, IncomingHandler, Message};

fn not_found() -> Result<(), ()> {
    Err(())
}

#[test]
fn add_connection_registers_under_zero() {
    let mut broker = Broker::new((), not_found);
    assert!(broker.client(0).is_none());
    let (id, rx) = broker.add_connection().unwrap();
    assert_eq!(id, 0);
    broker.client(0).unwrap().send(vec![3]).unwrap();
    assert_eq!(rx.recv().unwrap(), vec![3]);
}

#[test]
fn add_connection_replaces_connection_zero() {
    let mut broker = Broker::new((), not_found);
    let (_, first_rx) = broker.add_connection().unwrap();
    let (_, second_rx) = broker.add_connection().unwrap();
    broker.client(0).unwrap().send(vec![8]).unwrap();
    assert_eq!(second_rx.recv().unwrap(), vec![8]);
    assert!(first_rx.recv().is_err());
}

#[test]
fn dispatch_follows_last_byte() {
    let mut broker = Broker::new((), not_found);
    broker.add_connection().unwrap();
    assert!(matches!(broker.dispatch(vec![]), Dispatch::EndOfStream));
    match broker.dispatch(vec![1, 2, 0]) {
        Dispatch::Deliver(id, chunk) => {
            assert_eq!(id, 0);
            assert_eq!(chunk, vec![1, 2]);
        },
        _ => panic!("expected a delivery"),
    }
    assert!(matches!(broker.dispatch(vec![1, 2, 6]), Dispatch::ClientNotFound(6)));
    assert!((broker.client_not_found())().is_err());
}

#[test]
fn incoming_handler_tags_chunks() {
    let (tx, _rx) = channel::<Message>();
    let handler = IncomingHandler::new((), tx, 4);
    assert!(handler.on_chunk(vec![]).is_none());
    match handler.on_chunk(vec![5, 6]) {
        Some(Message(id, chunk)) => {
            assert_eq!(id, 4);
            assert_eq!(chunk, vec![5, 6]);
        },
        None => panic!("expected a message"),
    }
}
