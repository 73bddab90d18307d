use std::sync::mpsc::channel;

use bert::relay::{outgoing_frame, ClientReceiver, Msg, Role, ServerReceiver, State};
use bert::wsframe::{chunk_frame, copy_chunk, frame_payload, read_frame_into, Frame};

#[test]
fn msg_bytes_put_id_last() {
    let msg = Msg { id: 9, payload: vec![1, 2] };
    assert_eq!(msg.to_bytes(), vec![1, 2, 9]);
}

#[test]
fn msg_from_bytes_reads_id_last() {
    let msg = Msg::from_bytes(vec![4, 5, 6]);
    assert_eq!(msg.id, 6);
    assert_eq!(msg.payload, vec![4, 5]);
    let msg = Msg::from_bytes(vec![250]);
    assert_eq!(msg.id, 250);
    assert!(msg.payload.is_empty());
}

#[test]
fn msg_bytes_round_trip() {
    let bytes = Msg { id: 33, payload: vec![0, 255, 7] }.to_bytes();
    let back = Msg::from_bytes(bytes.clone());
    assert_eq!(back.id, 33);
    assert_eq!(back.payload, vec![0, 255, 7]);
    assert_eq!(back.to_bytes(), bytes);
}

#[test]
fn first_connection_is_application() {
    let mut state: State<&str> = State::new();
    assert!(state.application().is_none());
    assert_eq!(state.handle("app"), Role::Application);
    assert_eq!(state.handle("second"), Role::Client);
    assert_eq!(state.handle("third"), Role::Client);
    assert_eq!(state.application(), Some(&"app"));
}

#[test]
fn relay_server_receiver_reads_msgs() {
    let (tx, _rx) = channel::<Msg>();
    let receiver = ServerReceiver::new(tx);
    let msg = receiver.on_message(Frame::Binary(vec![1, 2, 3])).unwrap();
    assert_eq!(msg.id, 3);
    assert_eq!(msg.payload, vec![1, 2]);
    assert!(receiver.on_message(Frame::Text("hi".to_string())).is_none());
    assert!(receiver.on_message(Frame::Control).is_none());
}

#[test]
fn relay_client_receiver_uses_id_zero() {
    let (tx, rx) = channel::<Msg>();
    let receiver = ClientReceiver::new(tx);
    let msg = receiver.on_message(Frame::Binary(vec![8, 9])).unwrap();
    assert_eq!(msg.id, 0);
    assert_eq!(msg.payload, vec![8, 9]);
    assert!(receiver.on_message(Frame::Text("x".to_string())).is_none());
    receiver.writer().send(msg).unwrap();
    assert_eq!(rx.recv().unwrap().payload, vec![8, 9]);
}

#[test]
fn outgoing_frame_is_placeholder_text() {
    match outgoing_frame(&Msg { id: 1, payload: vec![1] }) {
        Frame::Text(text) => assert_eq!(text, "message"),
        _ => panic!("expected text"),
    }
}

#[test]
fn payload_of_text_is_utf8() {
    assert_eq!(frame_payload(Frame::Text("hé".to_string())), Some(vec![0x68, 0xc3, 0xa9]));
    assert_eq!(frame_payload(Frame::Binary(vec![0, 1])), Some(vec![0, 1]));
    assert_eq!(frame_payload(Frame::Control), None);
}

#[test]
fn chunk_frame_skips_empty_reads() {
    assert!(chunk_frame(vec![]).is_none());
    match chunk_frame(vec![5]) {
        Some(Frame::Binary(bytes)) => assert_eq!(bytes, vec![5]),
        _ => panic!("expected a binary frame"),
    }
}

#[test]
fn copy_chunk_fills_front() {
    let mut buf = [9u8; 5];
    let len = copy_chunk(&mut buf, &[1, 2]);
    assert_eq!(len, 2);
    assert_eq!(buf, [1, 2, 9, 9, 9]);
    let len = copy_chunk(&mut buf, &[]);
    assert_eq!(len, 0);
    assert_eq!(buf, [1, 2, 9, 9, 9]);
}

#[test]
fn read_frame_into_copies_binary_only() {
    let mut buf = [0u8; 4];
    assert_eq!(read_frame_into(&mut buf, Frame::Binary(vec![7, 8, 9, 10])), 4);
    assert_eq!(buf, [7, 8, 9, 10]);
    assert_eq!(read_frame_into(&mut buf, Frame::Text("ab".to_string())), 0);
    assert_eq!(read_frame_into(&mut buf, Frame::Control), 0);
    assert_eq!(buf, [7, 8, 9, 10]);
}
