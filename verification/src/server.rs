//! The side of the broker that reads from the server.

use std::sync::mpsc::Sender;
use vstd::prelude::*;

use crate::frame::{parse_server_frame, server_frame_parts};
use crate::routing::Message;

verus! {

/// Reads chunks from the server's socket and turns each into a message for
/// the client its last byte names.
pub struct ServerReceiver<S> {
    socket: S,
    server_handle: Sender<Message>,
}

impl<S> ServerReceiver<S> {
    /// The socket that the server's chunks come from.
    pub closed spec fn socket_spec(&self) -> S {
        self.socket
    }

    /// The channel to the broker.
    pub closed spec fn handle_spec(&self) -> Sender<Message> {
        self.server_handle
    }

    /// A reader of `socket` that reports to the broker on `server_handle`.
    pub fn new(socket: S, server_handle: Sender<Message>) -> (receiver: Self)
        ensures
            receiver.socket_spec() == socket,
            receiver.handle_spec() == server_handle,
    {
        ServerReceiver { socket, server_handle }
    }

    /// What a chunk read from the server becomes: an empty read ends the
    /// stream (`None`); otherwise the last byte names the client and the rest
    /// is its chunk.
    pub fn on_chunk(&self, chunk: Vec<u8>) -> (msg: Option<Message>)
        ensures
            match server_frame_parts(chunk@) {
                None => msg is None,
                Some((id, payload)) => msg matches Some(Message::ToClient(to, bytes)) && to == id
                    && bytes@ == payload,
            },
            chunk@.len() == 0 ==> msg is None,
            chunk@.len() > 0 ==> (msg matches Some(Message::ToClient(to, bytes)) && to
                == chunk@[chunk@.len() - 1] && bytes@ == chunk@.subrange(0, chunk@.len() - 1)),
    {
        match parse_server_frame(chunk) {
            Some((id, payload)) => Some(Message::ToClient(id, payload)),
            None => None,
        }
    }

    /// The socket, to read from.
    pub fn socket_mut(&mut self) -> (socket: &mut S)
        ensures
            *socket == old(self).socket_spec(),
            final(self).socket_spec() == *final(socket),
            final(self).handle_spec() == old(self).handle_spec(),
    {
        &mut self.socket
    }

    /// The channel to the broker.
    pub fn server_handle(&self) -> (handle: &Sender<Message>)
        ensures
            *handle == self.handle_spec(),
    {
        &self.server_handle
    }
}

} // verus!
