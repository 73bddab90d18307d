//! The side of the broker that talks to one client.

use std::sync::mpsc::Receiver;
use std::sync::mpsc::Sender;
use vstd::prelude::*;

use crate::routing::Message;

verus! {

/// Reads chunks from one client's socket and hands them to the broker,
/// tagged with the client's id.
pub struct ClientReceiver<S> {
    socket: S,
    server_handle: Sender<Message>,
    id: u8,
}

impl<S> ClientReceiver<S> {
    /// The socket of the client.
    pub closed spec fn socket_spec(&self) -> S {
        self.socket
    }

    /// The channel to the broker.
    pub closed spec fn handle_spec(&self) -> Sender<Message> {
        self.server_handle
    }

    /// The id of the client.
    pub closed spec fn id_spec(&self) -> u8 {
        self.id
    }

    /// A reader of client `id` on `socket` that reports on `server_handle`.
    pub fn new(socket: S, server_handle: Sender<Message>, id: u8) -> (receiver: Self)
        ensures
            receiver.socket_spec() == socket,
            receiver.handle_spec() == server_handle,
            receiver.id_spec() == id,
    {
        ClientReceiver { socket, server_handle, id }
    }

    /// What a chunk read from the client becomes: an empty read ends the
    /// stream (`None`); otherwise the chunk goes to the server under the
    /// client's id.
    pub fn on_chunk(&self, chunk: Vec<u8>) -> (msg: Option<Message>)
        ensures
            chunk@.len() == 0 ==> msg is None,
            chunk@.len() > 0 ==> (msg matches Some(Message::ToServer(from, bytes)) && from
                == self.id_spec() && bytes@ == chunk@),
    {
        if chunk.len() == 0 {
            None
        } else {
            Some(Message::ToServer(self.id, chunk))
        }
    }

    /// The id of the client.
    pub fn id(&self) -> (id: u8)
        ensures
            id == self.id_spec(),
    {
        self.id
    }

    /// The socket, to read from.
    pub fn socket_mut(&mut self) -> (socket: &mut S)
        ensures
            *socket == old(self).socket_spec(),
            final(self).socket_spec() == *final(socket),
            final(self).handle_spec() == old(self).handle_spec(),
            final(self).id_spec() == old(self).id_spec(),
    {
        &mut self.socket
    }

    /// The channel to the broker.
    pub fn server_handle(&self) -> (handle: &Sender<Message>)
        ensures
            *handle == self.handle_spec(),
    {
        &self.server_handle
    }
}

/// Writes to one client's socket the chunks that the broker sends it.
pub struct ClientSender<S> {
    socket: Receiver<Vec<u8>>,
    handle: S,
}

impl<S> ClientSender<S> {
    /// The channel the chunks for the client arrive on.
    pub closed spec fn channel_spec(&self) -> Receiver<Vec<u8>> {
        self.socket
    }

    /// The socket of the client.
    pub closed spec fn socket_spec(&self) -> S {
        self.handle
    }

    /// A writer of what arrives on `socket` (a channel) into `handle` (the
    /// client's socket).
    pub fn new(socket: Receiver<Vec<u8>>, handle: S) -> (sender: Self)
        ensures
            sender.channel_spec() == socket,
            sender.socket_spec() == handle,
    {
        ClientSender { socket, handle }
    }

    /// The channel the chunks for the client arrive on.
    pub fn channel(&self) -> (channel: &Receiver<Vec<u8>>)
        ensures
            *channel == self.channel_spec(),
    {
        &self.socket
    }

    /// The client's socket, to write to.
    pub fn socket_mut(&mut self) -> (socket: &mut S)
        ensures
            *socket == old(self).socket_spec(),
            final(self).socket_spec() == *final(socket),
            final(self).channel_spec() == old(self).channel_spec(),
    {
        &mut self.handle
    }
}

} // verus!
