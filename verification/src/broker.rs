//! A first broker, driven by the server's socket alone: every connection it
//! accepts is registered under the id 0.

use std::collections::HashMap;
use std::sync::mpsc::Receiver;
use std::sync::mpsc::Sender;
use vstd::prelude::*;

use crate::frame::{parse_server_frame, server_frame_parts};
use crate::trusted::{byte_channel, channel_linked, report_channel};

verus! {

broadcast use vstd::std_specs::hash::group_hash_axioms;

/// A chunk from the connection with this id.
pub struct Message(pub u8, pub Vec<u8>);

/// What the broker does with a chunk read from the server's socket.
pub enum Dispatch {
    /// The read was empty: the server's stream has ended.
    EndOfStream,
    /// Send the chunk on the channel of the connection with this id.
    Deliver(u8, Vec<u8>),
    /// No connection has this id: call the not-found handler until it fails.
    /// The chunk is dropped.
    ClientNotFound(u8),
}

/// A broker that reads framed chunks from `socket` and hands each to the
/// connection its last byte names. `F` is what it calls when a chunk names
/// no registered connection (a `Box<dyn Fn() -> Result<(), ()>>` in use).
pub struct Broker<S, F> {
    map: HashMap<u8, Sender<Vec<u8>>>,
    handle: Sender<Message>,
    socket: S,
    client_not_found: F,
}

impl<S, F> Broker<S, F> {
    /// The registered connections, each with the channel that feeds it.
    pub closed spec fn clients(&self) -> Map<u8, Sender<Vec<u8>>> {
        self.map@
    }

    /// The socket of the server.
    pub closed spec fn socket_spec(&self) -> S {
        self.socket
    }

    /// The channel on which connections report their chunks.
    pub closed spec fn handle_spec(&self) -> Sender<Message> {
        self.handle
    }

    /// What the broker calls when a chunk names no registered connection.
    pub closed spec fn on_client_not_found(&self) -> F {
        self.client_not_found
    }

    /// A broker on `socket` with no connection registered. The receiving end
    /// of its report channel is dropped: nothing reads what connections report.
    pub fn new(socket: S, client_not_found: F) -> (broker: Self)
        ensures
            broker.clients() == Map::<u8, Sender<Vec<u8>>>::empty(),
            broker.socket_spec() == socket,
            broker.on_client_not_found() == client_not_found,
    {
        let (sender, _receiver) = report_channel();
        Broker { map: HashMap::new(), handle: sender, socket, client_not_found }
    }

    /// Registers a new connection under the id 0, replacing any connection
    /// registered there, and gives back that id and the receiving end of the
    /// channel registered under it, on which the connection's chunks arrive.
    pub fn add_connection(&mut self) -> (res: Option<(u8, Receiver<Vec<u8>>)>)
        ensures
            res matches Some((id, receiver)) && id == 0 && channel_linked(
                final(self).clients()[0],
                receiver,
            ),
            final(self).clients().dom() == old(self).clients().dom().insert(0),
            forall|k: u8|
                k != 0 && #[trigger] old(self).clients().contains_key(k) ==> final(self).clients()[k]
                    == old(self).clients()[k],
            final(self).socket_spec() == old(self).socket_spec(),
            final(self).handle_spec() == old(self).handle_spec(),
            final(self).on_client_not_found() == old(self).on_client_not_found(),
    {
        let id: u8 = 0;
        let (sender, receiver) = byte_channel();
        self.map.insert(id, sender);
        proof {
            assert(final(self).clients().dom() =~= old(self).clients().dom().insert(0));
        }
        Some((id, receiver))
    }

    /// What a chunk read from the server's socket asks for: nothing more
    /// after an empty read; otherwise the last byte names the connection,
    /// which gets the rest if it is registered.
    pub fn dispatch(&self, chunk: Vec<u8>) -> (d: Dispatch)
        ensures
            match server_frame_parts(chunk@) {
                None => d is EndOfStream,
                Some((id, payload)) => if self.clients().contains_key(id) {
                    d matches Dispatch::Deliver(to, bytes) && to == id && bytes@ == payload
                } else {
                    d matches Dispatch::ClientNotFound(to) && to == id
                },
            },
            chunk@.len() == 0 ==> d is EndOfStream,
            chunk@.len() > 0 && self.clients().contains_key(chunk@[chunk@.len() - 1]) ==> (
            d matches Dispatch::Deliver(to, bytes) && to == chunk@[chunk@.len() - 1] && bytes@
                == chunk@.subrange(0, chunk@.len() - 1)),
            chunk@.len() > 0 && !self.clients().contains_key(chunk@[chunk@.len() - 1]) ==> (
            d matches Dispatch::ClientNotFound(to) && to == chunk@[chunk@.len() - 1]),
    {
        match parse_server_frame(chunk) {
            None => Dispatch::EndOfStream,
            Some((id, payload)) => {
                if self.map.contains_key(&id) {
                    Dispatch::Deliver(id, payload)
                } else {
                    Dispatch::ClientNotFound(id)
                }
            },
        }
    }

    /// The channel of the connection with this id, if one is registered.
    pub fn client(&self, id: u8) -> (channel: Option<&Sender<Vec<u8>>>)
        ensures
            match channel {
                Some(c) => self.clients().contains_key(id) && *c == self.clients()[id],
                None => !self.clients().contains_key(id),
            },
    {
        self.map.get(&id)
    }

    /// The channel on which connections report their chunks.
    pub fn handle(&self) -> (handle: &Sender<Message>)
        ensures
            *handle == self.handle_spec(),
    {
        &self.handle
    }

    /// The socket of the server, to read from.
    pub fn socket_mut(&mut self) -> (socket: &mut S)
        ensures
            *socket == old(self).socket_spec(),
            final(self).socket_spec() == *final(socket),
            final(self).clients() == old(self).clients(),
            final(self).handle_spec() == old(self).handle_spec(),
            final(self).on_client_not_found() == old(self).on_client_not_found(),
    {
        &mut self.socket
    }

    /// What the broker calls when a chunk names no registered connection.
    pub fn client_not_found(&self) -> (f: &F)
        ensures
            *f == self.on_client_not_found(),
    {
        &self.client_not_found
    }
}

/// Reads the chunks of one connection and reports them, tagged with its id.
pub struct IncomingHandler<S> {
    socket: S,
    server_handle: Sender<Message>,
    id: u8,
}

impl<S> IncomingHandler<S> {
    /// The id of the connection.
    pub closed spec fn id_spec(&self) -> u8 {
        self.id
    }

    /// The socket of the connection.
    pub closed spec fn socket_spec(&self) -> S {
        self.socket
    }

    /// The channel to the broker.
    pub closed spec fn handle_spec(&self) -> Sender<Message> {
        self.server_handle
    }

    /// A reader of connection `id` on `socket` that reports on `server_handle`.
    pub fn new(socket: S, server_handle: Sender<Message>, id: u8) -> (handler: Self)
        ensures
            handler.id_spec() == id,
            handler.socket_spec() == socket,
            handler.handle_spec() == server_handle,
    {
        IncomingHandler { socket, server_handle, id }
    }

    /// What a chunk read from the connection becomes: an empty read ends the
    /// stream (`None`); otherwise the chunk, tagged with the connection's id.
    pub fn on_chunk(&self, chunk: Vec<u8>) -> (msg: Option<Message>)
        ensures
            chunk@.len() == 0 ==> msg is None,
            chunk@.len() > 0 ==> (msg matches Some(Message(from, bytes)) && from == self.id_spec()
                && bytes@ == chunk@),
    {
        if chunk.len() == 0 {
            None
        } else {
            Some(Message(self.id, chunk))
        }
    }

    /// The socket, to read from.
    pub fn socket_mut(&mut self) -> (socket: &mut S)
        ensures
            *socket == old(self).socket_spec(),
            final(self).socket_spec() == *final(socket),
            final(self).id_spec() == old(self).id_spec(),
            final(self).handle_spec() == old(self).handle_spec(),
    {
        &mut self.socket
    }

    /// The channel to the broker.
    pub fn server_handle(&self) -> (handle: &Sender<Message>)
        ensures
            *handle == self.handle_spec(),
    {
        &self.server_handle
    }
}

} // verus!
