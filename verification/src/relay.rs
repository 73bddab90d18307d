//! The relay between websocket connections: the first connection is the
//! application, every later one a client, and messages between them are
//! framed with the client's id as their last byte.

use std::sync::mpsc::Sender;
use vstd::prelude::*;

use crate::frame::{server_frame, server_frame_parts};
use crate::wsframe::Frame;

verus! {

/// A chunk for or from the client with this id.
#[derive(Debug)]
pub struct Msg {
    pub id: u8,
    pub payload: Vec<u8>,
}

impl Msg {
    /// The bytes of the message on the wire: the payload, then the id.
    pub fn to_bytes(self) -> (bytes: Vec<u8>)
        ensures
            bytes@ == server_frame(self.id, self.payload@),
            bytes@.len() == self.payload@.len() + 1,
            bytes@[self.payload@.len() as int] == self.id,
            bytes@.subrange(0, self.payload@.len() as int) == self.payload@,
    {
        let mut payload = self.payload;
        payload.push(self.id);
        payload
    }

    /// The message whose bytes these are: the last byte is the id, the rest
    /// the payload. There must be at least one byte.
    pub fn from_bytes(bytes: Vec<u8>) -> (msg: Self)
        requires
            bytes@.len() > 0,
        ensures
            server_frame_parts(bytes@) == Some((msg.id, msg.payload@)),
            msg.id == bytes@[bytes@.len() - 1],
            msg.payload@ == bytes@.subrange(0, bytes@.len() - 1),
    {
        let mut payload = bytes;
        let id = payload.pop().unwrap();
        Msg { id, payload }
    }
}

/// Reading back the bytes of a message gives the message.
pub proof fn lemma_msg_bytes_round_trip(id: u8, payload: Seq<u8>)
    ensures
        server_frame_parts(server_frame(id, payload)) == Some((id, payload)),
{
    crate::frame::lemma_parse_after_frame(id, payload);
}

/// The part a new connection plays in the relay.
#[derive(Debug, PartialEq, Eq, Structural)]
pub enum Role {
    /// The application that all clients talk to.
    Application,
    /// A client of the application.
    Client,
}

/// The relay's state: the link to the application, once one has connected.
pub struct State<C>(Option<C>);

/// One connection step: the application link before and the link the new
/// connection would offer give the application link after and the part the
/// new connection plays.
pub open spec fn handle_spec<C>(application: Option<C>, link: C) -> (Option<C>, Role) {
    match application {
        Some(app) => (Some(app), Role::Client),
        None => (Some(link), Role::Application),
    }
}

/// One connection step: with no application yet, the new connection becomes
/// the application and its link is kept; otherwise it is a client and the
/// application's link stays as it was.
pub proof fn lemma_handle_step<C>(application: Option<C>, link: C)
    ensures
        application is None ==> handle_spec(application, link).1 == Role::Application
            && handle_spec(application, link).0 == Some(link),
        application is Some ==> handle_spec(application, link).1 == Role::Client
            && handle_spec(application, link).0 == application,
{
}

/// A run of connection steps, one per link, in order: the application link
/// after the run and the part each connection plays.
pub open spec fn handle_all<C>(application: Option<C>, links: Seq<C>) -> (Option<C>, Seq<Role>)
    decreases links.len(),
{
    if links.len() == 0 {
        (application, Seq::empty())
    } else {
        let (before, roles) = handle_all(application, links.drop_last());
        let (after, role) = handle_spec(before, links.last());
        (after, roles.push(role))
    }
}

impl<C> State<C> {
    /// The link to the application, once one has connected.
    pub closed spec fn application_spec(&self) -> Option<C> {
        self.0
    }

    /// A relay that no connection has reached yet.
    pub fn new() -> (state: Self)
        ensures
            state.application_spec() is None,
    {
        State(None)
    }

    /// Admits a connection, which offers `link` for the case that it is the
    /// application: the first connection is the application and its link is
    /// kept; every later one is a client and its link is dropped.
    pub fn handle(&mut self, link: C) -> (role: Role)
        ensures
            (final(self).application_spec(), role) == handle_spec(old(self).application_spec(), link),
            old(self).application_spec() is None ==> role == Role::Application
                && final(self).application_spec() == Some(link),
            old(self).application_spec() is Some ==> role == Role::Client
                && final(self).application_spec() == old(self).application_spec(),
    {
        match &self.0 {
            Some(_) => Role::Client,
            None => {
                self.0 = Some(link);
                Role::Application
            },
        }
    }

    /// The part the next connection will play: a client once an application
    /// is connected, else the application.
    pub fn next_role(&self) -> (role: Role)
        ensures
            role == (if self.application_spec() is Some { Role::Client } else { Role::Application }),
    {
        match &self.0 {
            Some(_) => Role::Client,
            None => Role::Application,
        }
    }

    /// The link to the application, to use it, once one has connected.
    pub fn application_mut(&mut self) -> (link: Option<&mut C>)
        ensures
            old(self).application_spec() is None ==> link is None && final(self).application_spec() is None,
            old(self).application_spec() is Some ==> link is Some,
            link matches Some(l) ==> *l == old(self).application_spec()->0
                && final(self).application_spec() == Some(*final(l)),
    {
        match &mut self.0 {
            Some(app) => Some(app),
            None => None,
        }
    }

    /// The link to the application, once one has connected.
    pub fn application(&self) -> (link: Option<&C>)
        ensures
            match self.application_spec() {
                Some(app) => link matches Some(l) && *l == app,
                None => link is None,
            },
    {
        match &self.0 {
            Some(app) => Some(app),
            None => None,
        }
    }
}

/// In any run of connections, the first is the application and keeps its
/// link for good, and every later connection is a client.
pub proof fn lemma_single_application<C>(links: Seq<C>)
    requires
        links.len() > 0,
    ensures
        handle_all(None, links).0 == Some(links[0]),
        handle_all(None, links).1.len() == links.len(),
        handle_all(None, links).1[0] == Role::Application,
        forall|i: int| 0 < i < links.len() ==> #[trigger] handle_all(None, links).1[i] == Role::Client,
    decreases links.len(),
{
    if links.len() > 1 {
        let prefix = links.drop_last();
        lemma_single_application(prefix);
        assert(prefix[0] == links[0]);
    } else {
        assert(links.drop_last().len() == 0);
        assert(handle_all(None, links.drop_last()) == (None::<C>, Seq::<Role>::empty()));
        assert(links.last() == links[0]);
    }
}

/// Once an application is connected, every connection is a client and the
/// application's link stays.
pub proof fn lemma_clients_after_application<C>(app: C, links: Seq<C>)
    ensures
        handle_all(Some(app), links).0 == Some(app),
        handle_all(Some(app), links).1.len() == links.len(),
        forall|i: int| 0 <= i < links.len() ==> #[trigger] handle_all(Some(app), links).1[i] == Role::Client,
    decreases links.len(),
{
    if links.len() > 0 {
        lemma_clients_after_application(app, links.drop_last());
    }
}

/// The application's side of the relay: turns what the application sends
/// into messages for clients.
pub struct ServerReceiver {
    writer: Sender<Msg>,
}

impl ServerReceiver {
    /// The channel the messages go to.
    pub closed spec fn writer_spec(&self) -> Sender<Msg> {
        self.writer
    }

    /// A receiver that hands its messages to `writer`.
    pub fn new(writer: Sender<Msg>) -> (receiver: Self)
        ensures
            receiver.writer_spec() == writer,
    {
        ServerReceiver { writer }
    }

    /// What a websocket message from the application becomes: a binary
    /// message is read as the bytes of a `Msg` (it must not be empty); any
    /// other message is ignored.
    pub fn on_message(&self, frame: Frame) -> (msg: Option<Msg>)
        requires
            frame matches Frame::Binary(bytes) ==> bytes@.len() > 0,
        ensures
            match frame {
                Frame::Binary(bytes) => msg matches Some(m) && server_frame_parts(bytes@) == Some(
                    (m.id, m.payload@),
                ),
                _ => msg is None,
            },
            frame matches Frame::Binary(bytes) ==> (msg matches Some(m) && m.id == bytes@[bytes@.len()
                - 1] && m.payload@ == bytes@.subrange(0, bytes@.len() - 1)),
    {
        match frame {
            Frame::Binary(bytes) => Some(Msg::from_bytes(bytes)),
            _ => None,
        }
    }

    /// The channel the messages go to.
    pub fn writer(&self) -> (writer: &Sender<Msg>)
        ensures
            *writer == self.writer_spec(),
    {
        &self.writer
    }
}

/// A client's side of the relay: tags what the client sends with its id.
pub struct ClientReceiver {
    writer: Sender<Msg>,
    id: u8,
}

impl ClientReceiver {
    /// The channel the messages go to.
    pub closed spec fn writer_spec(&self) -> Sender<Msg> {
        self.writer
    }

    /// The id that the client's messages carry.
    pub closed spec fn id_spec(&self) -> u8 {
        self.id
    }

    /// A receiver that hands its messages to `writer`; every client is
    /// numbered 0.
    pub fn new(writer: Sender<Msg>) -> (receiver: Self)
        ensures
            receiver.writer_spec() == writer,
            receiver.id_spec() == 0,
    {
        ClientReceiver { writer, id: 0 }
    }

    /// What a websocket message from the client becomes: a binary message
    /// becomes a `Msg` with the client's id; any other message is ignored.
    pub fn on_message(&self, frame: Frame) -> (msg: Option<Msg>)
        ensures
            match frame {
                Frame::Binary(bytes) => msg matches Some(m) && m.id == self.id_spec() && m.payload@
                    == bytes@,
                _ => msg is None,
            },
    {
        match frame {
            Frame::Binary(bytes) => Some(Msg { id: self.id, payload: bytes }),
            _ => None,
        }
    }

    /// The channel the messages go to.
    pub fn writer(&self) -> (writer: &Sender<Msg>)
        ensures
            *writer == self.writer_spec(),
    {
        &self.writer
    }
}

/// The websocket message sent for each queued `Msg`: the text "message",
/// whatever the `Msg` holds.
pub fn outgoing_frame(msg: &Msg) -> (frame: Frame)
    ensures
        frame matches Frame::Text(text) && text@ == "message"@,
{
    broadcast use vstd::string::group_string_axioms;

    Frame::Text("message".to_string())
}

} // verus!
