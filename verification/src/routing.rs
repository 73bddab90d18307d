//! The broker's routing: what it does with each message that reaches it.

use std::collections::HashMap;
use std::marker::PhantomData;
use std::sync::mpsc::Receiver;
use std::sync::mpsc::Sender;
use vstd::prelude::*;

use crate::frame::{frame_for_server, server_frame, server_frame_parts};

verus! {

broadcast use vstd::std_specs::hash::group_hash_axioms;

/// What reaches the broker.
pub enum Message {
    /// A chunk from the server for the client with this id.
    ToClient(u8, Vec<u8>),
    /// A chunk from the client with this id for the server.
    ToServer(u8, Vec<u8>),
    /// A new client with this id, and the channel that feeds its socket.
    ConnectClient(u8, Sender<Vec<u8>>),
}

/// What the broker asks to be done after routing a message.
pub enum Action {
    /// Send the chunk on the channel of the registered client with this id.
    Deliver(u8, Vec<u8>),
    /// No client has this id: connect a new one under it. The chunk that
    /// asked for it is dropped.
    CreateClient(u8),
    /// Write these bytes to the server.
    WriteToServer(Vec<u8>),
    /// The client with this id was registered.
    Registered(u8),
    /// A client with this id was already registered; the new channel is
    /// dropped and the first one stays.
    AlreadyConnected(u8),
}

/// An `Action` with its chunks taken as byte sequences.
pub enum ActionView {
    Deliver(u8, Seq<u8>),
    CreateClient(u8),
    WriteToServer(Seq<u8>),
    Registered(u8),
    AlreadyConnected(u8),
}

impl View for Action {
    type V = ActionView;

    open spec fn view(&self) -> ActionView {
        match self {
            Action::Deliver(id, chunk) => ActionView::Deliver(*id, chunk@),
            Action::CreateClient(id) => ActionView::CreateClient(*id),
            Action::WriteToServer(bytes) => ActionView::WriteToServer(bytes@),
            Action::Registered(id) => ActionView::Registered(*id),
            Action::AlreadyConnected(id) => ActionView::AlreadyConnected(*id),
        }
    }
}

/// One routing step: the registered clients before and the message give the
/// registered clients after and the action.
pub open spec fn route_spec(clients: Map<u8, Sender<Vec<u8>>>, msg: Message) -> (
    Map<u8, Sender<Vec<u8>>>,
    ActionView,
) {
    match msg {
        Message::ToClient(id, chunk) => {
            if clients.contains_key(id) {
                (clients, ActionView::Deliver(id, chunk@))
            } else {
                (clients, ActionView::CreateClient(id))
            }
        },
        Message::ToServer(id, chunk) => (clients, ActionView::WriteToServer(server_frame(id, chunk@))),
        Message::ConnectClient(id, channel) => {
            if clients.contains_key(id) {
                (clients, ActionView::AlreadyConnected(id))
            } else {
                (clients.insert(id, channel), ActionView::Registered(id))
            }
        },
    }
}

/// The broker between one server connection and many clients.
pub struct Broker<F, R, W> {
    map: HashMap<u8, Sender<Vec<u8>>>,
    server_write: Sender<Vec<u8>>,
    handle: Sender<Message>,
    receiver: Receiver<Message>,
    client_not_found: F,
    phantom_r: PhantomData<R>,
    phantom_w: PhantomData<W>,
}

impl<F, R, W> Broker<F, R, W> {
    /// The registered clients, each with the channel that feeds its socket.
    pub closed spec fn clients(&self) -> Map<u8, Sender<Vec<u8>>> {
        self.map@
    }

    /// The channel whose bytes go to the server.
    pub closed spec fn server_channel(&self) -> Sender<Vec<u8>> {
        self.server_write
    }

    /// The channel on which messages reach the broker.
    pub closed spec fn message_channel(&self) -> Sender<Message> {
        self.handle
    }

    /// The receiving end of the messages.
    pub closed spec fn message_receiver(&self) -> Receiver<Message> {
        self.receiver
    }

    /// What the broker calls to connect a client that a chunk asked for.
    pub closed spec fn on_client_not_found(&self) -> F {
        self.client_not_found
    }

    /// A broker with no client registered.
    pub fn new(
        server_write: Sender<Vec<u8>>,
        handle: Sender<Message>,
        receiver: Receiver<Message>,
        client_not_found: F,
    ) -> (broker: Self)
        ensures
            broker.clients() == Map::<u8, Sender<Vec<u8>>>::empty(),
            broker.server_channel() == server_write,
            broker.message_channel() == handle,
            broker.message_receiver() == receiver,
            broker.on_client_not_found() == client_not_found,
    {
        Broker {
            map: HashMap::new(),
            server_write,
            handle,
            receiver,
            client_not_found,
            phantom_r: PhantomData,
            phantom_w: PhantomData,
        }
    }

    /// Routes one message: a chunk for a registered client is delivered to
    /// it, a chunk for an unknown id asks for a new client under that id, a
    /// chunk from a client is framed with its id for the server, and a new
    /// client is registered unless its id is taken.
    pub fn route(&mut self, msg: Message) -> (action: Action)
        ensures
            (final(self).clients(), action@) == route_spec(old(self).clients(), msg),
            msg matches Message::ToServer(id, chunk) ==> (action matches Action::WriteToServer(bytes)
                && bytes@.len() == chunk@.len() + 1 && bytes@[chunk@.len() as int] == id
                && bytes@.subrange(0, chunk@.len() as int) == chunk@ && final(self).clients()
                == old(self).clients()),
            msg matches Message::ToClient(id, chunk) ==> final(self).clients() == old(self).clients()
                && if old(self).clients().contains_key(id) {
                action matches Action::Deliver(to, bytes) && to == id && bytes@ == chunk@
            } else {
                action matches Action::CreateClient(to) && to == id
            },
            msg matches Message::ConnectClient(id, channel) ==> if old(self).clients().contains_key(id) {
                action matches Action::AlreadyConnected(to) && to == id && final(self).clients()
                    == old(self).clients()
            } else {
                action matches Action::Registered(to) && to == id && final(self).clients()
                    == old(self).clients().insert(id, channel)
            },
            final(self).server_channel() == old(self).server_channel(),
            final(self).message_channel() == old(self).message_channel(),
            final(self).message_receiver() == old(self).message_receiver(),
            final(self).on_client_not_found() == old(self).on_client_not_found(),
    {
        match msg {
            Message::ToClient(id, chunk) => {
                if self.map.contains_key(&id) {
                    Action::Deliver(id, chunk)
                } else {
                    Action::CreateClient(id)
                }
            },
            Message::ToServer(id, chunk) => Action::WriteToServer(frame_for_server(id, chunk)),
            Message::ConnectClient(id, channel) => {
                if self.map.contains_key(&id) {
                    Action::AlreadyConnected(id)
                } else {
                    self.map.insert(id, channel);
                    Action::Registered(id)
                }
            },
        }
    }

    /// The channel of the client with this id, if one is registered.
    pub fn client(&self, id: u8) -> (channel: Option<&Sender<Vec<u8>>>)
        ensures
            match channel {
                Some(c) => self.clients().contains_key(id) && *c == self.clients()[id],
                None => !self.clients().contains_key(id),
            },
    {
        self.map.get(&id)
    }

    /// The channel whose bytes go to the server.
    pub fn server_write(&self) -> (channel: &Sender<Vec<u8>>)
        ensures
            *channel == self.server_channel(),
    {
        &self.server_write
    }

    /// The channel on which messages reach the broker.
    pub fn handle(&self) -> (channel: &Sender<Message>)
        ensures
            *channel == self.message_channel(),
    {
        &self.handle
    }

    /// The receiving end of the messages.
    pub fn receiver(&self) -> (receiver: &Receiver<Message>)
        ensures
            *receiver == self.message_receiver(),
    {
        &self.receiver
    }

    /// What the broker calls to connect a client that a chunk asked for.
    pub fn client_not_found(&mut self) -> (f: &mut F)
        ensures
            *f == old(self).on_client_not_found(),
            final(self).on_client_not_found() == *final(f),
            final(self).clients() == old(self).clients(),
            final(self).server_channel() == old(self).server_channel(),
            final(self).message_channel() == old(self).message_channel(),
            final(self).message_receiver() == old(self).message_receiver(),
    {
        &mut self.client_not_found
    }
}

/// Routing never forgets a client and never replaces the channel of a
/// registered one; the only client it adds is the one a `ConnectClient`
/// message names.
pub proof fn lemma_registrations_persist(clients: Map<u8, Sender<Vec<u8>>>, msg: Message)
    ensures
        forall|id: u8|
            #[trigger] clients.contains_key(id) ==> route_spec(clients, msg).0.contains_key(id)
                && route_spec(clients, msg).0[id] == clients[id],
        forall|id: u8|
            #[trigger] route_spec(clients, msg).0.contains_key(id) ==> clients.contains_key(id)
                || (msg matches Message::ConnectClient(new_id, _) && new_id == id),
{
}

/// Each routing step in terms of the message alone: a chunk for the server
/// becomes the chunk followed by exactly one byte, the sender's id; a chunk
/// for a client is delivered, unchanged, only to a registered client; a new
/// client is added only under a free id.
pub proof fn lemma_route_step(clients: Map<u8, Sender<Vec<u8>>>, msg: Message)
    ensures
        msg matches Message::ToServer(id, chunk) ==> (route_spec(clients, msg).1 matches ActionView::WriteToServer(bytes)
            && bytes.len() == chunk@.len() + 1 && bytes[chunk@.len() as int] == id && (forall|i: int|
            0 <= i < chunk@.len() ==> #[trigger] bytes[i] == chunk@[i]) && route_spec(clients, msg).0
            == clients),
        msg matches Message::ToClient(id, chunk) ==> route_spec(clients, msg).0 == clients && (
        clients.contains_key(id) <==> route_spec(clients, msg).1 == ActionView::Deliver(id, chunk@))
            && (!clients.contains_key(id) <==> route_spec(clients, msg).1 == ActionView::CreateClient(id)),
        msg matches Message::ConnectClient(id, channel) ==> (clients.contains_key(id) ==> route_spec(clients, msg)
            == (clients, ActionView::AlreadyConnected(id))) && (!clients.contains_key(id)
            ==> route_spec(clients, msg).0.contains_key(id) && route_spec(clients, msg).0[id] == channel
            && route_spec(clients, msg).0.dom() == clients.dom().insert(id) && route_spec(clients, msg).1
            == ActionView::Registered(id)),
{
    if let Message::ToServer(id, chunk) = msg {
        crate::frame::lemma_server_frame_layout(id, chunk@);
    }
}

/// A run of routing steps, one per message, in order: the registered
/// clients after the run and the action of each step.
pub open spec fn route_all(clients: Map<u8, Sender<Vec<u8>>>, msgs: Seq<Message>) -> (
    Map<u8, Sender<Vec<u8>>>,
    Seq<ActionView>,
)
    decreases msgs.len(),
{
    if msgs.len() == 0 {
        (clients, Seq::empty())
    } else {
        let (before, actions) = route_all(clients, msgs.drop_last());
        let (after, action) = route_spec(before, msgs.last());
        (after, actions.push(action))
    }
}

/// Over any run of messages, no client is forgotten and no registered
/// channel is replaced; every client registered at the end was registered at
/// the start or named by a `ConnectClient` message of the run; and the run
/// gives one action per message.
pub proof fn lemma_registrations_persist_over_run(
    clients: Map<u8, Sender<Vec<u8>>>,
    msgs: Seq<Message>,
)
    ensures
        route_all(clients, msgs).1.len() == msgs.len(),
        forall|id: u8|
            #[trigger] clients.contains_key(id) ==> route_all(clients, msgs).0.contains_key(id)
                && route_all(clients, msgs).0[id] == clients[id],
        forall|id: u8|
            #[trigger] route_all(clients, msgs).0.contains_key(id) ==> clients.contains_key(id)
                || exists|i: int|
                0 <= i < msgs.len() && (#[trigger] msgs[i] matches Message::ConnectClient(
                    new_id,
                    _,
                ) && new_id == id),
    decreases msgs.len(),
{
    if msgs.len() > 0 {
        let prefix = msgs.drop_last();
        lemma_registrations_persist_over_run(clients, prefix);
        let before = route_all(clients, prefix).0;
        lemma_registrations_persist(before, msgs.last());
        assert forall|id: u8| #[trigger]
            route_all(clients, msgs).0.contains_key(id) implies clients.contains_key(id)
            || exists|i: int|
            0 <= i < msgs.len() && (#[trigger] msgs[i] matches Message::ConnectClient(
                new_id,
                _,
            ) && new_id == id) by {
            if before.contains_key(id) {
                if !clients.contains_key(id) {
                    let i = choose|i: int|
                        0 <= i < prefix.len() && (#[trigger] prefix[i] matches Message::ConnectClient(
                            new_id,
                            _,
                        ) && new_id == id);
                    assert(msgs[i] == prefix[i]);
                }
            } else {
                assert(msgs[msgs.len() - 1] == msgs.last());
            }
        }
    }
}

/// Once a client is registered under a free id, every chunk for that id is
/// delivered to it, unchanged, on the channel it registered.
pub proof fn lemma_delivery_after_registration(
    clients: Map<u8, Sender<Vec<u8>>>,
    id: u8,
    channel: Sender<Vec<u8>>,
    chunk: Vec<u8>,
)
    requires
        !clients.contains_key(id),
    ensures
        route_spec(clients, Message::ConnectClient(id, channel)).1 == ActionView::Registered(id),
        ({
            let registered = route_spec(clients, Message::ConnectClient(id, channel)).0;
            &&& registered[id] == channel
            &&& route_spec(registered, Message::ToClient(id, chunk)) == (
                registered,
                ActionView::Deliver(id, chunk@),
            )
        }),
{
}

/// A second registration under a taken id changes nothing.
pub proof fn lemma_first_registration_wins(
    clients: Map<u8, Sender<Vec<u8>>>,
    id: u8,
    channel: Sender<Vec<u8>>,
)
    requires
        clients.contains_key(id),
    ensures
        route_spec(clients, Message::ConnectClient(id, channel)) == (
            clients,
            ActionView::AlreadyConnected(id),
        ),
{
}

/// What a client sends reaches the server framed so that the server reads
/// back exactly the client's id and its chunk; and when the server answers
/// with such a frame, the broker hands the chunk to that client if it is
/// registered, and asks for it otherwise.
pub proof fn lemma_round_trip_through_server(
    clients: Map<u8, Sender<Vec<u8>>>,
    id: u8,
    chunk: Vec<u8>,
    answer: Vec<u8>,
)
    ensures
        route_spec(clients, Message::ToServer(id, chunk)) == (
            clients,
            ActionView::WriteToServer(server_frame(id, chunk@)),
        ),
        server_frame_parts(server_frame(id, chunk@)) == Some((id, chunk@)),
        answer@ == chunk@ ==> route_spec(clients, Message::ToClient(id, answer)).1 == if clients.contains_key(id) {
            ActionView::Deliver(id, chunk@)
        } else {
            ActionView::CreateClient(id)
        },
{
    crate::frame::lemma_parse_after_frame(id, chunk@);
}

} // verus!
