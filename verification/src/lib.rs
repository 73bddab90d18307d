//! A broker that multiplexes many client byte streams over one server
//! stream. Every chunk that travels to the server carries the id of the
//! client it came from as its last byte; every chunk that comes back from
//! the server names, by its last byte, the client it is meant for.
//!
//! The crate holds the decisions of the broker, verified: how chunks are
//! framed and unframed, how the broker routes what it receives, how clients
//! are numbered, and which connection of a relay plays the application.
//! Sockets, channels and tasks are driven by the code around it.

pub mod broker;
pub mod client;
pub mod frame;
pub mod ids;
pub mod routing;
pub mod relay;
pub mod server;
pub mod trusted;
pub mod wsframe;

pub use frame::{frame_for_server, parse_server_frame};
pub use routing::{Action, Broker, Message};
pub use client::{ClientReceiver, ClientSender};
pub use server::ServerReceiver;
