//! A minimal topic-based publish/subscribe broker core.
//!
//! The broker keeps a registry of named topics; each topic is a bounded
//! fan-out channel of raw message frames. Publishers append frames, and
//! every subscriber owns an independent read cursor into the topic's
//! message history. All connection handling (sockets, timers, tasks) is
//! left to a thin outer layer; this crate holds the decisions: handshake
//! classification, the registry, the fan-out channel, and the two
//! per-client session state machines.

pub mod client;
pub mod client_type;
pub mod connection_message;
pub mod handshake;
pub mod laws;
pub mod publisher;
pub mod server_broker;
pub mod subscriber;
pub mod text;
pub mod topic;

pub use client::{
    Client, ClientConnectionError, ProbeOutcome, ReadEvent, SessionError, SessionStep,
    WriteOutcome,
};
pub use client_type::ClientType;
pub use connection_message::ConnectionMessage;
pub use publisher::Publisher;
pub use server_broker::ServerBroker;
pub use subscriber::{Subscriber, SubscriberPoll};
pub use topic::{RecvPoll, Topic};
