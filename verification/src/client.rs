//! Clients of the broker, and the events their sessions react to.
//!
//! The outer connection layer performs the socket reads, writes and
//! probes, and reports each outcome here as a plain event; every
//! decision taken on an event is made (and verified) in this crate.

use crate::publisher::Publisher;
use crate::subscriber::Subscriber;
use vstd::prelude::*;

verus! {

/// Why establishing a client failed.
#[derive(Debug, PartialEq, Eq)]
pub enum ClientConnectionError {
    /// The handshake frame was malformed: not delimiter-terminated, or
    /// not a well-formed handshake object. Carries the offending bytes.
    UnexpectedMessage(Vec<u8>),
    /// The peer closed the connection before completing the handshake.
    Aborted,
    /// Some other transport failure while reading the handshake.
    ReaderError,
}

/// A client being served: one of the two session kinds.
pub enum Client {
    Subscriber(Subscriber),
    Publisher(Publisher),
}

/// Outcome of one delimited read from a connection.
pub enum ReadEvent {
    /// Bytes were read, up to and including the delimiter if one was
    /// found before the stream ended.
    Data(Vec<u8>),
    /// The peer closed cleanly: zero bytes were read.
    Closed,
    /// The read failed in a way that means a peer-initiated close.
    Aborted,
    /// The read failed for any other reason.
    Failed,
}

/// Outcome of writing one frame to a connection.
pub enum WriteOutcome {
    /// The write succeeded.
    Wrote,
    /// The write failed in a way that means a peer-initiated close.
    Aborted,
    /// The write failed for any other reason.
    Failed,
}

/// Outcome of a non-destructive liveness probe of a connection.
pub enum ProbeOutcome {
    /// The connection reported an explicit zero-length read: closed.
    Closed,
    /// Unread bytes are pending on the connection.
    Pending,
    /// The probe did not finish within its window.
    TimedOut,
    /// The probe itself failed, inconclusively.
    Failed,
}

/// Why a session ended other than by a clean disconnect.
#[derive(Debug, PartialEq, Eq, Structural, Clone, Copy)]
pub enum SessionError {
    /// A frame was not delimiter-terminated: the stream ended
    /// mid-message.
    MalformedFrame,
    /// The fan-out channel cannot serve this session: a publish found
    /// no subscriber at all, or a subscriber fell behind the retained
    /// window and frames were dropped for it.
    ChannelUnavailable,
    /// An unclassified transport failure, propagated.
    Transport,
}

/// What a session does after handling one event.
#[derive(Debug, PartialEq, Eq, Structural, Clone, Copy)]
pub enum SessionStep {
    /// Keep serving the connection.
    Continue,
    /// Terminate normally: the peer is gone.
    Done,
    /// Terminate with the given error.
    Failed(SessionError),
}

} // verus!
