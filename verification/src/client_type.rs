//! The role a client declares in its handshake.

use vstd::prelude::*;

verus! {

/// The role of a connected client, declared by the first frame it sends.
///
/// On the wire the role is the `method` member of the handshake object:
/// `"subscribe"` for subscribers, `"publish"` for publishers.
#[derive(Debug, PartialEq, Eq, Structural, Clone, Copy)]
pub enum ClientType {
    Subscriber,
    Publisher,
}

} // verus!
