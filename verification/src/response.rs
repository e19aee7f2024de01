//! Responses the server sends to a client.

use vstd::prelude::*;

use crate::node::Node;

verus! {

/// A response from the server.
#[derive(Clone, Debug)]
pub enum Response {
    UserID(u16),
    ConnectSuccess,
    ConnectFail,
    /// The bytes of an echo request, sent back.
    Echo(Vec<u8>),
    /// The timestamp of the ping request being answered.
    Ping(u64),
    /// The destination of a message is not connected.
    UserNotFound(Node),
}

} // verus!
