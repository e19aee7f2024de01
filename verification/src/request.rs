//! Requests a client sends to the server.

use vstd::prelude::*;

verus! {

/// A request from a client.
#[derive(Clone, Debug)]
pub enum Request {
    Connect,
    /// Acknowledges the server's acceptance of the connection, the last
    /// step of the handshake.
    ConnectAck,
    Disconnect,
    /// Asks the server to send the bytes back.
    Echo(Vec<u8>),
    Ping,
}

} // verus!
