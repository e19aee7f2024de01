//! The decisions the server and the client take about the messages they
//! receive; the sessions that carry them out perform the I/O.

use vstd::prelude::*;

use crate::message_body::MessageBody;
use crate::request::Request;
use crate::response::Response;

verus! {

/// What the server does with a message addressed to it.
#[derive(Debug)]
pub enum ServerAction {
    /// Forget the sender's connection.
    RemoveSender,
    /// Send this body back to the sender.
    Reply(MessageBody),
    /// The sender acknowledged its connection: nothing to send back.
    Nothing,
    /// The server has no handling for this body.
    Unsupported,
}

/// The server's answer to `body` from a sender, where `timestamp` is the
/// time the message was sent: a disconnect request removes the sender, a
/// ping is answered with its timestamp and an echo with its bytes, and a
/// connection acknowledgement needs no answer; the server handles nothing
/// else.
pub fn handle_request(body: MessageBody, timestamp: u64) -> (action: ServerAction)
    ensures
        body matches MessageBody::Request(Request::Disconnect) ==> action is RemoveSender,
        body matches MessageBody::Request(Request::Ping) ==> action == ServerAction::Reply(
            MessageBody::Response(Response::Ping(timestamp)),
        ),
        body matches MessageBody::Request(Request::Echo(bytes)) ==> action == ServerAction::Reply(
            MessageBody::Response(Response::Echo(bytes)),
        ),
        body matches MessageBody::Request(Request::ConnectAck) ==> action is Nothing,
        !(body matches MessageBody::Request(Request::Disconnect)) && !(body matches MessageBody::Request(
            Request::Ping,
        )) && !(body matches MessageBody::Request(Request::Echo(_))) && !(body matches MessageBody::Request(
            Request::ConnectAck,
        )) ==> action is Unsupported,
{
    match body {
        MessageBody::Request(Request::Disconnect) => ServerAction::RemoveSender,
        MessageBody::Request(Request::Ping) => ServerAction::Reply(
            MessageBody::Response(Response::Ping(timestamp)),
        ),
        MessageBody::Request(Request::Echo(bytes)) => ServerAction::Reply(
            MessageBody::Response(Response::Echo(bytes)),
        ),
        MessageBody::Request(Request::ConnectAck) => ServerAction::Nothing,
        _ => ServerAction::Unsupported,
    }
}

/// What the server does with the first message of a new connection.
#[derive(Debug, Clone, Copy, PartialEq, Eq)]
pub enum ConnectDecision {
    /// Register the sender and answer with success.
    Accept,
    /// The sender is already connected: answer with failure.
    Reject,
    /// The message is no connection request: close the connection.
    Ignore,
}

/// The server's decision on the first message of a connection: a connection
/// request is accepted unless its sender is already connected.
pub fn connect_decision(body: &MessageBody, already_connected: bool) -> (decision: ConnectDecision)
    ensures
        decision == if body matches MessageBody::Request(Request::Connect) {
            if already_connected {
                ConnectDecision::Reject
            } else {
                ConnectDecision::Accept
            }
        } else {
            ConnectDecision::Ignore
        },
{
    match body {
        MessageBody::Request(Request::Connect) => {
            if already_connected {
                ConnectDecision::Reject
            } else {
                ConnectDecision::Accept
            }
        },
        _ => ConnectDecision::Ignore,
    }
}

impl ConnectDecision {
    /// The answer sent to the client: success on acceptance, failure on
    /// rejection, nothing otherwise.
    pub fn reply(&self) -> (body: Option<MessageBody>)
        ensures
            *self == ConnectDecision::Accept ==> body == Some(
                MessageBody::Response(Response::ConnectSuccess),
            ),
            *self == ConnectDecision::Reject ==> body == Some(
                MessageBody::Response(Response::ConnectFail),
            ),
            *self == ConnectDecision::Ignore ==> body is None,
    {
        match self {
            ConnectDecision::Accept => Some(MessageBody::Response(Response::ConnectSuccess)),
            ConnectDecision::Reject => Some(MessageBody::Response(Response::ConnectFail)),
            ConnectDecision::Ignore => None,
        }
    }
}

/// Where the server sends a message from a connected client.
#[derive(Debug, Clone, Copy, PartialEq, Eq)]
pub enum Route {
    /// Pass the message on to its destination.
    Forward,
    /// Tell the sender that the destination is not connected.
    UserNotFound,
    /// Drop the message.
    Drop,
}

/// Routes a message: one without a destination is dropped; one whose
/// destination is connected is forwarded; otherwise the sender, when still
/// connected, learns that the destination was not found.
pub fn route(has_destination: bool, destination_connected: bool, source_connected: bool) -> (route: Route)
    ensures
        route == if !has_destination {
            Route::Drop
        } else if destination_connected {
            Route::Forward
        } else if source_connected {
            Route::UserNotFound
        } else {
            Route::Drop
        },
{
    if has_destination {
        if destination_connected {
            Route::Forward
        } else if source_connected {
            Route::UserNotFound
        } else {
            Route::Drop
        }
    } else {
        Route::Drop
    }
}

/// The client's state while it waits for the server to answer its
/// connection request.
#[derive(Debug, Clone, Copy, PartialEq, Eq)]
pub enum HandshakeStep {
    /// The server accepted the connection.
    Authenticated,
    /// The server refused the connection.
    Rejected,
    /// Keep waiting for the answer.
    Waiting,
}

/// The client's reading of a message received during the handshake.
pub fn handshake_step(body: &MessageBody) -> (step: HandshakeStep)
    ensures
        step == if body matches MessageBody::Response(Response::ConnectSuccess) {
            HandshakeStep::Authenticated
        } else if body matches MessageBody::Response(Response::ConnectFail) {
            HandshakeStep::Rejected
        } else {
            HandshakeStep::Waiting
        },
{
    match body {
        MessageBody::Response(Response::ConnectSuccess) => HandshakeStep::Authenticated,
        MessageBody::Response(Response::ConnectFail) => HandshakeStep::Rejected,
        _ => HandshakeStep::Waiting,
    }
}

impl HandshakeStep {
    /// What the client sends back: an acknowledgement once the server has
    /// accepted the connection, nothing otherwise.
    pub fn reply(&self) -> (body: Option<MessageBody>)
        ensures
            *self == HandshakeStep::Authenticated ==> body == Some(
                MessageBody::Request(Request::ConnectAck),
            ),
            *self != HandshakeStep::Authenticated ==> body is None,
    {
        match self {
            HandshakeStep::Authenticated => Some(MessageBody::Request(Request::ConnectAck)),
            _ => None,
        }
    }
}

/// Whether the client passes a received message on to its core: responses
/// from the server, and text from another user; the client handles no other
/// message.
pub fn client_accepts(body: &MessageBody, from_user: bool) -> (accepted: bool)
    ensures
        accepted == (body is Response || (body is Text && from_user)),
{
    match body {
        MessageBody::Response(_) => true,
        MessageBody::Text(_) => from_user,
        _ => false,
    }
}

} // verus!

verus! {

/// A message body with its endpoints, named by their bytes.
#[derive(Debug)]
pub struct Addressed {
    pub source: Vec<u8>,
    pub destination: Vec<u8>,
    pub body: MessageBody,
}

/// The name of the server, the bytes of `SERVER_NODE`.
pub open spec fn server_name() -> Seq<u8> {
    seq![1u8, 0u8]
}

/// A message from the server to `sender` carrying `body`.
pub fn server_reply(sender: &[u8], body: MessageBody) -> (reply: Addressed)
    ensures
        reply.source@ == server_name(),
        reply.destination@ == sender@,
        reply.body == body,
{
    let source: Vec<u8> = vec![1u8, 0u8];
    assert(source@ =~= server_name());
    Addressed { source, destination: vstd::slice::slice_to_vec(sender), body }
}

/// A message from the client `user` to the server carrying `body`.
pub fn to_server(user: &[u8], body: MessageBody) -> (message: Addressed)
    ensures
        message.source@ == user@,
        message.destination@ == server_name(),
        message.body == body,
{
    let destination: Vec<u8> = vec![1u8, 0u8];
    assert(destination@ =~= server_name());
    Addressed { source: vstd::slice::slice_to_vec(user), destination, body }
}

} // verus!
