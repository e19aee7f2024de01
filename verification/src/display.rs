//! The text forms of messages and message bodies, as they are logged. The
//! fields appear as `Debug` writes them.

use vstd::prelude::*;
use vstd::string::StringExecFns;

use crate::communication_state_data::{CommunicationStateData, CommunicationStateDataView};
use crate::login_state_data::LoginStateData;
use crate::message::{Message, MessageView};
use crate::message_body::MessageBody;
use crate::message_data::{MessageData, MessageDataView};
use crate::node::node_debug_text;
use crate::request::Request;
use crate::response::Response;
use crate::source_or_destination::endpoint_debug_text;
use crate::text::{append_bytes_text, append_decimal, bytes_text, decimal_digits};
use crate::user::user_text;

verus! {

/// The text `VarUInt(5)` that `Debug` writes for a `VarUInt`.
pub open spec fn varuint_debug_text(v: u64) -> Seq<char> {
    "VarUInt("@ + decimal_digits(v as nat) + ")"@
}

/// The `Debug` text of login data.
pub open spec fn login_debug_text(l: LoginStateData) -> Seq<char> {
    match l {
        LoginStateData::RequestConnect => "RequestConnect"@,
        LoginStateData::RequestConnectAck => "RequestConnectAck"@,
    }
}

/// The `Debug` text of communication data.
pub open spec fn communication_debug_text(c: CommunicationStateDataView) -> Seq<char> {
    match c {
        CommunicationStateDataView::RequestDisconnect => "RequestDisconnect"@,
        CommunicationStateDataView::RequestPing => "RequestPing"@,
        CommunicationStateDataView::RequestEcho(e) => "RequestEcho("@ + bytes_text(e) + ")"@,
        CommunicationStateDataView::CommunicationText(t) => "CommunicationText("@ + bytes_text(t)
            + ")"@,
        CommunicationStateDataView::CommunicationFile(f) => "CommunicationFile("@ + bytes_text(f)
            + ")"@,
    }
}

/// The `Debug` text of message data.
pub open spec fn message_data_debug_text(d: MessageDataView) -> Seq<char> {
    match d {
        MessageDataView::LoginStateData(l) => "LoginStateData("@ + login_debug_text(l) + ")"@,
        MessageDataView::CommunicationStateData(c) => "CommunicationStateData("@
            + communication_debug_text(c) + ")"@,
    }
}

/// The text of a message:
/// `{ { Source: .. }, { Destination: .. }, { Data: .. }, { Timestamp: .. } }`.
pub open spec fn message_text(m: MessageView) -> Seq<char> {
    "{ { Source: "@ + endpoint_debug_text(m.source) + " }, { Destination: "@ + endpoint_debug_text(
        m.destination,
    ) + " }, { Data: "@ + message_data_debug_text(m.data) + " }, { Timestamp: "@
        + varuint_debug_text(m.timestamp) + " } }"@
}

/// Appends the `Debug` text of `data` to `text`.
fn append_message_data_debug(text: &mut String, data: &MessageData)
    ensures
        final(text)@ == old(text)@ + message_data_debug_text(data@),
{
    match data {
        MessageData::LoginStateData(l) => {
            text.append("LoginStateData(");
            match l {
                LoginStateData::RequestConnect => text.append("RequestConnect"),
                LoginStateData::RequestConnectAck => text.append("RequestConnectAck"),
            }
            text.append(")");
            assert(text@ =~= old(text)@ + message_data_debug_text(data@));
        },
        MessageData::CommunicationStateData(c) => {
            text.append("CommunicationStateData(");
            match c {
                CommunicationStateData::RequestDisconnect => text.append("RequestDisconnect"),
                CommunicationStateData::RequestPing => text.append("RequestPing"),
                CommunicationStateData::RequestEcho(e) => {
                    text.append("RequestEcho(");
                    append_bytes_text(text, e.as_slice());
                    text.append(")");
                },
                CommunicationStateData::CommunicationText(t) => {
                    text.append("CommunicationText(");
                    append_bytes_text(text, t.as_slice());
                    text.append(")");
                },
                CommunicationStateData::CommunicationFile(f) => {
                    text.append("CommunicationFile(");
                    append_bytes_text(text, f.as_slice());
                    text.append(")");
                },
            }
            text.append(")");
            assert(text@ =~= old(text)@ + message_data_debug_text(data@));
        },
    }
}

impl Message {
    /// The text of the message, as in
    /// `{ { Source: SourceOrDestination([97]) }, { Destination: SourceOrDestination([]) },
    /// { Data: LoginStateData(RequestConnect) }, { Timestamp: VarUInt(0) } }`.
    pub fn to_string(&self) -> (text: String)
        ensures
            text@ == message_text(self@),
    {
        let mut text = String::from_str("{ { Source: ");
        self.source.append_debug(&mut text);
        text.append(" }, { Destination: ");
        self.destination.append_debug(&mut text);
        text.append(" }, { Data: ");
        append_message_data_debug(&mut text, &self.data);
        text.append(" }, { Timestamp: ");
        text.append("VarUInt(");
        append_decimal(&mut text, self.timestamp.0);
        text.append(")");
        text.append(" } }");
        assert(text@ =~= message_text(self@));
        text
    }
}

/// The `Debug` text of a request.
pub open spec fn request_debug_text(r: &Request) -> Seq<char> {
    match r {
        Request::Connect => "Connect"@,
        Request::ConnectAck => "ConnectAck"@,
        Request::Disconnect => "Disconnect"@,
        Request::Echo(e) => "Echo("@ + bytes_text(e@) + ")"@,
        Request::Ping => "Ping"@,
    }
}

/// The `Debug` text of a response.
pub open spec fn response_debug_text(r: &Response) -> Seq<char> {
    match r {
        Response::UserID(id) => "UserID("@ + decimal_digits(*id as nat) + ")"@,
        Response::ConnectSuccess => "ConnectSuccess"@,
        Response::ConnectFail => "ConnectFail"@,
        Response::Echo(e) => "Echo("@ + bytes_text(e@) + ")"@,
        Response::Ping(t) => "Ping("@ + decimal_digits(*t as nat) + ")"@,
        Response::UserNotFound(n) => "UserNotFound("@ + node_debug_text(n@) + ")"@,
    }
}

/// The text of a message body: `{ Text: hi }`, `{ <file> }`,
/// `{ User: .. }`, `{ Request: .. }` or `{ Response: .. }`.
pub open spec fn body_text(b: &MessageBody) -> Seq<char> {
    match b {
        MessageBody::Text(t) => "{ Text: "@ + t@ + " }"@,
        MessageBody::File(_) => "{ <file> }"@,
        MessageBody::User(u) => "{ User: "@ + user_text(u) + " }"@,
        MessageBody::Request(r) => "{ Request: "@ + request_debug_text(r) + " }"@,
        MessageBody::Response(r) => "{ Response: "@ + response_debug_text(r) + " }"@,
    }
}

/// Appends the `Debug` text of `request` to `text`.
fn append_request_debug(text: &mut String, request: &Request)
    ensures
        final(text)@ == old(text)@ + request_debug_text(request),
{
    match request {
        Request::Connect => text.append("Connect"),
        Request::ConnectAck => text.append("ConnectAck"),
        Request::Disconnect => text.append("Disconnect"),
        Request::Echo(e) => {
            text.append("Echo(");
            append_bytes_text(text, e.as_slice());
            text.append(")");
        },
        Request::Ping => text.append("Ping"),
    }
    assert(text@ =~= old(text)@ + request_debug_text(request));
}

/// Appends the `Debug` text of `response` to `text`.
fn append_response_debug(text: &mut String, response: &Response)
    ensures
        final(text)@ == old(text)@ + response_debug_text(response),
{
    match response {
        Response::UserID(id) => {
            text.append("UserID(");
            append_decimal(text, *id as u64);
            text.append(")");
        },
        Response::ConnectSuccess => text.append("ConnectSuccess"),
        Response::ConnectFail => text.append("ConnectFail"),
        Response::Echo(e) => {
            text.append("Echo(");
            append_bytes_text(text, e.as_slice());
            text.append(")");
        },
        Response::Ping(t) => {
            text.append("Ping(");
            append_decimal(text, *t);
            text.append(")");
        },
        Response::UserNotFound(n) => {
            text.append("UserNotFound(");
            n.append_debug(text);
            text.append(")");
        },
    }
    assert(text@ =~= old(text)@ + response_debug_text(response));
}

impl MessageBody {
    /// The text of the body, as in `{ Text: hi }` or `{ Request: Ping }`.
    pub fn to_string(&self) -> (text: String)
        ensures
            text@ == body_text(self),
    {
        let mut text = String::new();
        match self {
            MessageBody::Text(t) => {
                text.append("{ Text: ");
                text.append(t.as_str());
                text.append(" }");
            },
            MessageBody::File(_) => text.append("{ <file> }"),
            MessageBody::User(u) => {
                text.append("{ User: ");
                let user = u.to_string();
                text.append(user.as_str());
                text.append(" }");
            },
            MessageBody::Request(r) => {
                text.append("{ Request: ");
                append_request_debug(&mut text, r);
                text.append(" }");
            },
            MessageBody::Response(r) => {
                text.append("{ Response: ");
                append_response_debug(&mut text, r);
                text.append(" }");
            },
        }
        assert(text@ =~= body_text(self));
        text
    }
}

} // verus!

verus! {

/// Login data is shown by the name of its variant, and the two variants
/// read differently.
pub proof fn lemma_login_debug_text(a: LoginStateData, b: LoginStateData)
    ensures
        login_debug_text(LoginStateData::RequestConnect) == seq!['R', 'e', 'q', 'u', 'e', 's', 't', 'C', 'o', 'n', 'n', 'e', 'c', 't'],
        login_debug_text(LoginStateData::RequestConnectAck) == seq!['R', 'e', 'q', 'u', 'e', 's', 't', 'C', 'o', 'n', 'n', 'e', 'c', 't', 'A', 'c', 'k'],
        (login_debug_text(a) == login_debug_text(b)) <==> a == b,
        message_data_debug_text(MessageDataView::LoginStateData(LoginStateData::RequestConnect)) == seq!['L', 'o', 'g', 'i', 'n', 'S', 't', 'a', 't', 'e', 'D', 'a', 't', 'a', '(', 'R', 'e', 'q', 'u', 'e', 's', 't', 'C', 'o', 'n', 'n', 'e', 'c', 't', ')'],
        message_data_debug_text(MessageDataView::LoginStateData(LoginStateData::RequestConnectAck)) == seq!['L', 'o', 'g', 'i', 'n', 'S', 't', 'a', 't', 'e', 'D', 'a', 't', 'a', '(', 'R', 'e', 'q', 'u', 'e', 's', 't', 'C', 'o', 'n', 'n', 'e', 'c', 't', 'A', 'c', 'k', ')'],
        (message_data_debug_text(MessageDataView::LoginStateData(a)) == message_data_debug_text(
            MessageDataView::LoginStateData(b),
        )) <==> a == b,
{
    reveal_strlit("RequestConnect");
    reveal_strlit("RequestConnectAck");
    reveal_strlit("LoginStateData(");
    reveal_strlit(")");
    let ta = message_data_debug_text(MessageDataView::LoginStateData(a));
    let tb = message_data_debug_text(MessageDataView::LoginStateData(b));
    if ta == tb {
        assert(ta.len() == tb.len());
    }
}

/// Communication data is shown by the name of its variant, followed by the
/// payload in brackets for the variants that carry one.
pub proof fn lemma_communication_debug_text(p: Seq<u8>)
    ensures
        communication_debug_text(CommunicationStateDataView::RequestDisconnect) == seq!['R', 'e', 'q', 'u', 'e', 's', 't', 'D', 'i', 's', 'c', 'o', 'n', 'n', 'e', 'c', 't'],
        communication_debug_text(CommunicationStateDataView::RequestPing) == seq!['R', 'e', 'q', 'u', 'e', 's', 't', 'P', 'i', 'n', 'g'],
        communication_debug_text(CommunicationStateDataView::RequestEcho(p)) == seq!['R', 'e', 'q', 'u', 'e', 's', 't', 'E', 'c', 'h', 'o', '(']
            + bytes_text(p) + seq![')'],
        communication_debug_text(CommunicationStateDataView::CommunicationText(p)) == seq!['C', 'o', 'm', 'm', 'u', 'n', 'i', 'c', 'a', 't', 'i', 'o', 'n', 'T', 'e', 'x', 't', '(']
            + bytes_text(p) + seq![')'],
        communication_debug_text(CommunicationStateDataView::CommunicationFile(p)) == seq!['C', 'o', 'm', 'm', 'u', 'n', 'i', 'c', 'a', 't', 'i', 'o', 'n', 'F', 'i', 'l', 'e', '(']
            + bytes_text(p) + seq![')'],
{
    reveal_strlit("RequestDisconnect");
    reveal_strlit("RequestPing");
    reveal_strlit("RequestEcho(");
    reveal_strlit("CommunicationText(");
    reveal_strlit("CommunicationFile(");
    reveal_strlit(")");
}

} // verus!
