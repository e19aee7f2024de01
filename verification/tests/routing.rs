use shared::message_body::MessageBody;
use shared::node::Node;
use shared::request::Request;
use shared::response::Response;
use shared::routing::{
    client_accepts, connect_decision, handle_request, handshake_step, route, server_reply, to_server,
    ConnectDecision,
    HandshakeStep, Route, ServerAction,
};
use shared::user::User;

#[test]
fn server_answers_requests() {
    assert!(matches!(
        handle_request(MessageBody::Request(Request::Disconnect), 5),
        ServerAction::RemoveSender
    ));
    assert!(matches!(
        handle_request(MessageBody::Request(Request::Ping), 1234),
        ServerAction::Reply(MessageBody::Response(Response::Ping(1234)))
    ));
    match handle_request(MessageBody::Request(Request::Echo(vec![1, 2])), 0) {
        ServerAction::Reply(MessageBody::Response(Response::Echo(bytes))) => {
            assert_eq!(bytes, [1, 2])
        }
        other => panic!("unexpected {:?}", other),
    }
    assert!(matches!(
        handle_request(MessageBody::Request(Request::Connect), 0),
        ServerAction::Unsupported
    ));
    assert!(matches!(
        handle_request(MessageBody::Text(String::from("hi")), 0),
        ServerAction::Unsupported
    ));
}

#[test]
fn server_connection_requests() {
    let connect = MessageBody::Request(Request::Connect);
    assert_eq!(connect_decision(&connect, false), ConnectDecision::Accept);
    assert_eq!(connect_decision(&connect, true), ConnectDecision::Reject);
    assert_eq!(
        connect_decision(&MessageBody::Request(Request::Ping), false),
        ConnectDecision::Ignore
    );
    assert!(matches!(
        ConnectDecision::Accept.reply(),
        Some(MessageBody::Response(Response::ConnectSuccess))
    ));
    assert!(matches!(
        ConnectDecision::Reject.reply(),
        Some(MessageBody::Response(Response::ConnectFail))
    ));
    assert!(ConnectDecision::Ignore.reply().is_none());
}

#[test]
fn server_routes_messages() {
    assert_eq!(route(true, true, true), Route::Forward);
    assert_eq!(route(true, true, false), Route::Forward);
    assert_eq!(route(true, false, true), Route::UserNotFound);
    assert_eq!(route(true, false, false), Route::Drop);
    assert_eq!(route(false, true, true), Route::Drop);
}

#[test]
fn client_handshake_and_filter() {
    assert_eq!(
        handshake_step(&MessageBody::Response(Response::ConnectSuccess)),
        HandshakeStep::Authenticated
    );
    assert_eq!(
        handshake_step(&MessageBody::Response(Response::ConnectFail)),
        HandshakeStep::Rejected
    );
    assert_eq!(
        handshake_step(&MessageBody::Response(Response::Ping(3))),
        HandshakeStep::Waiting
    );
    assert!(client_accepts(&MessageBody::Response(Response::UserNotFound(Node::new("x"))), false));
    assert!(client_accepts(&MessageBody::Text(String::from("hi")), true));
    assert!(!client_accepts(&MessageBody::Text(String::from("hi")), false));
    assert!(!client_accepts(&MessageBody::User(User::new(1, "a")), true));
    assert!(!client_accepts(&MessageBody::File(vec![]), true));
}

#[test]
fn handshake_acknowledges_acceptance() {
    assert!(matches!(
        HandshakeStep::Authenticated.reply(),
        Some(MessageBody::Request(Request::ConnectAck))
    ));
    assert!(HandshakeStep::Rejected.reply().is_none());
    assert!(HandshakeStep::Waiting.reply().is_none());
    assert!(matches!(
        handle_request(MessageBody::Request(Request::ConnectAck), 0),
        ServerAction::Nothing
    ));
}

#[test]
fn replies_are_addressed() {
    let reply = server_reply(b"bob", MessageBody::Response(Response::Ping(4)));
    assert_eq!(reply.source, vec![1, 0]);
    assert_eq!(reply.destination, b"bob".to_vec());
    assert!(matches!(reply.body, MessageBody::Response(Response::Ping(4))));
    let request = to_server(b"ann", MessageBody::Request(Request::Connect));
    assert_eq!(request.source, b"ann".to_vec());
    assert_eq!(request.destination, shared::node::SERVER_NODE.to_vec());
}

#[test]
fn body_text_matches_debug_of_payloads() {
    let cases = vec![
        (MessageBody::Text(String::from("hi")), String::from("{ Text: hi }")),
        (MessageBody::File(vec![1]), String::from("{ <file> }")),
        (
            MessageBody::User(User::new(3, "ann")),
            String::from("{ User: { ID: { 3 }, Username: { ann } } }"),
        ),
    ];
    for (body, text) in cases {
        assert_eq!(body.to_string(), text);
    }
    let requests = vec![
        Request::Connect,
        Request::ConnectAck,
        Request::Disconnect,
        Request::Echo(vec![0, 10, 255]),
        Request::Ping,
    ];
    for request in requests {
        let expected = format!("{{ Request: {:?} }}", request);
        assert_eq!(MessageBody::Request(request).to_string(), expected);
    }
    let responses = vec![
        Response::UserID(65535),
        Response::ConnectSuccess,
        Response::ConnectFail,
        Response::Echo(vec![]),
        Response::Ping(1234567),
        Response::UserNotFound(Node::new("x")),
    ];
    for response in responses {
        let expected = format!("{{ Response: {:?} }}", response);
        assert_eq!(MessageBody::Response(response).to_string(), expected);
    }
}
