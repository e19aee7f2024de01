use shared::communication_state_data::CommunicationStateData;
use shared::decode::{Decode, DecodeError};
use shared::encode::Encode;
use shared::login_state_data::{LoginStateData, LoginStateDataError};
use shared::message::Message;
use shared::message_builder::MessageBuilder;
use shared::message_data::MessageData;
use shared::source_or_destination::SourceOrDestination;
use shared::varuint::VarUInt;
use shared::NO_STATE;

#[test]
fn encode_msg() {
    let mut buffer: Vec<u8> = vec![];
    let mut check_buffer = vec![];
    let builder = Message::builder();
    let msg = builder
        .destination(SourceOrDestination::new("user_2"))
        .source(SourceOrDestination::new("user_1"))
        .timestamp()
        .data(MessageData::LoginStateData(LoginStateData::RequestConnect))
        .build();

    msg.destination
        .write_encoded(NO_STATE, &mut check_buffer)
        .unwrap();
    msg.source
        .write_encoded(NO_STATE, &mut check_buffer)
        .unwrap();
    msg.timestamp
        .write_encoded(NO_STATE, &mut check_buffer)
        .unwrap();
    msg.data.write_encoded(NO_STATE, &mut check_buffer).unwrap();

    msg.write_encoded(NO_STATE, &mut buffer).unwrap();

    println!("{:?}", buffer);

    assert_eq!(buffer[1..], check_buffer);
}

#[test]
fn decode_msg() {
    let mut buf: &[u8] = &[
        20, 6, 117, 115, 101, 114, 95, 50, 6, 117, 115, 101, 114, 95, 49, 204, 155, 134, 198,
        6, 0,
    ];

    let msg = *Message::decode_reader(0x00, &mut buf).unwrap();

    assert_eq!(
        msg.data().to_owned(),
        MessageData::LoginStateData(LoginStateData::RequestConnect)
    );
    assert_eq!(msg.source(), SourceOrDestination::new("user_1"));
    assert_eq!(msg.destination(), SourceOrDestination::new("user_2"));
}

fn sample_message() -> Message {
    MessageBuilder::new()
        .source(SourceOrDestination::new("alice"))
        .destination(SourceOrDestination::new("bob"))
        .body(MessageData::LoginStateData(LoginStateData::RequestConnectAck))
        .build()
}

#[test]
fn message_reads_back_and_leaves_what_follows() {
    let msg = sample_message();
    let mut bytes = msg.as_bytes().unwrap();
    assert_eq!(
        bytes,
        [12, 3, b'b', b'o', b'b', 5, b'a', b'l', b'i', b'c', b'e', 0, 1]
    );
    bytes.extend_from_slice(&[42, 43]);
    let mut reader: &[u8] = &bytes;
    let decoded = *Message::decode_reader(NO_STATE, &mut reader).unwrap();
    assert_eq!(decoded.source(), SourceOrDestination::new("alice"));
    assert_eq!(decoded.destination(), SourceOrDestination::new("bob"));
    assert_eq!(decoded.timestamp(), VarUInt(0));
    assert_eq!(
        *decoded.data(),
        MessageData::LoginStateData(LoginStateData::RequestConnectAck)
    );
    assert_eq!(reader, [42, 43]);
}

#[test]
fn long_body_takes_a_two_byte_length() {
    let name = vec![b'x'; 200];
    let msg = MessageBuilder::new()
        .source(SourceOrDestination::new(name.clone()))
        .build();
    let bytes = msg.as_bytes().unwrap();
    assert_eq!(bytes.len(), 2 + 1 + 2 + 200 + 1 + 1);
    assert_eq!(&bytes[..2], [205, 1]);
    let mut reader: &[u8] = &bytes;
    let decoded = *Message::decode_reader(NO_STATE, &mut reader).unwrap();
    assert_eq!(decoded.source(), SourceOrDestination::new(name));
    assert!(reader.is_empty());
}

#[test]
fn unknown_login_code_is_an_error() {
    let mut reader: &[u8] = &[4, 0, 0, 0, 2, 9];
    assert_eq!(
        Message::decode_reader(NO_STATE, &mut reader).unwrap_err(),
        DecodeError::LoginState(LoginStateDataError::Conversion(VarUInt(2)))
    );
    assert_eq!(reader, [9]);
}

#[test]
fn short_input_without_data_is_refused() {
    let mut reader: &[u8] = &[50, 1, b'a'];
    assert_eq!(
        Message::decode_reader(NO_STATE, &mut reader).unwrap_err(),
        DecodeError::MissingData
    );
    assert!(reader.is_empty());
    let mut reader: &[u8] = &[3, 0, 0, 0];
    assert_eq!(
        Message::decode_reader(0, &mut reader).unwrap_err(),
        DecodeError::MissingData
    );
}

#[test]
fn data_is_read_in_the_connection_state() {
    let mut reader: &[u8] = &[4, 0, 0, 0, 0x01];
    let msg = *Message::decode_reader(0x01, &mut reader).unwrap();
    assert_eq!(
        *msg.data(),
        MessageData::CommunicationStateData(CommunicationStateData::RequestPing)
    );
    assert_eq!(msg.destination(), SourceOrDestination::default());
    assert_eq!(msg.source(), SourceOrDestination::default());
    assert_eq!(msg.timestamp(), VarUInt(0));
    let mut reader: &[u8] = &[4, 0, 0, 0, 0x01];
    let msg = *Message::decode_reader(0x00, &mut reader).unwrap();
    assert_eq!(
        *msg.data(),
        MessageData::LoginStateData(LoginStateData::RequestConnectAck)
    );
    let mut reader: &[u8] = &[4, 0, 0, 0, 0x01];
    assert_eq!(
        Message::decode_reader(7, &mut reader).unwrap_err(),
        DecodeError::InvalidState
    );
}

#[test]
fn communication_data_reads_back_in_the_communication_state() {
    let msg = MessageBuilder::new()
        .data(MessageData::CommunicationStateData(CommunicationStateData::RequestEcho(vec![7])))
        .build();
    let mut bytes = msg.as_bytes().unwrap();
    assert_eq!(bytes, [5, 0, 0, 0, 2, 7]);
    bytes.push(9);
    let mut reader: &[u8] = &bytes;
    let decoded = *Message::decode_reader(1, &mut reader).unwrap();
    assert_eq!(
        *decoded.data(),
        MessageData::CommunicationStateData(CommunicationStateData::RequestEcho(vec![7]))
    );
    assert_eq!(reader, [9]);
    let mut reader: &[u8] = &bytes;
    assert_eq!(
        Message::decode_reader(0, &mut reader).unwrap_err(),
        DecodeError::LoginState(LoginStateDataError::Conversion(VarUInt(2)))
    );
}

#[test]
fn message_text_matches_debug_of_fields() {
    let msg = MessageBuilder::new()
        .source(SourceOrDestination::new("ab"))
        .data(MessageData::CommunicationStateData(CommunicationStateData::CommunicationText(
            vec![104, 105, 200],
        )))
        .build();
    let expected = format!(
        "{{ {{ Source: {:?} }}, {{ Destination: {:?} }}, {{ Data: {:?} }}, {{ Timestamp: {:?} }} }}",
        msg.source, msg.destination, msg.data, msg.timestamp
    );
    assert_eq!(msg.to_string(), expected);
    assert_eq!(
        msg.to_string(),
        "{ { Source: SourceOrDestination([97, 98]) }, { Destination: SourceOrDestination([]) }, { Data: CommunicationStateData(CommunicationText([104, 105, 200])) }, { Timestamp: VarUInt(0) } }"
    );
    let login = sample_message();
    let expected = format!(
        "{{ {{ Source: {:?} }}, {{ Destination: {:?} }}, {{ Data: {:?} }}, {{ Timestamp: {:?} }} }}",
        login.source, login.destination, login.data, login.timestamp
    );
    assert_eq!(login.to_string(), expected);
}

#[test]
fn builder_defaults_and_setters() {
    let msg = MessageBuilder::new().build();
    assert_eq!(msg.source(), SourceOrDestination::default());
    assert_eq!(msg.destination(), SourceOrDestination::default());
    assert_eq!(msg.timestamp(), VarUInt(0));
    assert_eq!(
        *msg.data(),
        MessageData::LoginStateData(LoginStateData::RequestConnect)
    );
    let stamped = Message::builder().build();
    assert!(stamped.timestamp().0 > 0);
    let copy = sample_message().clone();
    assert_eq!(copy.source(), SourceOrDestination::new("alice"));
}
