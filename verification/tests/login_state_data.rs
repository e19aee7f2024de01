use shared::decode::{Decode, DecodeError};
use shared::encode::Encode;
use shared::login_state_data::{LoginStateData, LoginStateDataError};
use shared::message_data::MessageData;
use shared::communication_state_data::CommunicationStateData;
use shared::varuint::VarUInt;
use shared::NO_STATE;

#[test]
fn login_codes_read_back() {
    for data in [LoginStateData::RequestConnect, LoginStateData::RequestConnectAck] {
        let mut bytes = data.as_bytes().unwrap();
        assert_eq!(bytes, [data.discriminant()]);
        bytes.push(77);
        let mut reader: &[u8] = &bytes;
        assert_eq!(*LoginStateData::decode_reader(NO_STATE, &mut reader).unwrap(), data);
        assert_eq!(reader, [77]);
    }
}

#[test]
fn login_unknown_code_is_a_conversion_error() {
    let mut reader: &[u8] = &[0x82, 0x01];
    assert_eq!(
        LoginStateData::decode_reader(NO_STATE, &mut reader).unwrap_err(),
        DecodeError::LoginState(LoginStateDataError::Conversion(VarUInt(130)))
    );
    assert!(reader.is_empty());
}

#[test]
fn login_try_from() {
    assert_eq!(LoginStateData::try_from(VarUInt(1)).unwrap(), LoginStateData::RequestConnectAck);
    assert_eq!(
        LoginStateData::try_from(VarUInt(3)).unwrap_err(),
        LoginStateDataError::Conversion(VarUInt(3))
    );
    assert_eq!(
        LoginStateData::try_from(MessageData::LoginStateData(LoginStateData::RequestConnect)).unwrap(),
        LoginStateData::RequestConnect
    );
    assert_eq!(
        LoginStateData::try_from(MessageData::CommunicationStateData(
            CommunicationStateData::RequestPing
        ))
        .unwrap_err(),
        "could not convert to LoginStateData"
    );
}

#[test]
fn message_data_by_state() {
    let mut reader: &[u8] = &[1];
    assert_eq!(
        *MessageData::decode_reader(0, &mut reader).unwrap(),
        MessageData::LoginStateData(LoginStateData::RequestConnectAck)
    );
    let mut reader: &[u8] = &[3, b'h', b'i'];
    assert_eq!(
        *MessageData::decode_reader(1, &mut reader).unwrap(),
        MessageData::CommunicationStateData(CommunicationStateData::CommunicationText(b"hi".to_vec()))
    );
    let mut reader: &[u8] = &[0];
    assert_eq!(MessageData::decode_reader(2, &mut reader).unwrap_err(), DecodeError::InvalidState);
    assert_eq!(reader, [0]);
    assert_eq!(
        MessageData::from(LoginStateData::RequestConnect),
        MessageData::LoginStateData(LoginStateData::RequestConnect)
    );
    let data = MessageData::CommunicationStateData(CommunicationStateData::RequestEcho(vec![1]));
    assert_eq!(data.as_bytes().unwrap(), [2, 1]);
}

#[test]
fn error_messages() {
    assert_eq!(
        LoginStateDataError::Conversion(VarUInt(7)).to_string(),
        "failed to convert 7 to LoginStateData"
    );
    assert_eq!(
        DecodeError::LoginState(LoginStateDataError::Conversion(VarUInt(12))).to_string(),
        "failed to convert 12 to LoginStateData"
    );
    assert_eq!(
        DecodeError::CommunicationState(
            shared::communication_state_data::CommunicationStateDataError::Conversion(VarUInt(9))
        )
        .to_string(),
        "failed to convert 9 to CommunicationStateData"
    );
    assert_eq!(DecodeError::InvalidState.to_string(), "invalid state passed");
}
