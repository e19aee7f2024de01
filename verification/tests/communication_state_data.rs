use shared::communication_state_data::{CommunicationStateData, CommunicationStateDataError};
use shared::decode::{Decode, DecodeError};
use shared::encode::Encode;
use shared::varuint::VarUInt;
use shared::NO_STATE;

#[test]
fn comm_state_decode() {
    let mut reader: &[u8] = &[0x00];

    assert_eq!(
        *CommunicationStateData::decode_reader(NO_STATE, &mut reader).unwrap(),
        CommunicationStateData::RequestDisconnect
    )
}

#[test]
fn comm_state_decode_error() {
    let mut reader: &[u8] = &[0xFF];

    assert!(CommunicationStateData::decode_reader(NO_STATE, &mut reader).is_err(),)
}

#[test]
fn comm_state_encode() {
    let mut buffer = vec![];
    let value = CommunicationStateData::RequestDisconnect;

    value
        .write_encoded(NO_STATE, &mut buffer)
        .expect("buffer error");
    assert_eq!(buffer, [0x00])
}

#[test]
fn comm_state_encode_text() {
    let mut buffer = vec![];
    let text = "hello";
    let value = CommunicationStateData::CommunicationText(text.into());

    let mut check_buf = vec![];
    check_buf.push(value.discriminant());
    text.as_bytes()
        .iter()
        .for_each(|b| check_buf.push(b.to_owned()));

    value
        .write_encoded(NO_STATE, &mut buffer)
        .expect("buffer error");
    assert_eq!(buffer, check_buf)
}

#[test]
fn circular_read_write() {
    let mut buffer = vec![];
    let init_val = CommunicationStateData::RequestPing;

    init_val
        .write_encoded(NO_STATE, &mut buffer)
        .expect("buffer error");

    assert_eq!(
        *CommunicationStateData::decode_reader(NO_STATE, &mut buffer.as_slice()).unwrap(),
        init_val
    )
}

#[test]
fn every_kind_reads_back() {
    let values = vec![
        CommunicationStateData::RequestDisconnect,
        CommunicationStateData::RequestPing,
        CommunicationStateData::RequestEcho(vec![1, 2, 3]),
        CommunicationStateData::CommunicationText(b"hi there".to_vec()),
        CommunicationStateData::CommunicationFile(vec![]),
        CommunicationStateData::CommunicationFile(vec![0, 255, 128]),
    ];
    for value in values {
        let bytes = value.as_bytes().unwrap();
        let mut reader: &[u8] = &bytes;
        assert_eq!(*CommunicationStateData::decode_reader(NO_STATE, &mut reader).unwrap(), value);
        assert!(reader.is_empty());
    }
}

#[test]
fn discriminants_follow_declaration_order() {
    assert_eq!(CommunicationStateData::RequestDisconnect.discriminant(), 0);
    assert_eq!(CommunicationStateData::RequestPing.discriminant(), 1);
    assert_eq!(CommunicationStateData::RequestEcho(vec![9]).discriminant(), 2);
    assert_eq!(CommunicationStateData::CommunicationText(vec![]).discriminant(), 3);
    assert_eq!(CommunicationStateData::CommunicationFile(vec![]).discriminant(), 4);
}

#[test]
fn unknown_code_is_a_conversion_error() {
    let mut reader: &[u8] = &[0xFF];
    assert_eq!(
        CommunicationStateData::decode_reader(NO_STATE, &mut reader).unwrap_err(),
        DecodeError::CommunicationState(CommunicationStateDataError::Conversion(VarUInt(127)))
    );
    let mut reader: &[u8] = &[5, 1, 2];
    assert_eq!(
        CommunicationStateData::decode_reader(NO_STATE, &mut reader).unwrap_err(),
        DecodeError::CommunicationState(CommunicationStateDataError::Conversion(VarUInt(5)))
    );
    assert_eq!(reader, [1, 2]);
}

#[test]
fn requests_without_payload_consume_the_rest() {
    let mut reader: &[u8] = &[1, 7, 7];
    assert_eq!(
        *CommunicationStateData::decode_reader(NO_STATE, &mut reader).unwrap(),
        CommunicationStateData::RequestPing
    );
    assert!(reader.is_empty());
}

#[test]
fn try_from_codes() {
    assert_eq!(
        CommunicationStateData::try_from(VarUInt(2)).unwrap(),
        CommunicationStateData::RequestEcho(vec![])
    );
    assert_eq!(
        CommunicationStateData::try_from(VarUInt(9)).unwrap_err(),
        CommunicationStateDataError::Conversion(VarUInt(9))
    );
}
