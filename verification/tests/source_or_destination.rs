use shared::decode::Decode;
use shared::encode::Encode;
use shared::source_or_destination::SourceOrDestination;
use shared::varuint::VarUInt;
use shared::NO_STATE;

type BoxedError = Box<dyn std::error::Error>;

#[test]
fn source_or_destination_user_encoding() -> Result<(), BoxedError> {
    let user: &[u8] = "TestUser".as_ref();
    let user_as_src = SourceOrDestination::new(user);
    let mut buf = vec![];

    user_as_src.write_encoded(NO_STATE, &mut buf).unwrap();

    let mut check_buf = vec![];
    VarUInt(u64::try_from(user.len())?).write_encoded(NO_STATE, &mut check_buf)?;
    check_buf.append(&mut Vec::from(user));

    assert_eq!(buf, check_buf);
    Ok(())
}

#[test]
fn source_or_destination_user_decoding() {
    let mut raw_bytes: &[u8] = &[8, 84, 101, 115, 116, 85, 115, 101, 114];

    assert_eq!(
        *SourceOrDestination::decode_reader(NO_STATE, &mut raw_bytes).unwrap(),
        SourceOrDestination::new("TestUser")
    )
}

#[test]
fn source_or_destination_empty_and_long_names() {
    let empty = SourceOrDestination::default();
    assert_eq!(empty.as_bytes().unwrap(), [0]);
    let long = SourceOrDestination::new(vec![7u8; 300]);
    let bytes = long.as_bytes().unwrap();
    assert_eq!(&bytes[..2], [172, 2]);
    let mut reader: &[u8] = &bytes;
    assert_eq!(*SourceOrDestination::decode_reader(NO_STATE, &mut reader).unwrap(), long);
    assert!(reader.is_empty());
}
