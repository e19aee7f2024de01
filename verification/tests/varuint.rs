use shared::decode::Decode;
use shared::encode::Encode;
use shared::message_builder::MessageBuilder;
use shared::varuint::VarUInt;
use shared::NO_STATE;

#[test]
fn decode() {
    assert_eq!(
        VarUInt::decode(&mut vec![132_u8, 6_u8].as_slice()).unwrap(),
        VarUInt(772)
    );
    assert_eq!(
        VarUInt::decode(&mut vec![221, 199, 1].as_slice()).unwrap(),
        VarUInt(25565)
    );
}

#[test]
fn decode_with_extra() {
    assert_eq!(
        VarUInt::decode(&mut vec![132, 6, 7].as_slice()).unwrap(),
        VarUInt(772)
    );
    assert_eq!(
        VarUInt::decode(&mut vec![221, 199, 1, 254].as_slice()).unwrap(),
        VarUInt(25565)
    );
}

#[test]
fn encode() {
    assert_eq!(VarUInt(772).encode(), [132, 6]);
    assert_eq!(VarUInt(25565).encode(), [221, 199, 1]);
    assert_eq!(VarUInt(2147483647).encode(), [255, 255, 255, 255, 7]);
}

#[test]
fn encode_buffer() {
    let mut buffer = vec![];

    let test_int = VarUInt(1);
    test_int.write_encoded(NO_STATE, &mut buffer).unwrap();

    assert_eq!(buffer, [1]);

    buffer.clear();
    VarUInt(25565).write_encoded(NO_STATE, &mut buffer).unwrap();
    assert_eq!(buffer, [221, 199, 1]);

    buffer.clear();
    VarUInt(25565).write_encoded(NO_STATE, &mut buffer).unwrap();
    assert_eq!(buffer, [221, 199, 1]);

    buffer.clear();
    VarUInt(2147483647)
        .write_encoded(NO_STATE, &mut buffer)
        .unwrap();
    assert_eq!(buffer, [255, 255, 255, 255, 7]);
}

#[test]
fn decode_buffer() {
    assert_eq!(
        *VarUInt::decode_reader(NO_STATE, &mut &[1][..]).unwrap(),
        VarUInt(1)
    );

    assert_eq!(
        *VarUInt::decode_reader(NO_STATE, &mut &[221, 199, 1][..]).unwrap(),
        VarUInt(25565)
    );

    assert_eq!(
        *VarUInt::decode_reader(NO_STATE, &mut &[255, 255, 255, 255, 7][..]).unwrap(),
        VarUInt(2147483647)
    );
}

#[test]
fn decode_buffer_with_extra() {
    let mut buf: &[u8] = &[1, 2];

    assert_eq!(
        *VarUInt::decode_reader(NO_STATE, &mut buf).unwrap(),
        VarUInt(1)
    );
    assert_eq!(buf.len(), 1);
    assert_eq!(buf, [2]);

    buf = &[221, 199, 1, 9, 6];

    assert_eq!(
        *VarUInt::decode_reader(NO_STATE, &mut buf).unwrap(),
        VarUInt(25565)
    );
    assert_eq!(buf.len(), 2);
    assert_eq!(buf, [9, 6]);

    buf = &[255, 255, 255, 255, 7, 254, 1];

    assert_eq!(
        *VarUInt::decode_reader(NO_STATE, &mut buf).unwrap(),
        VarUInt(2147483647)
    );
    assert_eq!(buf.len(), 2);
    assert_eq!(buf, [254, 1]);
}

#[test]
fn circular_coding() {
    let now = MessageBuilder::now();

    assert_eq!(
        now,
        VarUInt::decode(&mut VarUInt(now).encode().as_slice())
            .unwrap()
            .0
    );
}

#[test]
fn roundtrip_extremes_with_trailing_bytes() {
    for v in [0u64, 1, 127, 128, 16383, 16384, u32::MAX as u64, u64::MAX - 1, u64::MAX] {
        let mut bytes = VarUInt(v).encode();
        let encoded_len = bytes.len();
        assert!((1..=10).contains(&encoded_len));
        bytes.extend_from_slice(&[0x80, 0xFF, 3]);
        let mut reader: &[u8] = &bytes;
        assert_eq!(*VarUInt::decode_reader(NO_STATE, &mut reader).unwrap(), VarUInt(v));
        assert_eq!(reader, [0x80, 0xFF, 3]);
    }
}

#[test]
fn encode_max_takes_ten_bytes() {
    assert_eq!(
        VarUInt(u64::MAX).encode(),
        [255, 255, 255, 255, 255, 255, 255, 255, 255, 1]
    );
    assert_eq!(VarUInt(0).encode(), [0]);
    assert_eq!(VarUInt(0).as_bytes().unwrap(), [0]);
}

#[test]
fn decode_empty_input_is_zero() {
    let mut reader: &[u8] = &[];
    assert_eq!(VarUInt::decode(&mut reader).unwrap(), VarUInt(0));
    assert!(reader.is_empty());
}

#[test]
fn decode_unterminated_input_reads_everything() {
    let mut reader: &[u8] = &[0x81, 0x80];
    assert_eq!(VarUInt::decode(&mut reader).unwrap(), VarUInt(1));
    assert!(reader.is_empty());
}

#[test]
fn decode_ten_bytes_keeps_low_sixty_four_bits() {
    let mut reader: &[u8] = &[255, 255, 255, 255, 255, 255, 255, 255, 255, 127, 5];
    assert_eq!(VarUInt::decode(&mut reader).unwrap(), VarUInt(u64::MAX));
    assert_eq!(reader, [5]);
}

#[test]
fn conversions_and_text() {
    assert_eq!(u64::from(VarUInt(25565)), 25565);
    assert_eq!(usize::from(VarUInt(772)), 772);
    assert_eq!(VarUInt(25565).to_string(), "25565");
    assert_eq!(VarUInt(0).to_string(), "0");
    assert_eq!(VarUInt(u64::MAX).to_string(), "18446744073709551615");
}

#[test]
fn seconds_since_epoch_and_error_text() {
    assert_eq!(MessageBuilder::seconds_since_epoch(Some(42)), 42);
    assert_eq!(MessageBuilder::seconds_since_epoch(None), 0);
    let error = shared::varuint::VarUIntError::from(std::io::Error::new(
        std::io::ErrorKind::UnexpectedEof,
        "stream ended",
    ));
    assert_eq!(error.to_string(), "IO error: stream ended");
}
