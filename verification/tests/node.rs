use shared::decode::Decode;
use shared::encode::Encode;
use shared::node::Node;
use shared::varuint::VarUInt;
use shared::NO_STATE;

#[test]
fn node_user_encoding() {
    let user: &[u8] = "TestUser".as_ref();
    let user_node = Node::new(user);
    let mut buf = vec![];

    user_node.write_encoded(NO_STATE, &mut buf).unwrap();

    let mut check_buf = vec![];
    VarUInt(user.len() as u64)
        .write_encoded(NO_STATE, &mut check_buf)
        .unwrap();
    check_buf.append(&mut Vec::from(user));

    assert_eq!(buf, check_buf)
}

#[test]
fn node_user_decoding() {
    let mut raw_bytes: &[u8] = &[8, 84, 101, 115, 116, 85, 115, 101, 114];

    assert_eq!(
        *Node::decode_reader(NO_STATE, &mut raw_bytes).unwrap(),
        Node::new("TestUser")
    )
}

#[test]
fn node_names_from_every_source_agree() {
    let expected = Node::new(vec![b'a', b'b']);
    assert_eq!(Node::new("ab"), expected);
    assert_eq!(Node::new(String::from("ab")), expected);
    assert_eq!(Node::new(&b"ab"[..]), expected);
    assert_eq!(Node::default(), Node::new(""));
}

#[test]
fn node_truncated_name_reads_what_is_left() {
    let mut raw_bytes: &[u8] = &[5, b'a', b'b'];
    assert_eq!(*Node::decode_reader(NO_STATE, &mut raw_bytes).unwrap(), Node::new("ab"));
    assert!(raw_bytes.is_empty());
}

#[test]
fn node_roundtrip_leaves_what_follows() {
    let node = Node::new("server");
    let mut bytes = node.as_bytes().unwrap();
    bytes.push(99);
    let mut reader: &[u8] = &bytes;
    assert_eq!(*Node::decode_reader(NO_STATE, &mut reader).unwrap(), node.clone());
    assert_eq!(reader, [99]);
}
