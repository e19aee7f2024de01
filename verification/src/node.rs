//! A node of the network, named by bytes; on the wire its name is preceded
//! by its length.

use vstd::prelude::*;
use vstd::string::StringExecFns;

use crate::decode::{Decode, DecodeError, DecodeResult};
use crate::encode::{write_all, Encode};
use crate::varuint::{leb128_fits, leb128_bytes, leb128_decodable, leb128_len, leb128_value, VarUInt};
use crate::NO_STATE;

verus! {

/// The name of the server.
pub const SERVER_NODE: [u8; 2] = [1, 0];

/// Values whose bytes can name a node.
pub trait NameBytes: Sized {
    /// The bytes of the name.
    spec fn name_bytes(&self) -> Seq<u8>;

    /// The bytes of the name, as a vector.
    fn into_name_bytes(self) -> (bytes: Vec<u8>)
        ensures
            bytes@ == self.name_bytes(),
    ;
}

impl<'a> NameBytes for &'a str {
    /// The UTF-8 bytes of the text.
    open spec fn name_bytes(&self) -> Seq<u8> {
        vstd::utf8::encode_utf8((**self)@)
    }

    fn into_name_bytes(self) -> (bytes: Vec<u8>) {
        vstd::slice::slice_to_vec(self.as_bytes())
    }
}

impl NameBytes for String {
    /// The UTF-8 bytes of the text.
    open spec fn name_bytes(&self) -> Seq<u8> {
        vstd::utf8::encode_utf8(self@)
    }

    fn into_name_bytes(self) -> (bytes: Vec<u8>) {
        vstd::slice::slice_to_vec(self.as_str().as_bytes())
    }
}

impl<'a> NameBytes for &'a [u8] {
    open spec fn name_bytes(&self) -> Seq<u8> {
        (**self)@
    }

    fn into_name_bytes(self) -> (bytes: Vec<u8>) {
        vstd::slice::slice_to_vec(self)
    }
}

impl NameBytes for Vec<u8> {
    open spec fn name_bytes(&self) -> Seq<u8> {
        self@
    }

    fn into_name_bytes(self) -> (bytes: Vec<u8>) {
        self
    }
}

/// The encoding of a name: its length as a `VarUInt`, then its bytes.
pub open spec fn name_encoded(name: Seq<u8>) -> Seq<u8> {
    leb128_bytes(name.len()) + name
}

/// What decoding a name from the front of `input` gives: the length, then
/// as many of the following bytes as it says, or all of them when fewer are
/// left; and how many bytes that consumes.
pub open spec fn name_decoded(input: Seq<u8>) -> (Seq<u8>, nat) {
    let n = leb128_len(input);
    let rest = input.skip(n as int);
    let k = if leb128_value(input) < rest.len() {
        leb128_value(input) as nat
    } else {
        rest.len()
    };
    (rest.take(k as int), n + k)
}

/// Reads a length-prefixed name from the front of `reader`, advancing it.
pub fn read_name(reader: &mut &[u8]) -> (name: Vec<u8>)
    requires
        leb128_decodable(old(reader)@),
    ensures
        name@ == name_decoded(old(reader)@).0,
        name_decoded(old(reader)@).1 <= old(reader)@.len(),
        final(reader)@ == old(reader)@.skip(name_decoded(old(reader)@).1 as int),
{
    let length = *VarUInt::decode_reader(NO_STATE, reader).unwrap();
    let rest: &[u8] = *reader;
    let k: usize = if length.0 < rest.len() as u64 {
        length.0 as usize
    } else {
        rest.len()
    };
    let name = vstd::slice::slice_to_vec(&rest[0..k]);
    *reader = &rest[k..rest.len()];
    proof {
        assert(rest@.subrange(0, k as int) =~= rest@.take(k as int));
        assert(final(reader)@ =~= old(reader)@.skip(name_decoded(old(reader)@).1 as int));
    }
    name
}

/// Appends the length of `name` and then its bytes to `writer`.
pub fn write_name(name: &Vec<u8>, writer: &mut Vec<u8>)
    ensures
        final(writer)@ == old(writer)@ + name_encoded(name@),
{
    let _ = VarUInt(name.len() as u64).write_encoded(NO_STATE, writer);
    write_all(writer, name.as_slice());
    assert(final(writer)@ =~= old(writer)@ + name_encoded(name@));
}

/// A node, named by its bytes.
#[derive(Debug, PartialEq, Eq, PartialOrd, Ord)]
pub struct Node(Vec<u8>);

impl View for Node {
    type V = Seq<u8>;

    closed spec fn view(&self) -> Seq<u8> {
        self.0@
    }
}

impl Node {
    /// The node named by the bytes of `name`.
    pub fn new<N: NameBytes>(name: N) -> (node: Self)
        ensures
            node@ == name.name_bytes(),
    {
        Self(name.into_name_bytes())
    }
}

/// The text `Node([1, 2])` that `Debug` writes for a value named `name`.
pub open spec fn node_debug_text(name: Seq<u8>) -> Seq<char> {
    "Node("@ + crate::text::bytes_text(name) + ")"@
}

impl Node {
    /// Appends the `Debug` text of this value to `text`.
    pub fn append_debug(&self, text: &mut String)
        ensures
            final(text)@ == old(text)@ + node_debug_text(self@),
    {
        text.append("Node(");
        crate::text::append_bytes_text(text, self.0.as_slice());
        text.append(")");
        assert(final(text)@ =~= old(text)@ + node_debug_text(self@));
    }
}

impl Default for Node {
    /// The node with the empty name.
    fn default() -> (node: Self)
        ensures
            node@ == Seq::<u8>::empty(),
    {
        Self(Vec::new())
    }
}

impl Clone for Node {
    fn clone(&self) -> (node: Self)
        ensures
            node@ == self@,
    {
        Self(vstd::slice::slice_to_vec(self.0.as_slice()))
    }
}

impl Encode for Node {
    open spec fn encoded(value: Seq<u8>) -> Seq<u8> {
        name_encoded(value)
    }

    fn write_encoded(&self, state: u8, writer: &mut Vec<u8>) -> (r: Result<(), std::io::Error>) {
        write_name(&self.0, writer);
        Ok(())
    }

    fn as_bytes(&self) -> (r: Result<Vec<u8>, std::io::Error>) {
        let mut buffer: Vec<u8> = Vec::new();
        let _ = self.write_encoded(NO_STATE, &mut buffer);
        assert(buffer@ =~= Self::encoded(self@));
        Ok(buffer)
    }
}

impl Decode for Node {
    open spec fn decodable(state: u8, input: Seq<u8>) -> bool {
        leb128_decodable(input)
    }

    open spec fn decoded(state: u8, input: Seq<u8>) -> (Result<Seq<u8>, DecodeError>, nat) {
        (Ok(name_decoded(input).0), name_decoded(input).1)
    }

    fn can_decode(state: u8, input: &[u8]) -> (r: bool) {
        leb128_fits(input)
    }

    fn decode_reader(state: u8, reader: &mut &[u8]) -> (r: DecodeResult<Self>) {
        assert(Self::decodable(state, old(reader)@));
        let name = read_name(reader);
        assert(Self::decoded(state, old(reader)@).1 == name_decoded(old(reader)@).1);
        Ok(Box::new(Node(name)))
    }
}

} // verus!

verus! {

/// A length-prefixed name followed by any bytes reads back as the same name,
/// consuming exactly its encoding.
pub proof fn lemma_name_roundtrip(name: Seq<u8>, rest: Seq<u8>)
    requires
        name.len() <= u64::MAX,
    ensures
        leb128_decodable(name_encoded(name) + rest),
        name_decoded(name_encoded(name) + rest) == (name, name_encoded(name).len()),
{
    let v = name.len() as u64;
    let input = name_encoded(name) + rest;
    crate::varuint::lemma_leb128_roundtrip(v, name + rest);
    assert(input =~= leb128_bytes(v as nat) + (name + rest));
    let n = leb128_len(input);
    assert(input.skip(n as int) =~= name + rest);
    assert((name + rest).take(name.len() as int) =~= name);
}

/// Decoding what `write_encoded` wrote for a node, whatever follows it,
/// gives the node back and consumes exactly its encoding.
pub proof fn lemma_node_roundtrip(state: u8, name: Seq<u8>, rest: Seq<u8>)
    requires
        name.len() <= u64::MAX,
    ensures
        Node::decodable(state, Node::encoded(name) + rest),
        Node::decoded(state, Node::encoded(name) + rest) == (
            Ok::<Seq<u8>, DecodeError>(name),
            Node::encoded(name).len(),
        ),
{
    lemma_name_roundtrip(name, rest);
}

} // verus!

verus! {

/// The bytes of a node: the length of its name as a `VarUInt`, then the
/// name itself.
pub proof fn lemma_node_layout(name: Seq<u8>)
    requires
        name.len() <= u64::MAX,
    ensures
        Node::encoded(name) == VarUInt::encoded(VarUInt(name.len() as u64)) + name,
{
}

} // verus!
