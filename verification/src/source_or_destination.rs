//! The source or destination of a message, named by bytes; on the wire the
//! name is preceded by its length.

use vstd::prelude::*;
use vstd::string::StringExecFns;

use crate::decode::{Decode, DecodeError, DecodeResult};
use crate::encode::Encode;
use crate::node::{name_decoded, name_encoded, read_name, write_name, NameBytes};
use crate::varuint::{leb128_decodable, leb128_fits};
use crate::NO_STATE;

verus! {

/// The name of the server.
pub const SERVER_NODE: [u8; 2] = [1, 0];

/// Where a message comes from or goes to, named by its bytes.
#[derive(Debug, PartialEq, Eq, PartialOrd, Ord)]
pub struct SourceOrDestination(Vec<u8>);

impl View for SourceOrDestination {
    type V = Seq<u8>;

    closed spec fn view(&self) -> Seq<u8> {
        self.0@
    }
}

impl SourceOrDestination {
    /// The endpoint named by the bytes of `name`.
    pub fn new<N: NameBytes>(name: N) -> (endpoint: Self)
        ensures
            endpoint@ == name.name_bytes(),
    {
        Self(name.into_name_bytes())
    }
}

/// The text `SourceOrDestination([1, 2])` that `Debug` writes for a value named `name`.
pub open spec fn endpoint_debug_text(name: Seq<u8>) -> Seq<char> {
    "SourceOrDestination("@ + crate::text::bytes_text(name) + ")"@
}

impl SourceOrDestination {
    /// Appends the `Debug` text of this value to `text`.
    pub fn append_debug(&self, text: &mut String)
        ensures
            final(text)@ == old(text)@ + endpoint_debug_text(self@),
    {
        text.append("SourceOrDestination(");
        crate::text::append_bytes_text(text, self.0.as_slice());
        text.append(")");
        assert(final(text)@ =~= old(text)@ + endpoint_debug_text(self@));
    }
}

impl Default for SourceOrDestination {
    /// The endpoint with the empty name.
    fn default() -> (endpoint: Self)
        ensures
            endpoint@ == Seq::<u8>::empty(),
    {
        Self(Vec::new())
    }
}

impl Clone for SourceOrDestination {
    fn clone(&self) -> (endpoint: Self)
        ensures
            endpoint@ == self@,
    {
        Self(vstd::slice::slice_to_vec(self.0.as_slice()))
    }
}

impl Encode for SourceOrDestination {
    open spec fn encoded(value: Seq<u8>) -> Seq<u8> {
        name_encoded(value)
    }

    fn write_encoded(&self, state: u8, writer: &mut Vec<u8>) -> (r: Result<(), std::io::Error>) {
        write_name(&self.0, writer);
        Ok(())
    }

    fn as_bytes(&self) -> (r: Result<Vec<u8>, std::io::Error>) {
        let mut buffer: Vec<u8> = Vec::new();
        let _ = self.write_encoded(NO_STATE, &mut buffer);
        assert(buffer@ =~= Self::encoded(self@));
        Ok(buffer)
    }
}

impl Decode for SourceOrDestination {
    open spec fn decodable(state: u8, input: Seq<u8>) -> bool {
        leb128_decodable(input)
    }

    open spec fn decoded(state: u8, input: Seq<u8>) -> (Result<Seq<u8>, DecodeError>, nat) {
        (Ok(name_decoded(input).0), name_decoded(input).1)
    }

    fn can_decode(state: u8, input: &[u8]) -> (r: bool) {
        leb128_fits(input)
    }

    fn decode_reader(state: u8, reader: &mut &[u8]) -> (r: DecodeResult<Self>) {
        assert(Self::decodable(state, old(reader)@));
        let name = read_name(reader);
        assert(Self::decoded(state, old(reader)@).1 == name_decoded(old(reader)@).1);
        Ok(Box::new(SourceOrDestination(name)))
    }
}

} // verus!

verus! {

/// Decoding what `write_encoded` wrote for an endpoint, whatever follows it,
/// gives the endpoint back and consumes exactly its encoding.
pub proof fn lemma_source_or_destination_roundtrip(state: u8, name: Seq<u8>, rest: Seq<u8>)
    requires
        name.len() <= u64::MAX,
    ensures
        SourceOrDestination::decodable(state, SourceOrDestination::encoded(name) + rest),
        SourceOrDestination::decoded(state, SourceOrDestination::encoded(name) + rest) == (
            Ok::<Seq<u8>, DecodeError>(name),
            SourceOrDestination::encoded(name).len(),
        ),
{
    crate::node::lemma_name_roundtrip(name, rest);
}

} // verus!

verus! {

/// The bytes of an endpoint: the length of its name as a `VarUInt`, then
/// the name itself.
pub proof fn lemma_source_or_destination_layout(name: Seq<u8>)
    requires
        name.len() <= u64::MAX,
    ensures
        SourceOrDestination::encoded(name) == crate::varuint::VarUInt::encoded(
            crate::varuint::VarUInt(name.len() as u64),
        ) + name,
{
}

} // verus!
