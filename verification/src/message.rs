//! A message: destination, source, timestamp and data, framed on the wire
//! by the length of the rest.

use vstd::prelude::*;

use crate::decode::{Decode, DecodeError, DecodeResult};
use crate::encode::{write_all, Encode};
use crate::login_state_data::LoginStateData;
use crate::message_builder::MessageBuilder;
use crate::message_data::{
    message_data_decoded, message_data_encoded, message_data_state, MessageData, MessageDataView,
};
use crate::node::{name_decoded, name_encoded, read_name};
use crate::source_or_destination::SourceOrDestination;
use crate::varuint::{leb128_fits, leb128_bytes, leb128_decodable, leb128_len, leb128_value, VarUInt};
use crate::NO_STATE;

verus! {

/// A message between two endpoints.
#[derive(Debug)]
pub struct Message {
    pub data: MessageData,
    pub timestamp: VarUInt,
    pub source: SourceOrDestination,
    pub destination: SourceOrDestination,
}

/// The mathematical value of a `Message`.
pub struct MessageView {
    pub data: MessageDataView,
    pub timestamp: u64,
    pub source: Seq<u8>,
    pub destination: Seq<u8>,
}

impl View for Message {
    type V = MessageView;

    open spec fn view(&self) -> MessageView {
        MessageView {
            data: self.data@,
            timestamp: self.timestamp.0,
            source: self.source@,
            destination: self.destination@,
        }
    }
}

impl Clone for Message {
    fn clone(&self) -> (m: Self)
        ensures
            m@ == self@,
    {
        Message {
            data: self.data.clone(),
            timestamp: self.timestamp,
            source: self.source.clone(),
            destination: self.destination.clone(),
        }
    }
}

impl Message {
    /// A builder whose timestamp is the current time (a value that
    /// `MessageBuilder::now` returns), with empty endpoints and a connection
    /// request as data.
    pub fn builder() -> (builder: MessageBuilder)
        ensures
            builder@.source == Seq::<u8>::empty(),
            builder@.destination == Seq::<u8>::empty(),
            builder@.data == MessageDataView::LoginStateData(LoginStateData::RequestConnect),
            call_ensures(MessageBuilder::now, (), builder@.timestamp),
    {
        MessageBuilder::default()
    }

    /// The data of the message.
    pub fn data(&self) -> (data: &MessageData)
        ensures
            *data == self.data,
    {
        &self.data
    }

    /// The destination of the message.
    pub fn destination(&self) -> (destination: SourceOrDestination)
        ensures
            destination@ == self.destination@,
    {
        self.destination.clone()
    }

    /// The source of the message.
    pub fn source(&self) -> (source: SourceOrDestination)
        ensures
            source@ == self.source@,
    {
        self.source.clone()
    }

    /// The timestamp of the message.
    pub fn timestamp(&self) -> (timestamp: VarUInt)
        ensures
            timestamp == self.timestamp,
    {
        self.timestamp
    }
}

/// The fields of a message as they are written: destination, source,
/// timestamp, then data.
pub open spec fn message_body_encoded(m: MessageView) -> Seq<u8> {
    name_encoded(m.destination) + name_encoded(m.source) + leb128_bytes(m.timestamp as nat)
        + message_data_encoded(m.data)
}

/// The encoding of a message: the length of its fields, then the fields.
pub open spec fn message_encoded(m: MessageView) -> Seq<u8> {
    leb128_bytes(message_body_encoded(m).len()) + message_body_encoded(m)
}

impl Encode for Message {
    open spec fn encoded(value: MessageView) -> Seq<u8> {
        message_encoded(value)
    }

    fn write_encoded(&self, state: u8, writer: &mut Vec<u8>) -> (r: Result<(), std::io::Error>) {
        let mut buffer: Vec<u8> = Vec::new();
        self.destination.write_encoded(NO_STATE, &mut buffer).unwrap();
        self.source.write_encoded(NO_STATE, &mut buffer).unwrap();
        self.timestamp.write_encoded(NO_STATE, &mut buffer).unwrap();
        self.data.write_encoded(NO_STATE, &mut buffer).unwrap();
        assert(buffer@ =~= message_body_encoded(self@));
        let buffer_len = VarUInt(buffer.len() as u64);
        buffer_len.write_encoded(NO_STATE, writer).unwrap();
        write_all(writer, buffer.as_slice());
        assert(final(writer)@ =~= old(writer)@ + message_encoded(self@));
        Ok(())
    }

    fn as_bytes(&self) -> (r: Result<Vec<u8>, std::io::Error>) {
        let mut buffer: Vec<u8> = Vec::new();
        self.write_encoded(NO_STATE, &mut buffer).unwrap();
        assert(buffer@ =~= Self::encoded(self@));
        Ok(buffer)
    }
}

/// The bytes that a message's length prefix at the front of `input` frames:
/// as many as the length says, or all that follow when fewer are left.
pub open spec fn message_window(input: Seq<u8>) -> Seq<u8> {
    let rest = input.skip(leb128_len(input) as int);
    if leb128_value(input) < rest.len() {
        rest.take(leb128_value(input) as int)
    } else {
        rest
    }
}

/// The window after the destination.
pub open spec fn window_after_destination(input: Seq<u8>) -> Seq<u8> {
    let w = message_window(input);
    w.skip(name_decoded(w).1 as int)
}

/// The window after the destination and the source.
pub open spec fn window_after_source(input: Seq<u8>) -> Seq<u8> {
    let w = window_after_destination(input);
    w.skip(name_decoded(w).1 as int)
}

/// The window after the destination, the source and the timestamp.
pub open spec fn window_after_timestamp(input: Seq<u8>) -> Seq<u8> {
    let w = window_after_source(input);
    w.skip(leb128_len(w) as int)
}

/// Decoding a message from `input` in connection state `state` runs to
/// completion: every variable-length integer it reads ends within ten bytes.
pub open spec fn message_decodable(state: u8, input: Seq<u8>) -> bool {
    &&& leb128_decodable(input)
    &&& leb128_decodable(message_window(input))
    &&& leb128_decodable(window_after_destination(input))
    &&& leb128_decodable(window_after_source(input))
    &&& MessageData::decodable(state, window_after_timestamp(input))
}

/// What decoding a message from the front of `input` in connection state
/// `state` gives. Inside the framed window come the destination, the source,
/// the timestamp and the data, read as the data of `state`; a window that
/// ends before the data is refused. The whole window is consumed.
pub open spec fn message_decoded(state: u8, input: Seq<u8>) -> (
    Result<MessageView, DecodeError>,
    nat,
) {
    let consumed = leb128_len(input) + message_window(input).len();
    if window_after_timestamp(input).len() == 0 {
        (Err(DecodeError::MissingData), consumed)
    } else {
        match message_data_decoded(state, window_after_timestamp(input)).0 {
            Ok(data) => (
                Ok(
                    MessageView {
                        data,
                        timestamp: leb128_value(window_after_source(input)),
                        source: name_decoded(window_after_destination(input)).0,
                        destination: name_decoded(message_window(input)).0,
                    },
                ),
                consumed,
            ),
            Err(e) => (Err(e), consumed),
        }
    }
}

impl Decode for Message {
    open spec fn decodable(state: u8, input: Seq<u8>) -> bool {
        message_decodable(state, input)
    }

    open spec fn decoded(state: u8, input: Seq<u8>) -> (Result<MessageView, DecodeError>, nat) {
        message_decoded(state, input)
    }

    fn can_decode(state: u8, input: &[u8]) -> (r: bool) {
        if !leb128_fits(input) {
            return false;
        }
        let mut reader: &[u8] = input;
        let len = VarUInt::decode(&mut reader).unwrap();
        let rest: &[u8] = reader;
        let k: usize = if len.0 < rest.len() as u64 {
            len.0 as usize
        } else {
            rest.len()
        };
        let mut window: &[u8] = &rest[0..k];
        assert(window@ =~= message_window(input@));
        if !leb128_fits(window) {
            return false;
        }
        let _ = read_name(&mut window);
        assert(window@ == window_after_destination(input@));
        if !leb128_fits(window) {
            return false;
        }
        let _ = read_name(&mut window);
        assert(window@ == window_after_source(input@));
        if !leb128_fits(window) {
            return false;
        }
        let _ = VarUInt::decode(&mut window);
        assert(window@ == window_after_timestamp(input@));
        MessageData::can_decode(state, window)
    }

    fn decode_reader(state: u8, reader: &mut &[u8]) -> (r: DecodeResult<Self>) {
        assert(Self::decodable(state, old(reader)@));
        assert(Self::decoded(state, old(reader)@) == message_decoded(state, old(reader)@));
        let len = *VarUInt::decode_reader(state, reader)?;
        let rest: &[u8] = *reader;
        let k: usize = if len.0 < rest.len() as u64 {
            len.0 as usize
        } else {
            rest.len()
        };
        let mut sized_buffer: &[u8] = &rest[0..k];
        *reader = &rest[k..rest.len()];
        proof {
            assert(sized_buffer@ =~= message_window(old(reader)@));
            assert(final(reader)@ =~= old(reader)@.skip(
                (leb128_len(old(reader)@) + message_window(old(reader)@).len()) as int,
            ));
        }
        let destination: SourceOrDestination = *SourceOrDestination::decode_reader(
            state,
            &mut sized_buffer,
        )?;
        assert(sized_buffer@ == window_after_destination(old(reader)@));
        let source: SourceOrDestination = *SourceOrDestination::decode_reader(
            state,
            &mut sized_buffer,
        )?;
        assert(sized_buffer@ == window_after_source(old(reader)@));
        let timestamp: VarUInt = *VarUInt::decode_reader(state, &mut sized_buffer)?;
        assert(sized_buffer@ == window_after_timestamp(old(reader)@));
        if sized_buffer.len() == 0 {
            return Err(DecodeError::MissingData);
        }
        let data: MessageData = *MessageData::decode_reader(state, &mut sized_buffer)?;
        Ok(Box::new(Message { destination, source, timestamp, data }))
    }
}

} // verus!

verus! {

/// Decoding what `write_encoded` wrote for a message, in the connection
/// state of its data and whatever bytes follow it, gives the same message
/// back and consumes exactly its encoding.
#[verifier::spinoff_prover]
#[verifier::rlimit(40)]
pub proof fn lemma_message_roundtrip(state: u8, m: MessageView, rest: Seq<u8>)
    requires
        state == message_data_state(m.data),
        message_body_encoded(m).len() <= u64::MAX,
    ensures
        Message::decodable(state, Message::encoded(m) + rest),
        Message::decoded(state, Message::encoded(m) + rest) == (
            Ok::<MessageView, DecodeError>(m),
            Message::encoded(m).len(),
        ),
{
    let body = message_body_encoded(m);
    let len = body.len() as u64;
    let de = name_encoded(m.destination);
    let se = name_encoded(m.source);
    let te = leb128_bytes(m.timestamp as nat);
    let dd = message_data_encoded(m.data);
    let input = Message::encoded(m) + rest;
    crate::varuint::lemma_leb128_roundtrip(len, body + rest);
    assert(input =~= leb128_bytes(len as nat) + (body + rest));
    assert(input.skip(leb128_len(input) as int) =~= body + rest);
    assert(message_window(input) =~= body);
    assert(body =~= de + (se + te + dd));
    crate::node::lemma_name_roundtrip(m.destination, se + te + dd);
    assert(window_after_destination(input) =~= se + te + dd);
    assert(se + te + dd =~= se + (te + dd));
    crate::node::lemma_name_roundtrip(m.source, te + dd);
    assert(window_after_source(input) =~= te + dd);
    crate::varuint::lemma_leb128_roundtrip(m.timestamp, dd);
    assert(window_after_timestamp(input) =~= dd);
    crate::message_data::lemma_message_data_roundtrip(m.data);
}

} // verus!

verus! {

/// When the fields of a message take fewer than 128 bytes, its encoding is
/// one byte holding their length followed by the fields.
pub proof fn lemma_message_short_header(m: MessageView)
    requires
        message_body_encoded(m).len() < 128,
    ensures
        Message::encoded(m) == seq![message_body_encoded(m).len() as u8] + message_body_encoded(m),
{
}

} // verus!

verus! {

/// The bytes of a message, for every kind of data: the length of the rest,
/// then the destination's length and name, the source's length and name,
/// the timestamp, and the data.
pub proof fn lemma_message_layout(m: MessageView)
    ensures
        ({
            let fields = leb128_bytes(m.destination.len()) + m.destination + leb128_bytes(
                m.source.len(),
            ) + m.source + leb128_bytes(m.timestamp as nat) + MessageData::encoded(m.data);
            Message::encoded(m) == leb128_bytes(fields.len()) + fields
        }),
{
    let fields = leb128_bytes(m.destination.len()) + m.destination + leb128_bytes(m.source.len())
        + m.source + leb128_bytes(m.timestamp as nat) + MessageData::encoded(m.data);
    assert(message_body_encoded(m) =~= fields);
}

/// Reading, in the state of data `data`, the length of the rest followed by
/// a destination `d`, a source `s`, a timestamp `t` and the bytes of `data`,
/// whatever follows, gives the message with destination `d`, source `s`,
/// timestamp `t` and data `data`, consuming exactly those bytes.
pub proof fn lemma_message_read(
    d: Seq<u8>,
    s: Seq<u8>,
    t: u64,
    data: MessageDataView,
    rest: Seq<u8>,
)
    requires
        (leb128_bytes(d.len()) + d + leb128_bytes(s.len()) + s + leb128_bytes(t as nat)
            + MessageData::encoded(data)).len() <= u64::MAX,
    ensures
        ({
            let fields = leb128_bytes(d.len()) + d + leb128_bytes(s.len()) + s + leb128_bytes(
                t as nat,
            ) + MessageData::encoded(data);
            let input = leb128_bytes(fields.len()) + fields + rest;
            &&& Message::decodable(message_data_state(data), input)
            &&& Message::decoded(message_data_state(data), input) == (
                Ok::<MessageView, DecodeError>(
                    MessageView { data, timestamp: t, source: s, destination: d },
                ),
                (leb128_bytes(fields.len()) + fields).len(),
            )
        }),
{
    let m = MessageView { data, timestamp: t, source: s, destination: d };
    lemma_message_layout(m);
    lemma_message_roundtrip(message_data_state(data), m, rest);
}

} // verus!
