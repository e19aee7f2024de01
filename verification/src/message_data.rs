//! The data field of a message, read according to the connection state.

use vstd::prelude::*;

use crate::communication_state_data::{CommunicationStateData, CommunicationStateDataView};
use crate::decode::{Decode, DecodeError, DecodeResult};
use crate::encode::Encode;
use crate::login_state_data::LoginStateData;
use crate::NO_STATE;

verus! {

/// The data of a message: login data or communication data.
#[derive(Debug, PartialEq, Eq)]
pub enum MessageData {
    LoginStateData(LoginStateData),
    CommunicationStateData(CommunicationStateData),
}

/// The mathematical value of a `MessageData`.
pub enum MessageDataView {
    LoginStateData(LoginStateData),
    CommunicationStateData(CommunicationStateDataView),
}

impl View for MessageData {
    type V = MessageDataView;

    open spec fn view(&self) -> MessageDataView {
        match self {
            MessageData::LoginStateData(l) => MessageDataView::LoginStateData(*l),
            MessageData::CommunicationStateData(c) => MessageDataView::CommunicationStateData(c@),
        }
    }
}

impl Clone for MessageData {
    fn clone(&self) -> (r: Self)
        ensures
            r@ == self@,
    {
        match self {
            MessageData::LoginStateData(l) => MessageData::LoginStateData(*l),
            MessageData::CommunicationStateData(c) => MessageData::CommunicationStateData(c.clone()),
        }
    }
}

impl From<LoginStateData> for MessageData {
    fn from(value: LoginStateData) -> (r: Self)
        ensures
            r@ == MessageDataView::LoginStateData(value),
    {
        match value {
            LoginStateData::RequestConnect => Self::LoginStateData(LoginStateData::RequestConnect),
            LoginStateData::RequestConnectAck => {
                Self::LoginStateData(LoginStateData::RequestConnectAck)
            },
        }
    }
}

impl vstd::std_specs::convert::FromSpecImpl<LoginStateData> for MessageData {
    open spec fn obeys_from_spec() -> bool {
        true
    }

    open spec fn from_spec(v: LoginStateData) -> MessageData {
        MessageData::LoginStateData(v)
    }
}

/// The encoding of message data: that of the data it carries.
pub open spec fn message_data_encoded(value: MessageDataView) -> Seq<u8> {
    match value {
        MessageDataView::LoginStateData(l) => LoginStateData::encoded(l),
        MessageDataView::CommunicationStateData(c) => CommunicationStateData::encoded(c),
    }
}

impl Encode for MessageData {
    open spec fn encoded(value: MessageDataView) -> Seq<u8> {
        message_data_encoded(value)
    }

    fn write_encoded(&self, _state: u8, writer: &mut Vec<u8>) -> (r: Result<(), std::io::Error>) {
        match self {
            MessageData::LoginStateData(login_state_data) => {
                login_state_data.write_encoded(NO_STATE, writer)
            },
            MessageData::CommunicationStateData(communication_state_data) => {
                communication_state_data.write_encoded(NO_STATE, writer)
            },
        }
    }

    fn as_bytes(&self) -> (r: Result<Vec<u8>, std::io::Error>) {
        match self {
            MessageData::LoginStateData(login_state_data) => login_state_data.as_bytes(),
            MessageData::CommunicationStateData(communication_state_data) => {
                communication_state_data.as_bytes()
            },
        }
    }
}

/// What decoding message data in state `state` from the front of `input`
/// gives: login data in state 0, communication data in state 1, and an
/// error, with nothing consumed, in any other state.
pub open spec fn message_data_decoded(state: u8, input: Seq<u8>) -> (
    Result<MessageDataView, DecodeError>,
    nat,
) {
    if state == 0 {
        let (r, n) = LoginStateData::decoded(state, input);
        (
            match r {
                Ok(l) => Ok(MessageDataView::LoginStateData(l)),
                Err(e) => Err(e),
            },
            n,
        )
    } else if state == 1 {
        let (r, n) = CommunicationStateData::decoded(state, input);
        (
            match r {
                Ok(c) => Ok(MessageDataView::CommunicationStateData(c)),
                Err(e) => Err(e),
            },
            n,
        )
    } else {
        (Err(DecodeError::InvalidState), 0)
    }
}

impl Decode for MessageData {
    open spec fn decodable(state: u8, input: Seq<u8>) -> bool {
        &&& state == 0 ==> LoginStateData::decodable(state, input)
        &&& state == 1 ==> CommunicationStateData::decodable(state, input)
    }

    open spec fn decoded(state: u8, input: Seq<u8>) -> (Result<MessageDataView, DecodeError>, nat) {
        message_data_decoded(state, input)
    }

    fn can_decode(state: u8, input: &[u8]) -> (r: bool) {
        match state {
            0x00 => LoginStateData::can_decode(state, input),
            0x01 => CommunicationStateData::can_decode(state, input),
            _ => true,
        }
    }

    fn decode_reader(state: u8, reader: &mut &[u8]) -> (r: DecodeResult<Self>) {
        match state {
            0x00 => Ok(
                Box::new(MessageData::LoginStateData(*LoginStateData::decode_reader(state, reader)?)),
            ),
            0x01 => Ok(
                Box::new(
                    MessageData::CommunicationStateData(
                        *CommunicationStateData::decode_reader(state, reader)?,
                    ),
                ),
            ),
            _ => Err(DecodeError::InvalidState),
        }
    }
}

} // verus!

verus! {

/// The connection state in which `value` is read: login data in state 0,
/// communication data in state 1.
pub open spec fn message_data_state(value: MessageDataView) -> u8 {
    match value {
        MessageDataView::LoginStateData(_) => 0,
        MessageDataView::CommunicationStateData(_) => 1,
    }
}

/// Decoding exactly what `write_encoded` wrote for message data, in the
/// state of that data, gives the same data back and consumes all of it.
pub proof fn lemma_message_data_roundtrip(value: MessageDataView)
    ensures
        MessageData::decodable(message_data_state(value), MessageData::encoded(value)),
        MessageData::decoded(message_data_state(value), MessageData::encoded(value)) == (
            Ok::<MessageDataView, DecodeError>(value),
            MessageData::encoded(value).len(),
        ),
{
    match value {
        MessageDataView::LoginStateData(l) => {
            crate::login_state_data::lemma_login_roundtrip(0, l, Seq::empty());
            assert(LoginStateData::encoded(l) + Seq::<u8>::empty() =~= LoginStateData::encoded(l));
        },
        MessageDataView::CommunicationStateData(c) => {
            crate::communication_state_data::lemma_communication_roundtrip(1, c);
        },
    }
}

} // verus!
