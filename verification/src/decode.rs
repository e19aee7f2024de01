use vstd::prelude::*;
use vstd::string::StringExecFns;

verus! {

/// Why a value could not be decoded.
#[derive(Debug, Clone, Copy, PartialEq, Eq)]
pub enum DecodeError {
    /// The code read in the login state names no login data.
    LoginState(crate::login_state_data::LoginStateDataError),
    /// The code read in the communication state names no communication data.
    CommunicationState(crate::communication_state_data::CommunicationStateDataError),
    /// The connection state is neither login nor communication.
    InvalidState,
    /// The framed message ends before its data field.
    MissingData,
}

impl DecodeError {
    /// The message of the error.
    pub fn to_string(&self) -> (text: String)
        ensures
            text@ == match self {
                DecodeError::LoginState(e) => crate::login_state_data::login_error_text(*e),
                DecodeError::CommunicationState(e) => {
                    crate::communication_state_data::communication_error_text(*e)
                },
                DecodeError::InvalidState => "invalid state passed"@,
                DecodeError::MissingData => "message has no data field"@,
            },
    {
        match self {
            DecodeError::LoginState(e) => e.to_string(),
            DecodeError::CommunicationState(e) => e.to_string(),
            DecodeError::InvalidState => String::from_str("invalid state passed"),
            DecodeError::MissingData => String::from_str("message has no data field"),
        }
    }
}

/// The result of a decoder: the boxed value or the reason it failed.
pub type DecodeResult<T> = Result<Box<T>, DecodeError>;

/// Types that can be read back from the front of a byte stream.
pub trait Decode: View + Sized {
    /// Whether decoding from `input` runs to completion; on the other inputs
    /// a variable-length integer runs past ten bytes and its shift overflows.
    spec fn decodable(state: u8, input: Seq<u8>) -> bool;

    /// What decoding from `input` gives: the view of the decoded value or the
    /// error, and how many bytes of `input` are consumed.
    spec fn decoded(state: u8, input: Seq<u8>) -> (Result<Self::V, DecodeError>, nat);

    /// Whether decoding from `input` runs to completion.
    fn can_decode(state: u8, input: &[u8]) -> (r: bool)
        ensures
            r == Self::decodable(state, input@),
    ;

    /// Decodes a value from the front of `reader` in connection state
    /// `state`, and advances `reader` past the bytes consumed.
    fn decode_reader(state: u8, reader: &mut &[u8]) -> (r: DecodeResult<Self>)
        requires
            Self::decodable(state, old(reader)@),
        ensures
            Self::decoded(state, old(reader)@).1 <= old(reader)@.len(),
            final(reader)@ == old(reader)@.skip(Self::decoded(state, old(reader)@).1 as int),
            match r {
                Ok(value) => Self::decoded(state, old(reader)@).0 == Ok::<Self::V, DecodeError>(
                    (*value)@,
                ),
                Err(e) => Self::decoded(state, old(reader)@).0 == Err::<Self::V, DecodeError>(e),
            },
    ;
}

} // verus!
