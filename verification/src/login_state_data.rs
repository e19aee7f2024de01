//! The data exchanged while a connection is in the login state.

use vstd::prelude::*;

use crate::decode::{Decode, DecodeError, DecodeResult};
use crate::encode::{Encode};
use crate::message_data::MessageData;
use crate::varuint::{leb128_fits, leb128_decodable, leb128_len, leb128_value, VarUInt};
use crate::text::decimal_digits;
use crate::NO_STATE;
use vstd::string::StringExecFns;

verus! {

/// Login data: the client asks to connect, then acknowledges the answer.
#[derive(Clone, Copy, Debug, PartialEq, Eq)]
pub enum LoginStateData {
    RequestConnect,
    RequestConnectAck,
}

impl View for LoginStateData {
    type V = LoginStateData;

    open spec fn view(&self) -> LoginStateData {
        *self
    }
}

/// Why a value could not be turned into login data.
#[derive(Debug, Clone, Copy, PartialEq, Eq)]
pub enum LoginStateDataError {
    /// The code names no login data.
    Conversion(VarUInt),
}

/// The message of a login conversion error, as in
/// `failed to convert 7 to LoginStateData`.
pub open spec fn login_error_text(e: LoginStateDataError) -> Seq<char> {
    match e {
        LoginStateDataError::Conversion(v) => "failed to convert "@ + decimal_digits(v.0 as nat)
            + " to LoginStateData"@,
    }
}

impl LoginStateDataError {
    /// The message of the error.
    pub fn to_string(&self) -> (text: String)
        ensures
            text@ == login_error_text(*self),
    {
        match self {
            LoginStateDataError::Conversion(v) => {
                let mut text = String::from_str("failed to convert ");
                let digits = v.to_string();
                text.append(digits.as_str());
                text.append(" to LoginStateData");
                text
            },
        }
    }
}

/// The login data with code `code`, or the conversion error.
pub open spec fn login_from_code(code: u64) -> Result<LoginStateData, LoginStateDataError> {
    if code == 0 {
        Ok(LoginStateData::RequestConnect)
    } else if code == 1 {
        Ok(LoginStateData::RequestConnectAck)
    } else {
        Err(LoginStateDataError::Conversion(VarUInt(code)))
    }
}

impl LoginStateData {
    /// The code of this login data on the wire.
    pub open spec fn code(self) -> u8 {
        match self {
            LoginStateData::RequestConnect => 0x00,
            LoginStateData::RequestConnectAck => 0x01,
        }
    }

    /// The code of this login data on the wire.
    pub fn discriminant(&self) -> (d: u8)
        ensures
            d == self.code(),
    {
        match self {
            LoginStateData::RequestConnect => 0x00,
            LoginStateData::RequestConnectAck => 0x01,
        }
    }
}

impl TryFrom<MessageData> for LoginStateData {
    type Error = &'static str;

    /// The login data that `value` carries; other message data is refused.
    fn try_from(value: MessageData) -> (r: Result<Self, Self::Error>)
        ensures
            match value {
                MessageData::LoginStateData(e) => r == Ok::<LoginStateData, &'static str>(e),
                _ => r == Err::<LoginStateData, &'static str>(
                    "could not convert to LoginStateData",
                ),
            },
    {
        match value {
            MessageData::LoginStateData(e) => Ok(e),
            _ => Err("could not convert to LoginStateData"),
        }
    }
}

impl vstd::std_specs::convert::TryFromSpecImpl<MessageData> for LoginStateData {
    open spec fn obeys_try_from_spec() -> bool {
        true
    }

    open spec fn try_from_spec(value: MessageData) -> Result<LoginStateData, &'static str> {
        match value {
            MessageData::LoginStateData(e) => Ok(e),
            _ => Err("could not convert to LoginStateData"),
        }
    }
}

impl TryFrom<VarUInt> for LoginStateData {
    type Error = LoginStateDataError;

    /// The login data whose code is `value`.
    fn try_from(value: VarUInt) -> (r: Result<Self, Self::Error>)
        ensures
            r == login_from_code(value.0),
    {
        match value.0 {
            0x00 => Ok(Self::RequestConnect),
            0x01 => Ok(Self::RequestConnectAck),
            _ => Err(LoginStateDataError::Conversion(value)),
        }
    }
}

impl vstd::std_specs::convert::TryFromSpecImpl<VarUInt> for LoginStateData {
    open spec fn obeys_try_from_spec() -> bool {
        true
    }

    open spec fn try_from_spec(value: VarUInt) -> Result<LoginStateData, LoginStateDataError> {
        login_from_code(value.0)
    }
}

impl Encode for LoginStateData {
    open spec fn encoded(value: LoginStateData) -> Seq<u8> {
        seq![value.code()]
    }

    fn write_encoded(&self, _state: u8, writer: &mut Vec<u8>) -> (r: Result<(), std::io::Error>) {
        writer.push(self.discriminant());
        assert(writer@ =~= old(writer)@ + Self::encoded(self@));
        Ok(())
    }

    fn as_bytes(&self) -> (r: Result<Vec<u8>, std::io::Error>) {
        let mut buffer: Vec<u8> = Vec::new();
        let _ = self.write_encoded(NO_STATE, &mut buffer);
        assert(buffer@ =~= Self::encoded(self@));
        Ok(buffer)
    }
}

/// What decoding login data from the front of `input` gives.
pub open spec fn login_decoded(input: Seq<u8>) -> (Result<LoginStateData, DecodeError>, nat) {
    (
        match login_from_code(leb128_value(input)) {
            Ok(data) => Ok(data),
            Err(e) => Err(DecodeError::LoginState(e)),
        },
        leb128_len(input),
    )
}

impl Decode for LoginStateData {
    open spec fn decodable(state: u8, input: Seq<u8>) -> bool {
        leb128_decodable(input)
    }

    open spec fn decoded(state: u8, input: Seq<u8>) -> (Result<LoginStateData, DecodeError>, nat) {
        login_decoded(input)
    }

    fn can_decode(state: u8, input: &[u8]) -> (r: bool) {
        leb128_fits(input)
    }

    fn decode_reader(state: u8, reader: &mut &[u8]) -> (r: DecodeResult<Self>) {
        let value = *VarUInt::decode_reader(NO_STATE, reader)?;
        match LoginStateData::try_from(value) {
            Ok(data) => Ok(Box::new(data)),
            Err(e) => Err(DecodeError::LoginState(e)),
        }
    }
}

} // verus!

verus! {

/// Decoding what `write_encoded` wrote for login data, whatever follows it,
/// gives the same data back and consumes its one byte.
pub proof fn lemma_login_roundtrip(state: u8, data: LoginStateData, rest: Seq<u8>)
    ensures
        LoginStateData::decodable(state, LoginStateData::encoded(data) + rest),
        LoginStateData::decoded(state, LoginStateData::encoded(data) + rest) == (
            Ok::<LoginStateData, DecodeError>(data),
            1nat,
        ),
{
    let input = LoginStateData::encoded(data) + rest;
    assert(input[0] == data.code());
    crate::varuint::lemma_leb128_single_byte(input);
}

} // verus!

verus! {

/// Decoding login data fails exactly when the code at the front is neither
/// zero nor one; either way only the code is consumed.
pub proof fn lemma_login_rejects(state: u8, input: Seq<u8>)
    ensures
        (LoginStateData::decoded(state, input).0 is Err) <==> leb128_value(input) > 1,
        leb128_value(input) > 1 ==> LoginStateData::decoded(state, input).0 == Err::<
            LoginStateData,
            DecodeError,
        >(DecodeError::LoginState(LoginStateDataError::Conversion(VarUInt(leb128_value(input))))),
        LoginStateData::decoded(state, input).1 == leb128_len(input),
{
}

} // verus!

verus! {

/// Login data is written as one byte, 0 for a connection request and 1 for
/// its acknowledgement; reading a byte below 128 followed by anything gives
/// the request for 0, the acknowledgement for 1 and a conversion error
/// naming the byte otherwise, consuming only that byte.
pub proof fn lemma_login_layout(state: u8, c: u8, rest: Seq<u8>)
    requires
        c < 128,
    ensures
        LoginStateData::encoded(LoginStateData::RequestConnect) == seq![0u8],
        LoginStateData::encoded(LoginStateData::RequestConnectAck) == seq![1u8],
        LoginStateData::decoded(state, seq![c] + rest) == (
            if c == 0 {
                Ok::<LoginStateData, DecodeError>(LoginStateData::RequestConnect)
            } else if c == 1 {
                Ok::<LoginStateData, DecodeError>(LoginStateData::RequestConnectAck)
            } else {
                Err::<LoginStateData, DecodeError>(
                    DecodeError::LoginState(LoginStateDataError::Conversion(VarUInt(c as u64))),
                )
            },
            1nat,
        ),
{
    let input = seq![c] + rest;
    assert(input[0] == c);
    crate::varuint::lemma_leb128_single_byte(input);
}

} // verus!
