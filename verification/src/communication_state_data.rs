//! The data exchanged while a connection is in the communication state.

use vstd::prelude::*;

use crate::decode::{Decode, DecodeError, DecodeResult};
use crate::encode::{write_all, Encode};
use crate::varuint::{leb128_fits, leb128_decodable, leb128_len, leb128_value, VarUInt};
use crate::text::decimal_digits;
use crate::NO_STATE;
use vstd::string::StringExecFns;

verus! {

/// Communication data: requests to the server and text or files for other
/// clients. The variants with a payload carry the bytes that follow the code.
#[derive(Debug, PartialEq, Eq, PartialOrd, Ord)]
pub enum CommunicationStateData {
    RequestDisconnect,
    RequestPing,
    RequestEcho(Vec<u8>),
    CommunicationText(Vec<u8>),
    CommunicationFile(Vec<u8>),
}

/// The mathematical value of a `CommunicationStateData`.
pub enum CommunicationStateDataView {
    RequestDisconnect,
    RequestPing,
    RequestEcho(Seq<u8>),
    CommunicationText(Seq<u8>),
    CommunicationFile(Seq<u8>),
}

impl View for CommunicationStateData {
    type V = CommunicationStateDataView;

    open spec fn view(&self) -> CommunicationStateDataView {
        match self {
            CommunicationStateData::RequestDisconnect => CommunicationStateDataView::RequestDisconnect,
            CommunicationStateData::RequestPing => CommunicationStateDataView::RequestPing,
            CommunicationStateData::RequestEcho(e) => CommunicationStateDataView::RequestEcho(e@),
            CommunicationStateData::CommunicationText(t) => CommunicationStateDataView::CommunicationText(
                t@,
            ),
            CommunicationStateData::CommunicationFile(f) => CommunicationStateDataView::CommunicationFile(
                f@,
            ),
        }
    }
}

impl CommunicationStateDataView {
    /// The code of this data on the wire.
    pub open spec fn code(self) -> u8 {
        match self {
            CommunicationStateDataView::RequestDisconnect => 0x00,
            CommunicationStateDataView::RequestPing => 0x01,
            CommunicationStateDataView::RequestEcho(_) => 0x02,
            CommunicationStateDataView::CommunicationText(_) => 0x03,
            CommunicationStateDataView::CommunicationFile(_) => 0x04,
        }
    }

    /// The bytes carried after the code: empty for the requests without one.
    pub open spec fn payload(self) -> Seq<u8> {
        match self {
            CommunicationStateDataView::RequestEcho(e) => e,
            CommunicationStateDataView::CommunicationText(t) => t,
            CommunicationStateDataView::CommunicationFile(f) => f,
            _ => Seq::empty(),
        }
    }

    /// The data of the same kind carrying `payload` (the requests without a
    /// payload ignore it).
    pub open spec fn with_payload(self, payload: Seq<u8>) -> CommunicationStateDataView {
        match self {
            CommunicationStateDataView::RequestEcho(_) => CommunicationStateDataView::RequestEcho(payload),
            CommunicationStateDataView::CommunicationText(_) => CommunicationStateDataView::CommunicationText(
                payload,
            ),
            CommunicationStateDataView::CommunicationFile(_) => CommunicationStateDataView::CommunicationFile(
                payload,
            ),
            _ => self,
        }
    }
}

/// Why a value could not be turned into communication data.
#[derive(Debug, Clone, Copy, PartialEq, Eq)]
pub enum CommunicationStateDataError {
    /// The code names no communication data.
    Conversion(VarUInt),
}

/// The message of a communication conversion error, as in
/// `failed to convert 7 to CommunicationStateData`.
pub open spec fn communication_error_text(e: CommunicationStateDataError) -> Seq<char> {
    match e {
        CommunicationStateDataError::Conversion(v) => "failed to convert "@ + decimal_digits(
            v.0 as nat,
        ) + " to CommunicationStateData"@,
    }
}

impl CommunicationStateDataError {
    /// The message of the error.
    pub fn to_string(&self) -> (text: String)
        ensures
            text@ == communication_error_text(*self),
    {
        match self {
            CommunicationStateDataError::Conversion(v) => {
                let mut text = String::from_str("failed to convert ");
                let digits = v.to_string();
                text.append(digits.as_str());
                text.append(" to CommunicationStateData");
                text
            },
        }
    }
}

/// The communication data with code `code` and an empty payload, or the
/// conversion error.
pub open spec fn communication_from_code(code: u64) -> Result<
    CommunicationStateDataView,
    CommunicationStateDataError,
> {
    if code == 0 {
        Ok(CommunicationStateDataView::RequestDisconnect)
    } else if code == 1 {
        Ok(CommunicationStateDataView::RequestPing)
    } else if code == 2 {
        Ok(CommunicationStateDataView::RequestEcho(Seq::empty()))
    } else if code == 3 {
        Ok(CommunicationStateDataView::CommunicationText(Seq::empty()))
    } else if code == 4 {
        Ok(CommunicationStateDataView::CommunicationFile(Seq::empty()))
    } else {
        Err(CommunicationStateDataError::Conversion(VarUInt(code)))
    }
}

/// Copies the bytes of `v`.
fn copy_bytes(v: &Vec<u8>) -> (r: Vec<u8>)
    ensures
        r@ == v@,
{
    vstd::slice::slice_to_vec(v.as_slice())
}

impl Clone for CommunicationStateData {
    fn clone(&self) -> (r: Self)
        ensures
            r@ == self@,
    {
        match self {
            CommunicationStateData::RequestDisconnect => CommunicationStateData::RequestDisconnect,
            CommunicationStateData::RequestPing => CommunicationStateData::RequestPing,
            CommunicationStateData::RequestEcho(e) => CommunicationStateData::RequestEcho(
                copy_bytes(e),
            ),
            CommunicationStateData::CommunicationText(t) => CommunicationStateData::CommunicationText(
                copy_bytes(t),
            ),
            CommunicationStateData::CommunicationFile(f) => CommunicationStateData::CommunicationFile(
                copy_bytes(f),
            ),
        }
    }
}

impl CommunicationStateData {
    /// The code of this data on the wire.
    pub fn discriminant(&self) -> (d: u8)
        ensures
            d == self@.code(),
    {
        match self {
            CommunicationStateData::RequestDisconnect => 0x00,
            CommunicationStateData::RequestPing => 0x01,
            CommunicationStateData::RequestEcho(_) => 0x02,
            CommunicationStateData::CommunicationText(_) => 0x03,
            CommunicationStateData::CommunicationFile(_) => 0x04,
        }
    }
}

impl TryFrom<VarUInt> for CommunicationStateData {
    type Error = CommunicationStateDataError;

    /// The communication data whose code is `value`, with an empty payload.
    fn try_from(value: VarUInt) -> (r: Result<Self, Self::Error>)
        ensures
            match r {
                Ok(data) => communication_from_code(value.0) == Ok::<
                    CommunicationStateDataView,
                    CommunicationStateDataError,
                >(data@),
                Err(e) => communication_from_code(value.0) == Err::<
                    CommunicationStateDataView,
                    CommunicationStateDataError,
                >(e),
            },
    {
        match value.0 {
            0x00 => Ok(Self::RequestDisconnect),
            0x01 => Ok(Self::RequestPing),
            0x02 => Ok(Self::RequestEcho(Vec::new())),
            0x03 => Ok(Self::CommunicationText(Vec::new())),
            0x04 => Ok(Self::CommunicationFile(Vec::new())),
            _ => Err(CommunicationStateDataError::Conversion(value)),
        }
    }
}

impl vstd::std_specs::convert::TryFromSpecImpl<VarUInt> for CommunicationStateData {
    /// The payloads are vectors, so the conversion is stated over views by
    /// the `ensures` of `try_from` instead.
    open spec fn obeys_try_from_spec() -> bool {
        false
    }

    open spec fn try_from_spec(value: VarUInt) -> Result<
        CommunicationStateData,
        CommunicationStateDataError,
    > {
        arbitrary()
    }
}

impl Encode for CommunicationStateData {
    open spec fn encoded(value: CommunicationStateDataView) -> Seq<u8> {
        seq![value.code()] + value.payload()
    }

    fn write_encoded(&self, _state: u8, writer: &mut Vec<u8>) -> (r: Result<(), std::io::Error>) {
        writer.push(self.discriminant());
        let empty: Vec<u8> = Vec::new();
        let additional_data: &Vec<u8> = match self {
            CommunicationStateData::RequestEcho(e) => e,
            CommunicationStateData::CommunicationFile(f) => f,
            CommunicationStateData::CommunicationText(t) => t,
            _ => &empty,
        };
        write_all(writer, additional_data.as_slice());
        assert(writer@ =~= old(writer)@ + Self::encoded(self@));
        Ok(())
    }

    fn as_bytes(&self) -> (r: Result<Vec<u8>, std::io::Error>) {
        let mut buffer: Vec<u8> = Vec::new();
        let _ = self.write_encoded(NO_STATE, &mut buffer);
        assert(buffer@ =~= Self::encoded(self@));
        Ok(buffer)
    }
}

/// What decoding communication data from the front of `input` gives: the
/// code, then every remaining byte, which becomes the payload of the
/// variants that carry one.
pub open spec fn communication_decoded(input: Seq<u8>) -> (
    Result<CommunicationStateDataView, DecodeError>,
    nat,
) {
    let n = leb128_len(input);
    match communication_from_code(leb128_value(input)) {
        Ok(data) => (Ok(data.with_payload(input.skip(n as int))), input.len()),
        Err(e) => (Err(DecodeError::CommunicationState(e)), n),
    }
}

impl Decode for CommunicationStateData {
    open spec fn decodable(state: u8, input: Seq<u8>) -> bool {
        leb128_decodable(input)
    }

    open spec fn decoded(state: u8, input: Seq<u8>) -> (
        Result<CommunicationStateDataView, DecodeError>,
        nat,
    ) {
        communication_decoded(input)
    }

    fn can_decode(state: u8, input: &[u8]) -> (r: bool) {
        leb128_fits(input)
    }

    fn decode_reader(state: u8, reader: &mut &[u8]) -> (r: DecodeResult<Self>) {
        let code_value = *VarUInt::decode_reader(NO_STATE, reader)?;
        let code = match CommunicationStateData::try_from(code_value) {
            Ok(code) => code,
            Err(e) => {
                return Err(DecodeError::CommunicationState(e));
            },
        };
        let rest: &[u8] = *reader;
        let buf = vstd::slice::slice_to_vec(rest);
        *reader = &rest[rest.len()..rest.len()];
        assert(final(reader)@ =~= old(reader)@.skip(old(reader)@.len() as int));
        let decoded = match code {
            Self::RequestEcho(_) => Self::RequestEcho(buf),
            Self::CommunicationText(_) => Self::CommunicationText(buf),
            Self::CommunicationFile(_) => Self::CommunicationFile(buf),
            _ => code,
        };
        Ok(Box::new(decoded))
    }
}

} // verus!

verus! {

/// Decoding exactly what `write_encoded` wrote for communication data gives
/// the same data back and consumes all of it.
pub proof fn lemma_communication_roundtrip(state: u8, data: CommunicationStateDataView)
    ensures
        CommunicationStateData::decodable(state, CommunicationStateData::encoded(data)),
        CommunicationStateData::decoded(state, CommunicationStateData::encoded(data)) == (
            Ok::<CommunicationStateDataView, DecodeError>(data),
            CommunicationStateData::encoded(data).len(),
        ),
{
    let input = CommunicationStateData::encoded(data);
    let code = data.code();
    assert(input[0] == code);
    crate::varuint::lemma_leb128_single_byte(input);
    assert(input.skip(1) =~= data.payload());
}

/// Decoding communication data fails exactly when the code at the front is
/// above four, and then consumes only the code.
pub proof fn lemma_communication_rejects(state: u8, input: Seq<u8>)
    ensures
        (CommunicationStateData::decoded(state, input).0 is Err) <==> leb128_value(input) > 4,
        leb128_value(input) > 4 ==> CommunicationStateData::decoded(state, input) == (
            Err::<CommunicationStateDataView, DecodeError>(
                DecodeError::CommunicationState(
                    CommunicationStateDataError::Conversion(VarUInt(leb128_value(input))),
                ),
            ),
            leb128_len(input),
        ),
{
}

} // verus!

verus! {

/// The bytes of communication data: its code, then the payload bytes as they
/// are, and nothing else.
pub proof fn lemma_communication_layout(p: Seq<u8>)
    ensures
        CommunicationStateData::encoded(CommunicationStateDataView::RequestDisconnect) == seq![0u8],
        CommunicationStateData::encoded(CommunicationStateDataView::RequestPing) == seq![1u8],
        CommunicationStateData::encoded(CommunicationStateDataView::RequestEcho(p)) == seq![2u8]
            + p,
        CommunicationStateData::encoded(CommunicationStateDataView::CommunicationText(p)) == seq![
            3u8,
        ] + p,
        CommunicationStateData::encoded(CommunicationStateDataView::CommunicationFile(p)) == seq![
            4u8,
        ] + p,
{
    assert(seq![0u8] + Seq::<u8>::empty() =~= seq![0u8]);
    assert(seq![1u8] + Seq::<u8>::empty() =~= seq![1u8]);
}

/// Decoding a code byte followed by bytes `p` consumes everything: codes 0
/// and 1 give the requests without payload, codes 2, 3 and 4 give an echo
/// request, a text and a file whose payload is all of `p`.
pub proof fn lemma_communication_read(state: u8, p: Seq<u8>)
    ensures
        CommunicationStateData::decoded(state, seq![0u8] + p) == (
            Ok::<CommunicationStateDataView, DecodeError>(
                CommunicationStateDataView::RequestDisconnect,
            ),
            p.len() + 1,
        ),
        CommunicationStateData::decoded(state, seq![1u8] + p) == (
            Ok::<CommunicationStateDataView, DecodeError>(CommunicationStateDataView::RequestPing),
            p.len() + 1,
        ),
        CommunicationStateData::decoded(state, seq![2u8] + p) == (
            Ok::<CommunicationStateDataView, DecodeError>(
                CommunicationStateDataView::RequestEcho(p),
            ),
            p.len() + 1,
        ),
        CommunicationStateData::decoded(state, seq![3u8] + p) == (
            Ok::<CommunicationStateDataView, DecodeError>(
                CommunicationStateDataView::CommunicationText(p),
            ),
            p.len() + 1,
        ),
        CommunicationStateData::decoded(state, seq![4u8] + p) == (
            Ok::<CommunicationStateDataView, DecodeError>(
                CommunicationStateDataView::CommunicationFile(p),
            ),
            p.len() + 1,
        ),
{
    let inputs = seq![seq![0u8] + p, seq![1u8] + p, seq![2u8] + p, seq![3u8] + p, seq![4u8] + p];
    assert forall|c: int| 0 <= c < 5 implies {
        &&& leb128_len(#[trigger] inputs[c]) == 1
        &&& leb128_value(inputs[c]) == c
        &&& inputs[c].skip(1) == p
    } by {
        assert(inputs[c][0] == c);
        crate::varuint::lemma_leb128_single_byte(inputs[c]);
        assert(inputs[c].skip(1) =~= p);
    }
    assert(inputs[0] == seq![0u8] + p);
    assert(inputs[1] == seq![1u8] + p);
    assert(inputs[2] == seq![2u8] + p);
    assert(inputs[3] == seq![3u8] + p);
    assert(inputs[4] == seq![4u8] + p);
}

} // verus!
