//! Unsigned LEB128 integers: seven bits per byte, least significant group
//! first, with the high bit set on every byte but the last.

use vstd::prelude::*;
use vstd::string::StringExecFns;

use crate::decode::{Decode, DecodeError, DecodeResult};
use crate::encode::{write_all, Encode};
use crate::text::{decimal_digits, decimal_text};
use crate::NO_STATE;

verus! {

/// An I/O error met while reading or writing a `VarUInt`.
#[derive(Debug)]
pub struct VarUIntError(pub std::io::Error);

impl From<std::io::Error> for VarUIntError {
    fn from(error: std::io::Error) -> (r: Self)
        ensures
            r.0 == error,
    {
        VarUIntError(error)
    }
}

/// Calls `Display` for `std::io::Error` (`format!("{}", error)`). The error
/// is opaque here, so nothing is stated about its text.
#[verifier::external_body]
fn io_error_text(error: &std::io::Error) -> String {
    format!("{}", error)
}

impl VarUIntError {
    /// The message of the error: `IO error: ` followed by the text of the I/O
    /// error.
    pub fn to_string(&self) -> (text: String)
        ensures
            text@.len() >= "IO error: "@.len(),
            text@.take("IO error: "@.len() as int) == "IO error: "@,
    {
        let mut text = String::from_str("IO error: ");
        let cause = io_error_text(&self.0);
        text.append(cause.as_str());
        assert(text@.take("IO error: "@.len() as int) =~= "IO error: "@);
        text
    }
}

impl vstd::std_specs::convert::FromSpecImpl<std::io::Error> for VarUIntError {
    open spec fn obeys_from_spec() -> bool {
        true
    }

    open spec fn from_spec(v: std::io::Error) -> VarUIntError {
        VarUIntError(v)
    }
}

/// The integer type that a `VarUInt` carries.
pub type VarUIntSize = u64;

/// The raw bytes of an encoded `VarUInt`.
pub type RawVarUInt = Vec<u8>;

/// A variable-length unsigned integer.
#[derive(Debug, Clone, Copy, PartialEq, Eq, PartialOrd, Ord)]
pub struct VarUInt(pub VarUIntSize);

impl View for VarUInt {
    type V = VarUInt;

    open spec fn view(&self) -> VarUInt {
        *self
    }
}

/// `128` raised to the power `n`.
pub open spec fn pow128(n: nat) -> nat
    decreases n,
{
    if n == 0 {
        1
    } else {
        128 * pow128((n - 1) as nat)
    }
}

/// The LEB128 encoding of `v`.
pub open spec fn leb128_bytes(v: nat) -> Seq<u8>
    decreases v,
{
    if v < 128 {
        seq![v as u8]
    } else {
        seq![(v % 128 + 128) as u8] + leb128_bytes(v / 128)
    }
}

/// How many bytes a LEB128 decoder reads from the front of `s`: up to and
/// including the first byte whose high bit is clear, or all of `s` when no
/// byte ends the integer.
pub open spec fn leb128_len(s: Seq<u8>) -> nat
    decreases s.len(),
{
    if s.len() == 0 {
        0
    } else if s[0] < 128 {
        1
    } else {
        1 + leb128_len(s.drop_first())
    }
}

/// The number whose base-128 digits, least significant first, are the low
/// seven bits of the bytes of `s`.
pub open spec fn leb128_digits(s: Seq<u8>) -> nat
    decreases s.len(),
{
    if s.len() == 0 {
        0
    } else {
        (s[0] % 128) as nat + 128 * leb128_digits(s.drop_first())
    }
}

/// The value a decoder reads from the front of `s`, kept to 64 bits.
pub open spec fn leb128_value(s: Seq<u8>) -> u64 {
    (leb128_digits(s.take(leb128_len(s) as int)) % 0x1_0000_0000_0000_0000) as u64
}

/// A decoder reading from `s` stops within ten bytes; on a longer run of
/// continuation bytes the shift of the eleventh overflows.
pub open spec fn leb128_decodable(s: Seq<u8>) -> bool {
    leb128_len(s) <= 10
}

proof fn lemma_leb128_len_bound(s: Seq<u8>)
    ensures
        leb128_len(s) <= s.len(),
    decreases s.len(),
{
    if s.len() > 0 && s[0] >= 128 {
        lemma_leb128_len_bound(s.drop_first());
    }
}

/// The decoder's length is the position after the first terminating byte,
/// or the whole input when there is none.
proof fn lemma_leb128_len_scan(s: Seq<u8>, i: int)
    requires
        0 <= i <= s.len(),
        forall|j: int| 0 <= j < i ==> s[j] >= 128,
        i < s.len() ==> s[i] < 128,
    ensures
        leb128_len(s) == if i < s.len() { i + 1 } else { i },
    decreases i,
{
    if i > 0 {
        let t = s.drop_first();
        assert forall|j: int| 0 <= j < i - 1 implies t[j] >= 128 by {
            assert(t[j] == s[j + 1]);
        }
        lemma_leb128_len_scan(t, i - 1);
    }
}

proof fn lemma_leb128_len_lower(s: Seq<u8>, m: int)
    requires
        0 <= m <= s.len(),
        forall|j: int| 0 <= j < m ==> s[j] >= 128,
    ensures
        leb128_len(s) >= m,
        m < s.len() ==> leb128_len(s) >= m + 1,
    decreases m,
{
    if m > 0 {
        let t = s.drop_first();
        assert forall|j: int| 0 <= j < m - 1 implies t[j] >= 128 by {
            assert(t[j] == s[j + 1]);
        }
        lemma_leb128_len_lower(t, m - 1);
    }
}

proof fn lemma_leb128_digits_bound(s: Seq<u8>)
    ensures
        leb128_digits(s) < pow128(s.len()),
    decreases s.len(),
{
    if s.len() > 0 {
        lemma_leb128_digits_bound(s.drop_first());
    }
}

proof fn lemma_leb128_digits_step(s: Seq<u8>, k: int, n: int)
    requires
        0 <= k < n <= s.len(),
    ensures
        leb128_digits(s.subrange(k, n)) == (s[k] % 128) as nat + 128 * leb128_digits(
            s.subrange(k + 1, n),
        ),
{
    assert(s.subrange(k, n).drop_first() =~= s.subrange(k + 1, n));
}

proof fn lemma_pow128_ten()
    ensures
        pow128(10) == 0x40_0000_0000_0000_0000,
{
    reveal_with_fuel(pow128, 11);
}

proof fn lemma_pow128_monotone(a: nat, b: nat)
    requires
        a <= b,
    ensures
        pow128(a) <= pow128(b),
    decreases b,
{
    if a < b {
        lemma_pow128_monotone(a, (b - 1) as nat);
    }
}

/// An encoding ends with its first byte whose high bit is clear, whatever
/// follows it.
proof fn lemma_leb128_len_of_bytes(v: nat, rest: Seq<u8>)
    ensures
        leb128_len(leb128_bytes(v) + rest) == leb128_bytes(v).len(),
    decreases v,
{
    let s = leb128_bytes(v) + rest;
    if v >= 128 {
        assert(s.drop_first() =~= leb128_bytes(v / 128) + rest);
        lemma_leb128_len_of_bytes(v / 128, rest);
    }
}

proof fn lemma_leb128_digits_of_bytes(v: nat)
    ensures
        leb128_digits(leb128_bytes(v)) == v,
    decreases v,
{
    let s = leb128_bytes(v);
    if v < 128 {
        assert(s.drop_first() =~= Seq::<u8>::empty());
        assert(leb128_digits(s.drop_first()) == 0);
        assert(leb128_digits(s) == (s[0] % 128) as nat + 128 * leb128_digits(s.drop_first()));
    } else {
        assert(s.drop_first() =~= leb128_bytes(v / 128));
        lemma_leb128_digits_of_bytes(v / 128);
        let b: u8 = (v % 128 + 128) as u8;
        assert(s[0] == b);
        assert(b as nat == v % 128 + 128);
        assert(b % 128 == v % 128);
        assert(v == v % 128 + 128 * (v / 128));
        assert(leb128_digits(s) == (s[0] % 128) as nat + 128 * leb128_digits(s.drop_first()));
    }
}

proof fn lemma_leb128_bytes_len(v: nat, k: nat)
    requires
        v < pow128(k),
    ensures
        1 <= leb128_bytes(v).len() <= if k == 0 { 1 } else { k },
    decreases v,
{
    if v >= 128 {
        assert(k > 1) by {
            if k <= 1 {
                reveal_with_fuel(pow128, 2);
            }
        }
        lemma_leb128_bytes_len(v / 128, (k - 1) as nat);
    }
}

/// Reading a `u64` back from its encoding, with any bytes after it, gives
/// the same number and consumes exactly the encoding.
pub proof fn lemma_leb128_roundtrip(v: u64, rest: Seq<u8>)
    ensures
        leb128_bytes(v as nat).len() <= 10,
        leb128_len(leb128_bytes(v as nat) + rest) == leb128_bytes(v as nat).len(),
        leb128_decodable(leb128_bytes(v as nat) + rest),
        leb128_value(leb128_bytes(v as nat) + rest) == v,
{
    let e = leb128_bytes(v as nat);
    lemma_pow128_ten();
    lemma_leb128_bytes_len(v as nat, 10);
    lemma_leb128_len_of_bytes(v as nat, rest);
    lemma_leb128_digits_of_bytes(v as nat);
    assert((e + rest).take(e.len() as int) =~= e);
}

/// A byte below 128 at the front of `s` is a whole integer by itself.
pub proof fn lemma_leb128_single_byte(s: Seq<u8>)
    requires
        s.len() >= 1,
        s[0] < 128,
    ensures
        leb128_len(s) == 1,
        leb128_value(s) == s[0] as u64,
{
    let t = s.take(1);
    assert(t.drop_first() =~= Seq::<u8>::empty());
    assert(leb128_digits(t.drop_first()) == 0);
    assert(leb128_digits(t) == (t[0] % 128) as nat + 128 * leb128_digits(t.drop_first()));
}

/// Whether a decoder reading from `input` stops within ten bytes.
pub fn leb128_fits(input: &[u8]) -> (r: bool)
    ensures
        r == leb128_decodable(input@),
{
    let mut i: usize = 0;
    while i < input.len() && i < 10
        invariant
            i <= input@.len(),
            i <= 10,
            forall|j: int| 0 <= j < i ==> input@[j] >= 128,
        decreases 10 - i,
    {
        if input[i] < 128 {
            proof {
                lemma_leb128_len_scan(input@, i as int);
            }
            return true;
        }
        i = i + 1;
    }
    proof {
        lemma_leb128_len_lower(input@, i as int);
        if i == input@.len() {
            lemma_leb128_len_scan(input@, i as int);
        }
    }
    input.len() <= 10
}

/// How many bytes the integer at the front of `input` takes.
fn leb128_prefix_len(input: &[u8]) -> (n: usize)
    requires
        leb128_decodable(input@),
    ensures
        n == leb128_len(input@),
{
    let mut i: usize = 0;
    while i < input.len()
        invariant
            i <= input@.len(),
            i <= 10,
            leb128_len(input@) <= 10,
            forall|j: int| 0 <= j < i ==> input@[j] >= 128,
        decreases input@.len() - i,
    {
        if input[i] < 128 {
            proof {
                lemma_leb128_len_scan(input@, i as int);
            }
            return i + 1;
        }
        proof {
            lemma_leb128_len_lower(input@, i as int + 1);
        }
        i = i + 1;
    }
    proof {
        lemma_leb128_len_scan(input@, i as int);
    }
    i
}

/// The value of the first `n` bytes of `input`, read as base-128 digits.
fn leb128_prefix_value(input: &[u8], n: usize) -> (value: u64)
    requires
        n <= input@.len(),
        n <= 10,
    ensures
        value == (leb128_digits(input@.take(n as int)) % 0x1_0000_0000_0000_0000) as u64,
{
    let mut acc: u128 = 0;
    let mut k: usize = n;
    proof {
        lemma_pow128_ten();
        assert(input@.subrange(n as int, n as int) =~= Seq::<u8>::empty());
    }
    while k > 0
        invariant
            k <= n,
            n <= input@.len(),
            n <= 10,
            pow128(10) == 0x40_0000_0000_0000_0000,
            acc == leb128_digits(input@.subrange(k as int, n as int)),
        decreases k,
    {
        k = k - 1;
        proof {
            lemma_leb128_digits_step(input@, k as int, n as int);
            lemma_leb128_digits_bound(input@.subrange(k as int + 1, n as int));
            lemma_pow128_monotone((n - k - 1) as nat, 10);
        }
        acc = acc * 128 + (input[k] % 128) as u128;
    }
    assert(input@.subrange(0, n as int) =~= input@.take(n as int));
    (acc % 0x1_0000_0000_0000_0000u128) as u64
}

impl VarUInt {
    /// Reads a `VarUInt` from the front of `reader` and advances it past the
    /// bytes read. Input that ends before a terminating byte gives the value
    /// of the bytes that were there.
    pub fn decode(reader: &mut &[u8]) -> (r: Result<Self, std::io::Error>)
        requires
            leb128_decodable(old(reader)@),
        ensures
            r matches Ok(v) && v.0 == leb128_value(old(reader)@),
            final(reader)@ == old(reader)@.skip(leb128_len(old(reader)@) as int),
    {
        let input: &[u8] = *reader;
        let n = leb128_prefix_len(input);
        proof {
            lemma_leb128_len_bound(input@);
        }
        let value = leb128_prefix_value(input, n);
        *reader = &input[n..input.len()];
        proof {
            assert(final(reader)@ =~= old(reader)@.skip(n as int));
        }
        Ok(VarUInt(value))
    }

    /// The integer in decimal.
    pub fn to_string(&self) -> (text: String)
        ensures
            text@ == decimal_digits(self.0 as nat),
    {
        decimal_text(self.0)
    }

    /// The LEB128 bytes of this integer.
    pub fn encode(&self) -> (result: RawVarUInt)
        ensures
            result@ == leb128_bytes(self.0 as nat),
    {
        let mut result: RawVarUInt = Vec::new();
        let mut val: u64 = self.0;
        loop
            invariant_except_break
                result@ + leb128_bytes(val as nat) == leb128_bytes(self.0 as nat),
            ensures
                result@ == leb128_bytes(self.0 as nat),
            decreases val,
        {
            let byte: u64 = val % 128;
            let rest: u64 = val / 128;
            if rest == 0 {
                result.push(byte as u8);
                assert(result@ =~= leb128_bytes(self.0 as nat));
                break;
            }
            let ghost before = result@;
            result.push((byte + 128) as u8);
            assert(before + leb128_bytes(val as nat) =~= result@ + leb128_bytes(rest as nat));
            val = rest;
        }
        result
    }
}

} // verus!

verus! {

impl Encode for VarUInt {
    open spec fn encoded(value: VarUInt) -> Seq<u8> {
        leb128_bytes(value.0 as nat)
    }

    fn write_encoded(&self, _state: u8, writer: &mut Vec<u8>) -> (r: Result<(), std::io::Error>) {
        let bytes = self.encode();
        write_all(writer, bytes.as_slice());
        Ok(())
    }

    fn as_bytes(&self) -> (r: Result<Vec<u8>, std::io::Error>) {
        let mut buffer: Vec<u8> = Vec::new();
        let _ = self.write_encoded(NO_STATE, &mut buffer);
        assert(buffer@ =~= Self::encoded(self@));
        Ok(buffer)
    }
}

impl Decode for VarUInt {
    open spec fn decodable(state: u8, input: Seq<u8>) -> bool {
        leb128_decodable(input)
    }

    open spec fn decoded(state: u8, input: Seq<u8>) -> (Result<VarUInt, DecodeError>, nat) {
        (Ok(VarUInt(leb128_value(input))), leb128_len(input))
    }

    fn can_decode(state: u8, input: &[u8]) -> (r: bool) {
        leb128_fits(input)
    }

    fn decode_reader(state: u8, reader: &mut &[u8]) -> (r: DecodeResult<Self>) {
        proof {
            lemma_leb128_len_bound(old(reader)@);
        }
        assert(Self::decodable(state, old(reader)@));
        assert(Self::decoded(state, old(reader)@).1 == leb128_len(old(reader)@));
        Ok(Box::new(Self::decode(reader).unwrap()))
    }
}

} // verus!

verus! {

/// Decoding what `write_encoded` wrote for a `VarUInt`, whatever bytes follow
/// it, gives the same integer back and consumes exactly its encoding, which
/// is one to ten bytes long.
pub proof fn lemma_varuint_roundtrip(state: u8, v: VarUInt, rest: Seq<u8>)
    ensures
        1 <= VarUInt::encoded(v).len() <= 10,
        VarUInt::decodable(state, VarUInt::encoded(v) + rest),
        VarUInt::decoded(state, VarUInt::encoded(v) + rest) == (
            Ok::<VarUInt, DecodeError>(v),
            VarUInt::encoded(v).len(),
        ),
{
    lemma_pow128_ten();
    lemma_leb128_bytes_len(v.0 as nat, 10);
    lemma_leb128_roundtrip(v.0, rest);
}

} // verus!

verus! {

impl From<VarUInt> for u64 {
    fn from(value: VarUInt) -> (r: u64)
        ensures
            r == value.0,
    {
        value.0
    }
}

impl vstd::std_specs::convert::FromSpecImpl<VarUInt> for u64 {
    open spec fn obeys_from_spec() -> bool {
        true
    }

    open spec fn from_spec(v: VarUInt) -> u64 {
        v.0
    }
}

impl From<VarUInt> for usize {
    /// The integer as a `usize`, kept to the low bits that a `usize` holds.
    fn from(value: VarUInt) -> (r: usize)
        ensures
            r == value.0 as usize,
    {
        value.0 as usize
    }
}

impl vstd::std_specs::convert::FromSpecImpl<VarUInt> for usize {
    open spec fn obeys_from_spec() -> bool {
        true
    }

    open spec fn from_spec(v: VarUInt) -> usize {
        v.0 as usize
    }
}

} // verus!

verus! {

/// The bytes of a `VarUInt`: the first carries the lowest seven bits, every
/// byte but the last has its high bit set, the last has it clear, and after
/// the first byte come the bytes of the integer shifted right by seven bits.
pub proof fn lemma_varuint_layout(v: VarUInt)
    ensures
        1 <= VarUInt::encoded(v).len() <= 10,
        VarUInt::encoded(v)[0] % 128 == v.0 % 128,
        forall|i: int|
            0 <= i < VarUInt::encoded(v).len() - 1 ==> VarUInt::encoded(v)[i] >= 128,
        VarUInt::encoded(v).last() < 128,
        v.0 < 128 ==> VarUInt::encoded(v) == seq![v.0 as u8],
        v.0 >= 128 ==> VarUInt::encoded(v).drop_first() == VarUInt::encoded(VarUInt(v.0 / 128)),
    decreases v.0,
{
    lemma_varuint_roundtrip(0, v, Seq::empty());
    let e = VarUInt::encoded(v);
    if v.0 >= 128 {
        let w = VarUInt(v.0 / 128);
        lemma_varuint_layout(w);
        assert(e.drop_first() =~= VarUInt::encoded(w));
        assert forall|i: int| 0 <= i < e.len() - 1 implies e[i] >= 128 by {
            if i > 0 {
                assert(e[i] == VarUInt::encoded(w)[i - 1]);
            }
        }
        assert(e.last() == VarUInt::encoded(w).last());
    }
}

} // verus!
