use vstd::prelude::*;

verus! {

/// `std::io::Error`, the error type of the byte writers; writing into a
/// `Vec<u8>` never produces one.
#[verifier::external_type_specification]
#[verifier::external_body]
pub struct ExIoError(std::io::Error);

/// Types with a byte encoding on the wire.
pub trait Encode: View + Sized {
    /// The bytes that encode a value whose view is `value`.
    spec fn encoded(value: Self::V) -> Seq<u8>;

    /// Appends the encoding of `self` to `writer`.
    fn write_encoded(&self, state: u8, writer: &mut Vec<u8>) -> (r: Result<(), std::io::Error>)
        ensures
            r is Ok,
            final(writer)@ == old(writer)@ + Self::encoded(self@),
    ;

    /// The encoding of `self` as a fresh buffer.
    fn as_bytes(&self) -> (r: Result<Vec<u8>, std::io::Error>)
        ensures
            r matches Ok(bytes) && bytes@ == Self::encoded(self@),
    ;
}

/// Appends every byte of `bytes` to `writer`.
pub fn write_all(writer: &mut Vec<u8>, bytes: &[u8])
    ensures
        final(writer)@ == old(writer)@ + bytes@,
{
    let mut i: usize = 0;
    while i < bytes.len()
        invariant
            i <= bytes@.len(),
            writer@ == old(writer)@ + bytes@.take(i as int),
        decreases bytes@.len() - i,
    {
        writer.push(bytes[i]);
        i = i + 1;
        assert(writer@ =~= old(writer)@ + bytes@.take(i as int));
    }
    assert(bytes@.take(i as int) =~= bytes@);
}

} // verus!
