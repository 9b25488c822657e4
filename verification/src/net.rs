//! The decoding contract shared by all fixed-layout protocol units, and the
//! primitive reads that the codecs are built from.
use vstd::prelude::*;

verus! {

/// The value of a two-byte big-endian field: `hi` is the first byte on the wire.
pub open spec fn be16(hi: u8, lo: u8) -> u16 {
    (hi * 256 + lo) as u16
}

/// The big-endian 16-bit field that starts at `offset` in `bytes`.
pub open spec fn field_u16(bytes: Seq<u8>, offset: int) -> u16
    recommends
        0 <= offset,
        offset + 2 <= bytes.len(),
{
    be16(bytes[offset], bytes[offset + 1])
}

/// Reads the big-endian 16-bit field that starts at `offset`.
pub fn read_u16(buf: &[u8], offset: usize) -> (value: u16)
    requires
        offset + 2 <= buf@.len(),
    ensures
        value == field_u16(buf@, offset as int),
{
    let hi: u16 = buf[offset] as u16;
    let lo: u16 = buf[offset + 1] as u16;
    hi * 256 + lo
}

/// The two bytes of `value` in big-endian order.
pub open spec fn u16_bytes(value: u16) -> Seq<u8> {
    seq![(value / 256) as u8, (value % 256) as u8]
}

/// The two bytes of `value` in big-endian order.
pub fn write_u16(value: u16) -> (bytes: [u8; 2])
    ensures
        bytes@ == u16_bytes(value),
        field_u16(bytes@, 0) == value,
{
    let bytes: [u8; 2] = [(value / 256) as u8, (value % 256) as u8];
    proof {
        assert(bytes@ =~= u16_bytes(value));
    }
    bytes
}

/// Why a buffer could not be decoded.
#[derive(Debug, Copy, Clone, PartialEq, Eq, Structural)]
pub enum DecodeError {
    /// The buffer holds `available` bytes where the unit needs `required`.
    TooShort { required: usize, available: usize },
}

/// A protocol unit with a fixed wire layout that is read from the front of a
/// byte buffer.
///
/// Decoding has no failure of its own: a field value that the unit does not
/// know decodes to a variant that says so. The only condition is that the
/// buffer holds the whole unit, which [`decode`] tests and `from_buffer`
/// requires.
pub trait FromBuffer: Sized + View {
    /// The number of bytes that the unit occupies at the front of a buffer.
    spec fn spec_wire_len() -> nat;

    /// The number of bytes that `size` reports for every value of the type.
    spec fn spec_size() -> nat;

    /// The unit that a buffer of at least `spec_wire_len()` bytes holds.
    spec fn spec_from_buffer(bytes: Seq<u8>) -> Self::V;

    /// The reported size never reaches past the bytes that were decoded, so a
    /// cursor that advances by it stays inside the buffer.
    proof fn lemma_size_within_wire_len()
        ensures
            Self::spec_size() <= Self::spec_wire_len(),
    ;

    /// The view tells units apart: two units with the same view are equal.
    proof fn lemma_view_determines_unit(a: Self, b: Self)
        requires
            a@ == b@,
        ensures
            a == b,
    ;

    /// Only the first `spec_wire_len()` bytes of a buffer take part in
    /// decoding.
    proof fn lemma_reads_only_the_unit(a: Seq<u8>, b: Seq<u8>)
        requires
            a.len() >= Self::spec_wire_len(),
            b.len() >= Self::spec_wire_len(),
            a.subrange(0, Self::spec_wire_len() as int) == b.subrange(
                0,
                Self::spec_wire_len() as int,
            ),
        ensures
            Self::spec_from_buffer(a) == Self::spec_from_buffer(b),
    ;

    /// The number of bytes that a buffer must hold to be decoded.
    fn wire_len() -> (len: usize)
        ensures
            len == Self::spec_wire_len(),
    ;

    /// Decodes the unit at the front of `buf`.
    fn from_buffer(buf: &[u8]) -> (unit: Self)
        requires
            buf@.len() >= Self::spec_wire_len(),
        ensures
            unit@ == Self::spec_from_buffer(buf@),
    ;

    /// The size in bytes that the unit reports, whatever buffer it came from.
    fn size(&self) -> (size: usize)
        ensures
            size == Self::spec_size(),
    ;
}

/// The error that decoding a `T` gives on a buffer of `available` bytes that
/// is too short for it.
pub open spec fn too_short<T: FromBuffer>(available: nat) -> DecodeError {
    DecodeError::TooShort {
        required: T::spec_wire_len() as usize,
        available: available as usize,
    }
}

/// Decodes the unit at the front of `buf`, or reports that `buf` is too short
/// to hold it.
pub fn decode<T: FromBuffer>(buf: &[u8]) -> (result: Result<T, DecodeError>)
    ensures
        result is Ok <==> buf@.len() >= T::spec_wire_len(),
        result matches Ok(unit) ==> unit@ == T::spec_from_buffer(buf@),
        result matches Err(error) ==> error == too_short::<T>(buf@.len()),
{
    let required: usize = T::wire_len();
    if buf.len() < required {
        Err(DecodeError::TooShort { required, available: buf.len() })
    } else {
        Ok(T::from_buffer(buf))
    }
}

/// Decodes the unit at the front of `buf` and hands it out together with the
/// rest of the buffer, which starts after the size that the unit reports. The
/// rest is what the next protocol layer decodes.
pub fn decode_prefix<T: FromBuffer>(buf: &[u8]) -> (result: Result<(T, &[u8]), DecodeError>)
    ensures
        result is Ok <==> buf@.len() >= T::spec_wire_len(),
        result matches Ok((unit, rest)) ==> {
            &&& unit@ == T::spec_from_buffer(buf@)
            &&& rest@ == buf@.subrange(T::spec_size() as int, buf@.len() as int)
        },
        result matches Err(error) ==> error == too_short::<T>(buf@.len()),
{
    match decode::<T>(buf) {
        Ok(unit) => {
            proof {
                T::lemma_size_within_wire_len();
            }
            let consumed: usize = unit.size();
            let rest = vstd::slice::slice_subrange(buf, consumed, buf.len());
            Ok((unit, rest))
        },
        Err(error) => Err(error),
    }
}

/// Decoding is a function of the bytes alone: whatever two calls return for
/// buffers with the same content is the same value.
pub proof fn lemma_decode_deterministic<T: FromBuffer>(
    first_buf: &[u8],
    second_buf: &[u8],
    first: T,
    second: T,
)
    requires
        first_buf@ == second_buf@,
        call_ensures(T::from_buffer, (first_buf,), first),
        call_ensures(T::from_buffer, (second_buf,), second),
    ensures
        first == second,
{
    T::lemma_view_determines_unit(first, second);
}

} // verus!
