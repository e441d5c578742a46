//! The fixed-width binary layout shared by stored records and messages.
//!
//! A value is a header of fixed size followed by variable-length segments. Integers are
//! stored in the header in little-endian order. A string takes eight header bytes: the
//! position of its segment in the buffer and the number of bytes in it, both `u32`; the
//! segment holds the UTF-8 bytes. Segments follow the header without gaps, in the order
//! of their fields.
use vstd::prelude::*;
use vstd::bytes::*;
use vstd::slice::slice_subrange;
use vstd::utf8::{decode_utf8, encode_utf8, valid_utf8};

verus! {

broadcast use vstd::slice::group_slice_axioms;

/// A position in a buffer.
pub type Offset = u32;

/// Why a buffer is not the encoding of a value.
#[derive(Clone, Copy, Debug, PartialEq, Eq, Structural)]
pub enum DecodeError {
    /// The buffer is shorter than the fixed part of the value.
    UnexpectedlyShortPayload { actual_size: Offset, minimum_size: Offset },
    /// A segment runs past the end of the buffer.
    IncorrectSegmentSize { position: Offset, value: Offset },
    /// The message type is not one that the service knows.
    IncorrectMessageType { message_type: u16 },
    /// The message is addressed to another service.
    IncorrectServiceId { service_id: u16 },
    /// A segment starts before the end of the data that precedes it.
    OverlappingSegment { last_end: Offset, start: Offset },
    /// A segment starts after the end of the data that precedes it.
    SpaceBetweenSegments { last_end: Offset, start: Offset },
    /// The bytes of a string segment are not UTF-8.
    Utf8 { position: Offset },
    /// A position or a length does not fit in an `Offset`.
    OffsetOverflow,
    /// The buffer does not end where its last segment ends.
    IncorrectLength { actual_size: Offset, expected_size: Offset },
}

/// The `u16` stored in little-endian order at `at`.
pub open spec fn u16_at(buf: Seq<u8>, at: int) -> u16 {
    spec_u16_from_le_bytes(buf.subrange(at, at + 2))
}

/// The `u32` stored in little-endian order at `at`.
pub open spec fn u32_at(buf: Seq<u8>, at: int) -> u32 {
    spec_u32_from_le_bytes(buf.subrange(at, at + 4))
}

/// The `u64` stored in little-endian order at `at`.
pub open spec fn u64_at(buf: Seq<u8>, at: int) -> u64 {
    spec_u64_from_le_bytes(buf.subrange(at, at + 8))
}

/// `buf` with the bytes from `at` on replaced by `bytes`.
pub open spec fn splice(buf: Seq<u8>, at: int, bytes: Seq<u8>) -> Seq<u8> {
    buf.subrange(0, at) + bytes + buf.subrange(at + bytes.len(), buf.len() as int)
}

/// Reads the `u16` at `at`.
pub fn read_u16(buf: &[u8], at: usize) -> (value: u16)
    requires
        at + 2 <= buf.len(),
    ensures
        value == u16_at(buf@, at as int),
{
    u16_from_le_bytes(slice_subrange(buf, at, at + 2))
}

/// Reads the `u32` at `at`.
pub fn read_u32(buf: &[u8], at: usize) -> (value: u32)
    requires
        at + 4 <= buf.len(),
    ensures
        value == u32_at(buf@, at as int),
{
    u32_from_le_bytes(slice_subrange(buf, at, at + 4))
}

/// Reads the `u64` at `at`.
pub fn read_u64(buf: &[u8], at: usize) -> (value: u64)
    requires
        at + 8 <= buf.len(),
    ensures
        value == u64_at(buf@, at as int),
{
    u64_from_le_bytes(slice_subrange(buf, at, at + 8))
}

/// Overwrites the bytes of `buf` from `at` on with `src`.
pub fn write_bytes(buf: &mut Vec<u8>, at: usize, src: &[u8])
    requires
        at + src.len() <= old(buf).len(),
    ensures
        final(buf)@ == splice(old(buf)@, at as int, src@),
        final(buf)@.len() == old(buf)@.len(),
{
    let ghost before = buf@;
    let mut i: usize = 0;
    while i < src.len()
        invariant
            i <= src@.len(),
            buf@.len() == before.len(),
            at + src.len() <= buf.len(),
            forall|j: int|
                0 <= j < buf@.len() ==> buf@[j] == if at <= j < at + i {
                    src@[j - at]
                } else {
                    before[j]
                },
        decreases src@.len() - i,
    {
        buf.set(at + i, src[i]);
        i += 1;
    }
    assert(buf@ =~= splice(before, at as int, src@));
}

/// Stores `value` in little-endian order at `at`.
pub fn write_u64(buf: &mut Vec<u8>, at: usize, value: u64)
    requires
        at + 8 <= old(buf).len(),
    ensures
        final(buf)@ == splice(old(buf)@, at as int, spec_u64_to_le_bytes(value)),
        final(buf)@.len() == old(buf)@.len(),
{
    let bytes = u64_to_le_bytes(value);
    write_bytes(buf, at, bytes.as_slice());
}

/// What is read back at the place of a write, and that a write leaves the bytes
/// around it alone.
pub proof fn lemma_splice(buf: Seq<u8>, at: int, bytes: Seq<u8>)
    requires
        0 <= at,
        at + bytes.len() <= buf.len(),
    ensures
        splice(buf, at, bytes).len() == buf.len(),
        splice(buf, at, bytes).subrange(at, at + bytes.len()) == bytes,
        forall|i: int, j: int|
            0 <= i <= j <= at ==> #[trigger] splice(buf, at, bytes).subrange(i, j)
                == buf.subrange(i, j),
        forall|i: int, j: int|
            at + bytes.len() <= i <= j <= buf.len() ==> #[trigger] splice(
                buf,
                at,
                bytes,
            ).subrange(i, j) == buf.subrange(i, j),
{
    let out = splice(buf, at, bytes);
    assert(out.subrange(at, at + bytes.len()) =~= bytes);
    assert forall|i: int, j: int| 0 <= i <= j <= at implies #[trigger] out.subrange(i, j)
        == buf.subrange(i, j) by {
        assert(out.subrange(i, j) =~= buf.subrange(i, j));
    }
    assert forall|i: int, j: int|
        at + bytes.len() <= i <= j <= buf.len() implies #[trigger] out.subrange(i, j)
        == buf.subrange(i, j) by {
        assert(out.subrange(i, j) =~= buf.subrange(i, j));
    }
}

/// UTF-8 validation of `std::str::from_utf8`: the result is a string exactly when the
/// bytes are valid UTF-8, and the string then has these bytes as its encoding.
#[verifier::external_body]
fn str_from_utf8(bytes: &[u8]) -> (text: Option<&str>)
    ensures
        text.is_some() == valid_utf8(bytes@),
        text matches Some(s) ==> encode_utf8(s@) == bytes@,
{
    std::str::from_utf8(bytes).ok()
}

/// Tells whether `bytes` are valid UTF-8.
pub fn is_utf8(bytes: &[u8]) -> (valid: bool)
    ensures
        valid == valid_utf8(bytes@),
{
    str_from_utf8(bytes).is_some()
}

/// The text that valid UTF-8 bytes encode.
pub fn utf8_text(bytes: &[u8]) -> (text: &str)
    requires
        valid_utf8(bytes@),
    ensures
        text@ == decode_utf8(bytes@),
{
    broadcast use vstd::utf8::encode_utf8_decode_utf8;

    match str_from_utf8(bytes) {
        Some(text) => text,
        None => "",
    }
}

/// Position of the segment that the string field at `pointer` refers to.
pub open spec fn segment_start(buf: Seq<u8>, pointer: int) -> u32 {
    u32_at(buf, pointer)
}

/// Number of bytes in the segment that the string field at `pointer` refers to.
pub open spec fn segment_count(buf: Seq<u8>, pointer: int) -> u32 {
    u32_at(buf, pointer + 4)
}

/// The bytes of the segment that the string field at `pointer` refers to.
pub open spec fn segment_bytes(buf: Seq<u8>, pointer: int) -> Seq<u8> {
    buf.subrange(
        segment_start(buf, pointer) as int,
        segment_start(buf, pointer) + segment_count(buf, pointer),
    )
}

/// Outcome of checking the string field at `pointer`, where the data seen so far ends
/// at `latest_segment`: the end of the field's segment, or the first fault found.
pub open spec fn check_str_spec(buf: Seq<u8>, pointer: int, latest_segment: u32) -> Result<
    u32,
    DecodeError,
> {
    let start = segment_start(buf, pointer);
    let count = segment_count(buf, pointer);
    if start < latest_segment {
        Err(DecodeError::OverlappingSegment { last_end: latest_segment, start })
    } else if start > latest_segment {
        Err(DecodeError::SpaceBetweenSegments { last_end: latest_segment, start })
    } else if start + count > u32::MAX {
        Err(DecodeError::OffsetOverflow)
    } else if start + count > buf.len() {
        Err(DecodeError::IncorrectSegmentSize { position: (pointer + 4) as u32, value: count })
    } else if !valid_utf8(segment_bytes(buf, pointer)) {
        Err(DecodeError::Utf8 { position: start })
    } else {
        Ok((start + count) as u32)
    }
}

/// Checks that the string field at `pointer` refers to a segment that starts where the
/// data seen so far ends, lies within the buffer and holds UTF-8.
pub fn check_str(buf: &[u8], pointer: Offset, latest_segment: Offset) -> (end: Result<
    Offset,
    DecodeError,
>)
    requires
        pointer + 8 <= buf.len(),
    ensures
        end == check_str_spec(buf@, pointer as int, latest_segment),
{
    let start = read_u32(buf, pointer as usize);
    let count = read_u32(buf, pointer as usize + 4);
    if start < latest_segment {
        return Err(DecodeError::OverlappingSegment { last_end: latest_segment, start });
    }
    if start > latest_segment {
        return Err(DecodeError::SpaceBetweenSegments { last_end: latest_segment, start });
    }
    let end = match start.checked_add(count) {
        Some(end) => end,
        None => {
            return Err(DecodeError::OffsetOverflow);
        },
    };
    if end as usize > buf.len() {
        return Err(DecodeError::IncorrectSegmentSize { position: pointer + 4, value: count });
    }
    if !is_utf8(slice_subrange(buf, start as usize, end as usize)) {
        return Err(DecodeError::Utf8 { position: start });
    }
    Ok(end)
}

/// The text of the string field at `pointer`.
pub fn read_str(buf: &[u8], pointer: usize) -> (text: &str)
    requires
        pointer + 8 <= buf.len(),
        segment_start(buf@, pointer as int) + segment_count(buf@, pointer as int) <= buf.len(),
        valid_utf8(segment_bytes(buf@, pointer as int)),
    ensures
        text@ == decode_utf8(segment_bytes(buf@, pointer as int)),
{
    let start = read_u32(buf, pointer);
    let count = read_u32(buf, pointer + 4);
    utf8_text(slice_subrange(buf, start as usize, start as usize + count as usize))
}

} // verus!
