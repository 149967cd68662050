use vstd::prelude::*;

verus! {

/// Size in bytes of one event record: two 64-bit timestamp words, a 16-bit
/// type, a 16-bit code and a 32-bit value, little-endian, in that order.
pub const RECORD_SIZE: usize = 24;

/// The type tag of a key event.
pub const EV_KEY: u16 = 1;

/// One decoded input event record.
#[derive(Clone, Copy, Debug, PartialEq, Eq)]
pub struct InputEvent {
    pub time_sec: u64,
    pub time_usec: u64,
    pub type_: u16,
    pub code: u16,
    pub value: u32,
}

/// Why a read did not yield a record.
#[derive(Clone, Copy, Debug, PartialEq, Eq)]
pub enum ReadError {
    /// The stream ended after `got` bytes of a record, with `0 < got < RECORD_SIZE`.
    ShortRead { got: usize },
}

/// Little-endian value of the two bytes at `i`.
pub open spec fn le16(b: Seq<u8>, i: int) -> int {
    b[i] as int + 256 * (b[i + 1] as int)
}

/// Little-endian value of the four bytes at `i`.
pub open spec fn le32(b: Seq<u8>, i: int) -> int {
    le16(b, i) + 65536 * le16(b, i + 2)
}

/// Little-endian value of the eight bytes at `i`.
pub open spec fn le64(b: Seq<u8>, i: int) -> int {
    le32(b, i) + 4294967296 * le32(b, i + 4)
}

/// The event held by the record that starts at byte `at`.
pub open spec fn event_at(b: Seq<u8>, at: int) -> InputEvent {
    InputEvent {
        time_sec: le64(b, at) as u64,
        time_usec: le64(b, at + 8) as u64,
        type_: le16(b, at + 16) as u16,
        code: le16(b, at + 18) as u16,
        value: le32(b, at + 20) as u32,
    }
}

fn read_u16_le(b: &[u8], i: usize) -> (r: u16)
    requires
        i + 2 <= b@.len(),
    ensures
        r as int == le16(b@, i as int),
{
    b[i] as u16 + 256 * (b[i + 1] as u16)
}

fn read_u32_le(b: &[u8], i: usize) -> (r: u32)
    requires
        i + 4 <= b@.len(),
    ensures
        r as int == le32(b@, i as int),
{
    let n = b.len();
    assert(i + 4 <= n);
    let lo = read_u16_le(b, i);
    let hi = read_u16_le(b, i + 2);
    lo as u32 + 65536 * (hi as u32)
}

fn read_u64_le(b: &[u8], i: usize) -> (r: u64)
    requires
        i + 8 <= b@.len(),
    ensures
        r as int == le64(b@, i as int),
{
    let n = b.len();
    assert(i + 8 <= n);
    let lo = read_u32_le(b, i);
    let hi = read_u32_le(b, i + 4);
    lo as u64 + 4294967296 * (hi as u64)
}

/// Decodes the record that starts at byte `at`, field by field.
pub fn decode_at(b: &[u8], at: usize) -> (r: InputEvent)
    requires
        at + RECORD_SIZE <= b@.len(),
    ensures
        r == event_at(b@, at as int),
{
    let n = b.len();
    assert(at + RECORD_SIZE <= n);
    InputEvent {
        time_sec: read_u64_le(b, at),
        time_usec: read_u64_le(b, at + 8),
        type_: read_u16_le(b, at + 16),
        code: read_u16_le(b, at + 18),
        value: read_u32_le(b, at + 20),
    }
}

/// What one read of at most a record's worth of bytes means.
pub open spec fn read_outcome(b: Seq<u8>) -> Result<Option<InputEvent>, ReadError> {
    if b.len() == 0 {
        Ok(None)
    } else if b.len() == RECORD_SIZE {
        Ok(Some(event_at(b, 0)))
    } else {
        Err(ReadError::ShortRead { got: b.len() as usize })
    }
}

/// Classifies the bytes that one read gathered before the record was full or
/// the stream ended: none means a clean end of the stream, a full record is
/// decoded, and anything in between is a fatal short read.
pub fn classify_read(buf: &[u8]) -> (r: Result<Option<InputEvent>, ReadError>)
    requires
        buf@.len() <= RECORD_SIZE,
    ensures
        r == read_outcome(buf@),
{
    if buf.len() == 0 {
        Ok(None)
    } else if buf.len() == RECORD_SIZE {
        Ok(Some(decode_at(buf, 0)))
    } else {
        Err(ReadError::ShortRead { got: buf.len() })
    }
}

} // verus!
