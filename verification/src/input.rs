//! Decoding of fixed-size binary input-device records.
//!
//! One record is 24 bytes, little-endian, laid out as the host's input-event
//! ABI with 64-bit time fields: bytes 0..8 hold the seconds, 8..16 the
//! microseconds, 16..18 the event kind, 18..20 the key code, and 20..24 the
//! value (1 on a key-down transition). Each field is read explicitly at its
//! offset rather than by reinterpreting the buffer.

use vstd::prelude::*;

verus! {

/// The size in bytes of one raw input record.
pub const EVENT_BYTES: usize = 24;

/// The little-endian 16-bit number at offset `i`.
pub open spec fn le16(b: Seq<u8>, i: int) -> int {
    b[i] + 0x100 * b[i + 1]
}

/// The little-endian 32-bit number at offset `i`.
pub open spec fn le32(b: Seq<u8>, i: int) -> int {
    le16(b, i) + 0x1_0000 * le16(b, i + 2)
}

/// The little-endian 64-bit number at offset `i`.
pub open spec fn le64(b: Seq<u8>, i: int) -> int {
    le32(b, i) + 0x1_0000_0000 * le32(b, i + 4)
}

/// The 32-bit two's-complement reading of `n`.
pub open spec fn signed32(n: int) -> int {
    if n < 0x8000_0000 {
        n
    } else {
        n - 0x1_0000_0000
    }
}

/// The 64-bit two's-complement reading of `n`.
pub open spec fn signed64(n: int) -> int {
    if n < 0x8000_0000_0000_0000 {
        n
    } else {
        n - 0x1_0000_0000_0000_0000
    }
}

/// One decoded input-device record.
#[derive(Clone, Copy, Debug, PartialEq, Eq, Structural)]
pub struct InputEvent {
    pub tv_sec: i64,
    pub tv_usec: i64,
    pub my_type: u16,
    pub code: u16,
    pub value: i32,
}

/// The little-endian 16-bit field at offset `i`.
fn read_le16(buf: &[u8; 24], i: usize) -> (r: u16)
    requires
        i + 2 <= 24,
    ensures
        r as int == le16(buf@, i as int),
{
    buf[i] as u16 + (buf[i + 1] as u16) * 0x100
}

/// The little-endian 32-bit field at offset `i`.
fn read_le32(buf: &[u8; 24], i: usize) -> (r: u32)
    requires
        i + 4 <= 24,
    ensures
        r as int == le32(buf@, i as int),
{
    read_le16(buf, i) as u32 + (read_le16(buf, i + 2) as u32) * 0x1_0000
}

/// The little-endian 64-bit field at offset `i`.
fn read_le64(buf: &[u8; 24], i: usize) -> (r: u64)
    requires
        i + 8 <= 24,
    ensures
        r as int == le64(buf@, i as int),
{
    read_le32(buf, i) as u64 + (read_le32(buf, i + 4) as u64) * 0x1_0000_0000
}

/// The 32-bit two's-complement reading of `w`.
fn to_signed32(w: u32) -> (r: i32)
    ensures
        r as int == signed32(w as int),
{
    if w < 0x8000_0000 {
        w as i32
    } else {
        ((w as i64) - 0x1_0000_0000) as i32
    }
}

/// The 64-bit two's-complement reading of `w`.
fn to_signed64(w: u64) -> (r: i64)
    ensures
        r as int == signed64(w as int),
{
    if w < 0x8000_0000_0000_0000 {
        w as i64
    } else {
        ((w as i128) - 0x1_0000_0000_0000_0000) as i64
    }
}

/// Decodes one raw 24-byte record into its fields.
pub fn decode_input_event(buf: &[u8; 24]) -> (e: InputEvent)
    ensures
        e.tv_sec as int == signed64(le64(buf@, 0)),
        e.tv_usec as int == signed64(le64(buf@, 8)),
        e.my_type as int == le16(buf@, 16),
        e.code as int == le16(buf@, 18),
        e.value as int == signed32(le32(buf@, 20)),
{
    InputEvent {
        tv_sec: to_signed64(read_le64(buf, 0)),
        tv_usec: to_signed64(read_le64(buf, 8)),
        my_type: read_le16(buf, 16),
        code: read_le16(buf, 18),
        value: to_signed32(read_le32(buf, 20)),
    }
}

impl InputEvent {
    /// Whether this record is a key event signalling a down-transition.
    pub fn is_key_down(&self) -> (b: bool)
        ensures
            b == (self.my_type == 1 && self.value == 1),
    {
        self.my_type == 1 && self.value == 1
    }
}

} // verus!
