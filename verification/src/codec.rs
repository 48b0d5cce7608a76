//! Little-endian decoding of fixed-layout records from a byte buffer.
//!
//! A record is a run of `entsize` bytes starting at some offset of the
//! buffer. Fields are decoded at fixed offsets inside the record; a field
//! byte that lies beyond the record's declared size reads as zero, so a
//! record shorter than the structure's natural layout yields zero-filled
//! trailing fields and a longer one has its surplus bytes ignored.

use vstd::prelude::*;

verus! {

/// The byte at offset `i` of the record of `entsize` bytes that starts at
/// `start` in `data`: the buffer's byte where `i` lies inside the record,
/// and zero where it lies at or past the record's declared end.
pub open spec fn rec_byte(data: Seq<u8>, start: int, entsize: int, i: int) -> u8 {
    if 0 <= i < entsize && 0 <= start + i < data.len() {
        data[start + i]
    } else {
        0u8
    }
}

/// The `u16` whose little-endian bytes are `b0` (least significant) and `b1`.
pub open spec fn le16(b0: u8, b1: u8) -> u16 {
    (b0 as u16) | (b1 as u16) << 8
}

/// The `u32` whose little-endian bytes are `b0` (least significant) through `b3`.
pub open spec fn le32(b0: u8, b1: u8, b2: u8, b3: u8) -> u32 {
    (b0 as u32) | (b1 as u32) << 8 | (b2 as u32) << 16 | (b3 as u32) << 24
}

/// The `u16` field at offset `off` of the record of `entsize` bytes at `start`.
pub open spec fn rec_u16(data: Seq<u8>, start: int, entsize: int, off: int) -> u16 {
    le16(rec_byte(data, start, entsize, off), rec_byte(data, start, entsize, off + 1))
}

/// The `u32` field at offset `off` of the record of `entsize` bytes at `start`.
pub open spec fn rec_u32(data: Seq<u8>, start: int, entsize: int, off: int) -> u32 {
    le32(
        rec_byte(data, start, entsize, off),
        rec_byte(data, start, entsize, off + 1),
        rec_byte(data, start, entsize, off + 2),
        rec_byte(data, start, entsize, off + 3),
    )
}

/// Reads one byte of the record at `start`, returning zero where the byte
/// lies at or past the record's declared end.
pub fn read_rec_byte(data: &Vec<u8>, start: usize, entsize: usize, i: usize) -> (b: u8)
    requires
        entsize == 0 || start + entsize <= data@.len(),
    ensures
        b == rec_byte(data@, start as int, entsize as int, i as int),
{
    if i < entsize {
        let n = data.len();
        assert(start + i < n);
        data[start + i]
    } else {
        0u8
    }
}

/// Reads the little-endian `u16` field at offset `off` of the record at `start`.
pub fn read_rec_u16(data: &Vec<u8>, start: usize, entsize: usize, off: usize) -> (v: u16)
    requires
        entsize == 0 || start + entsize <= data@.len(),
        off + 1 < usize::MAX,
    ensures
        v == rec_u16(data@, start as int, entsize as int, off as int),
{
    let b0 = read_rec_byte(data, start, entsize, off);
    let b1 = read_rec_byte(data, start, entsize, off + 1);
    (b0 as u16) | (b1 as u16) << 8u16
}

/// Reads the little-endian `u32` field at offset `off` of the record at `start`.
pub fn read_rec_u32(data: &Vec<u8>, start: usize, entsize: usize, off: usize) -> (v: u32)
    requires
        entsize == 0 || start + entsize <= data@.len(),
        off + 3 < usize::MAX,
    ensures
        v == rec_u32(data@, start as int, entsize as int, off as int),
{
    let b0 = read_rec_byte(data, start, entsize, off);
    let b1 = read_rec_byte(data, start, entsize, off + 1);
    let b2 = read_rec_byte(data, start, entsize, off + 2);
    let b3 = read_rec_byte(data, start, entsize, off + 3);
    (b0 as u32) | (b1 as u32) << 8u32 | (b2 as u32) << 16u32 | (b3 as u32) << 24u32
}

/// The two little-endian bytes of `x`, least significant first.
pub open spec fn u16_le_bytes(x: u16) -> Seq<u8> {
    seq![(x & 0xff) as u8, ((x >> 8) & 0xff) as u8]
}

/// The four little-endian bytes of `x`, least significant first.
pub open spec fn u32_le_bytes(x: u32) -> Seq<u8> {
    seq![
        (x & 0xff) as u8,
        ((x >> 8) & 0xff) as u8,
        ((x >> 16) & 0xff) as u8,
        ((x >> 24) & 0xff) as u8,
    ]
}

/// Decoding the two little-endian bytes of a `u16` gives the value back.
pub proof fn lemma_le16_round_trip(x: u16)
    ensures
        le16(u16_le_bytes(x)[0], u16_le_bytes(x)[1]) == x,
{
    assert(((((x & 0xff) as u8) as u16) | ((((x >> 8) & 0xff) as u8) as u16) << 8) == x)
        by (bit_vector);
}

/// Decoding the four little-endian bytes of a `u32` gives the value back.
pub proof fn lemma_le32_round_trip(x: u32)
    ensures
        le32(u32_le_bytes(x)[0], u32_le_bytes(x)[1], u32_le_bytes(x)[2], u32_le_bytes(x)[3]) == x,
{
    assert(((((x & 0xff) as u8) as u32) | ((((x >> 8) & 0xff) as u8) as u32) << 8
        | ((((x >> 16) & 0xff) as u8) as u32) << 16 | ((((x >> 24) & 0xff) as u8) as u32) << 24)
        == x) by (bit_vector);
}

} // verus!
