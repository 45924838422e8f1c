//! The fixed-layout input-event record codec.
//!
//! One record is 24 bytes, little-endian, matching the 64-bit input-event
//! ABI: seconds at offset 0 (8 bytes), microseconds at offset 8 (8 bytes),
//! event type at 16 (2 bytes), key code at 18 (2 bytes), signed value at
//! 20 (4 bytes). The codec is an explicit byte-layout map with a proved
//! round trip in both directions; nothing relies on in-memory layout.

use vstd::prelude::*;

verus! {

/// The size of one event record in bytes.
pub const EVENT_SIZE: usize = 24;

/// One input event: timestamp, event-type code, key code, and value
/// (1 press, 0 release, 2 key-repeat).
#[derive(PartialEq, Eq, Structural, Clone, Copy, Debug)]
pub struct InputEvent {
    pub tv_sec: i64,
    pub tv_usec: i64,
    pub etype: u16,
    pub code: u16,
    pub value: i32,
}

/// Byte `i` of a 64-bit word, little-endian.
pub open spec fn le_byte64(x: u64, i: int) -> u8 {
    (x >> ((8 * i) as u64)) as u8
}

/// Byte `i` of a 16-bit word, little-endian.
pub open spec fn le_byte16(x: u16, i: int) -> u8 {
    (x >> ((8 * i) as u16)) as u8
}

/// Byte `i` of a 32-bit word, little-endian.
pub open spec fn le_byte32(x: u32, i: int) -> u8 {
    (x >> ((8 * i) as u32)) as u8
}

/// The 64-bit word whose little-endian bytes sit at `b[off..off + 8]`.
pub open spec fn u64_from_le(b: Seq<u8>, off: int) -> u64 {
    (b[off] as u64) | ((b[off + 1] as u64) << 8u64) | ((b[off + 2] as u64) << 16u64) | ((b[off
        + 3] as u64) << 24u64) | ((b[off + 4] as u64) << 32u64) | ((b[off + 5] as u64) << 40u64) | (
    (b[off + 6] as u64) << 48u64) | ((b[off + 7] as u64) << 56u64)
}

/// The 16-bit word whose little-endian bytes sit at `b[off..off + 2]`.
pub open spec fn u16_from_le(b: Seq<u8>, off: int) -> u16 {
    (b[off] as u16) | ((b[off + 1] as u16) << 8u16)
}

/// The 32-bit word whose little-endian bytes sit at `b[off..off + 4]`.
pub open spec fn u32_from_le(b: Seq<u8>, off: int) -> u32 {
    (b[off] as u32) | ((b[off + 1] as u32) << 8u32) | ((b[off + 2] as u32) << 16u32) | ((b[off
        + 3] as u32) << 24u32)
}

/// Byte `i` of the encoded record.
pub open spec fn event_byte(ev: InputEvent, i: int) -> u8 {
    if 0 <= i < 8 {
        le_byte64(ev.tv_sec as u64, i)
    } else if 8 <= i < 16 {
        le_byte64(ev.tv_usec as u64, i - 8)
    } else if 16 <= i < 18 {
        le_byte16(ev.etype, i - 16)
    } else if 18 <= i < 20 {
        le_byte16(ev.code, i - 18)
    } else if 20 <= i < 24 {
        le_byte32(ev.value as u32, i - 20)
    } else {
        0
    }
}

/// The encoded record: 24 bytes laid out as the module doc describes.
pub open spec fn event_bytes(ev: InputEvent) -> Seq<u8> {
    Seq::new(EVENT_SIZE as nat, |i: int| event_byte(ev, i))
}

/// The event whose fields are read out of a 24-byte record.
pub open spec fn spec_decode_event(b: Seq<u8>) -> InputEvent {
    InputEvent {
        tv_sec: u64_from_le(b, 0) as i64,
        tv_usec: u64_from_le(b, 8) as i64,
        etype: u16_from_le(b, 16),
        code: u16_from_le(b, 18),
        value: u32_from_le(b, 20) as i32,
    }
}

fn push_u64_le(buf: &mut Vec<u8>, x: u64)
    ensures
        final(buf)@.len() == old(buf)@.len() + 8,
        forall|i: int| 0 <= i < old(buf)@.len() ==> final(buf)@[i] == old(buf)@[i],
        forall|i: int| 0 <= i < 8 ==> final(buf)@[old(buf)@.len() + i] == le_byte64(x, i),
{
    buf.push((x >> 0u64) as u8);
    buf.push((x >> 8u64) as u8);
    buf.push((x >> 16u64) as u8);
    buf.push((x >> 24u64) as u8);
    buf.push((x >> 32u64) as u8);
    buf.push((x >> 40u64) as u8);
    buf.push((x >> 48u64) as u8);
    buf.push((x >> 56u64) as u8);
}

fn push_u16_le(buf: &mut Vec<u8>, x: u16)
    ensures
        final(buf)@.len() == old(buf)@.len() + 2,
        forall|i: int| 0 <= i < old(buf)@.len() ==> final(buf)@[i] == old(buf)@[i],
        forall|i: int| 0 <= i < 2 ==> final(buf)@[old(buf)@.len() + i] == le_byte16(x, i),
{
    buf.push((x >> 0u16) as u8);
    buf.push((x >> 8u16) as u8);
}

fn push_u32_le(buf: &mut Vec<u8>, x: u32)
    ensures
        final(buf)@.len() == old(buf)@.len() + 4,
        forall|i: int| 0 <= i < old(buf)@.len() ==> final(buf)@[i] == old(buf)@[i],
        forall|i: int| 0 <= i < 4 ==> final(buf)@[old(buf)@.len() + i] == le_byte32(x, i),
{
    buf.push((x >> 0u32) as u8);
    buf.push((x >> 8u32) as u8);
    buf.push((x >> 16u32) as u8);
    buf.push((x >> 24u32) as u8);
}

/// Encode an event into its 24-byte record.
pub fn encode_input_event(ev: &InputEvent) -> (buf: Vec<u8>)
    ensures
        buf@ == event_bytes(*ev),
{
    let mut buf: Vec<u8> = Vec::new();
    push_u64_le(&mut buf, ev.tv_sec as u64);
    push_u64_le(&mut buf, ev.tv_usec as u64);
    push_u16_le(&mut buf, ev.etype);
    push_u16_le(&mut buf, ev.code);
    push_u32_le(&mut buf, ev.value as u32);
    proof {
        assert(buf@ =~= event_bytes(*ev));
    }
    buf
}

fn read_u64_le(buf: &Vec<u8>, off: usize) -> (x: u64)
    requires
        off <= usize::MAX - 8,
        off + 8 <= buf@.len(),
    ensures
        x == u64_from_le(buf@, off as int),
{
    (buf[off] as u64) | ((buf[off + 1] as u64) << 8u64) | ((buf[off + 2] as u64) << 16u64) | ((buf[
        off + 3] as u64) << 24u64) | ((buf[off + 4] as u64) << 32u64) | ((buf[off + 5] as u64)
        << 40u64) | ((buf[off + 6] as u64) << 48u64) | ((buf[off + 7] as u64) << 56u64)
}

fn read_u16_le(buf: &Vec<u8>, off: usize) -> (x: u16)
    requires
        off <= usize::MAX - 2,
        off + 2 <= buf@.len(),
    ensures
        x == u16_from_le(buf@, off as int),
{
    (buf[off] as u16) | ((buf[off + 1] as u16) << 8u16)
}

fn read_u32_le(buf: &Vec<u8>, off: usize) -> (x: u32)
    requires
        off <= usize::MAX - 4,
        off + 4 <= buf@.len(),
    ensures
        x == u32_from_le(buf@, off as int),
{
    (buf[off] as u32) | ((buf[off + 1] as u32) << 8u32) | ((buf[off + 2] as u32) << 16u32) | ((buf[
        off + 3] as u32) << 24u32)
}

/// Decode a 24-byte record into an event.
pub fn decode_input_event(buf: &Vec<u8>) -> (ev: InputEvent)
    requires
        buf@.len() == EVENT_SIZE,
    ensures
        ev == spec_decode_event(buf@),
{
    InputEvent {
        tv_sec: read_u64_le(buf, 0) as i64,
        tv_usec: read_u64_le(buf, 8) as i64,
        etype: read_u16_le(buf, 16),
        code: read_u16_le(buf, 18),
        value: read_u32_le(buf, 20) as i32,
    }
}

proof fn lemma_u64_split_combine(x: u64)
    by (bit_vector)
    ensures
        (((x >> 0u64) as u8) as u64) | ((((x >> 8u64) as u8) as u64) << 8u64) | ((((x
            >> 16u64) as u8) as u64) << 16u64) | ((((x >> 24u64) as u8) as u64) << 24u64) | ((((x
            >> 32u64) as u8) as u64) << 32u64) | ((((x >> 40u64) as u8) as u64) << 40u64) | ((((x
            >> 48u64) as u8) as u64) << 48u64) | ((((x >> 56u64) as u8) as u64) << 56u64) == x,
{
}

proof fn lemma_u16_split_combine(x: u16)
    by (bit_vector)
    ensures
        (((x >> 0u16) as u8) as u16) | ((((x >> 8u16) as u8) as u16) << 8u16) == x,
{
}

proof fn lemma_u32_split_combine(x: u32)
    by (bit_vector)
    ensures
        (((x >> 0u32) as u8) as u32) | ((((x >> 8u32) as u8) as u32) << 8u32) | ((((x
            >> 16u32) as u8) as u32) << 16u32) | ((((x >> 24u32) as u8) as u32) << 24u32) == x,
{
}

proof fn lemma_u64_combine_split(b0: u8, b1: u8, b2: u8, b3: u8, b4: u8, b5: u8, b6: u8, b7: u8)
    by (bit_vector)
    ensures
        ((((b0 as u64) | ((b1 as u64) << 8u64) | ((b2 as u64) << 16u64) | ((b3 as u64) << 24u64) | (
        (b4 as u64) << 32u64) | ((b5 as u64) << 40u64) | ((b6 as u64) << 48u64) | ((b7 as u64)
            << 56u64)) >> 0u64) as u8) == b0,
        ((((b0 as u64) | ((b1 as u64) << 8u64) | ((b2 as u64) << 16u64) | ((b3 as u64) << 24u64) | (
        (b4 as u64) << 32u64) | ((b5 as u64) << 40u64) | ((b6 as u64) << 48u64) | ((b7 as u64)
            << 56u64)) >> 8u64) as u8) == b1,
        ((((b0 as u64) | ((b1 as u64) << 8u64) | ((b2 as u64) << 16u64) | ((b3 as u64) << 24u64) | (
        (b4 as u64) << 32u64) | ((b5 as u64) << 40u64) | ((b6 as u64) << 48u64) | ((b7 as u64)
            << 56u64)) >> 16u64) as u8) == b2,
        ((((b0 as u64) | ((b1 as u64) << 8u64) | ((b2 as u64) << 16u64) | ((b3 as u64) << 24u64) | (
        (b4 as u64) << 32u64) | ((b5 as u64) << 40u64) | ((b6 as u64) << 48u64) | ((b7 as u64)
            << 56u64)) >> 24u64) as u8) == b3,
        ((((b0 as u64) | ((b1 as u64) << 8u64) | ((b2 as u64) << 16u64) | ((b3 as u64) << 24u64) | (
        (b4 as u64) << 32u64) | ((b5 as u64) << 40u64) | ((b6 as u64) << 48u64) | ((b7 as u64)
            << 56u64)) >> 32u64) as u8) == b4,
        ((((b0 as u64) | ((b1 as u64) << 8u64) | ((b2 as u64) << 16u64) | ((b3 as u64) << 24u64) | (
        (b4 as u64) << 32u64) | ((b5 as u64) << 40u64) | ((b6 as u64) << 48u64) | ((b7 as u64)
            << 56u64)) >> 40u64) as u8) == b5,
        ((((b0 as u64) | ((b1 as u64) << 8u64) | ((b2 as u64) << 16u64) | ((b3 as u64) << 24u64) | (
        (b4 as u64) << 32u64) | ((b5 as u64) << 40u64) | ((b6 as u64) << 48u64) | ((b7 as u64)
            << 56u64)) >> 48u64) as u8) == b6,
        ((((b0 as u64) | ((b1 as u64) << 8u64) | ((b2 as u64) << 16u64) | ((b3 as u64) << 24u64) | (
        (b4 as u64) << 32u64) | ((b5 as u64) << 40u64) | ((b6 as u64) << 48u64) | ((b7 as u64)
            << 56u64)) >> 56u64) as u8) == b7,
{
}

proof fn lemma_u16_combine_split(b0: u8, b1: u8)
    by (bit_vector)
    ensures
        ((((b0 as u16) | ((b1 as u16) << 8u16)) >> 0u16) as u8) == b0,
        ((((b0 as u16) | ((b1 as u16) << 8u16)) >> 8u16) as u8) == b1,
{
}

proof fn lemma_u32_combine_split(b0: u8, b1: u8, b2: u8, b3: u8)
    by (bit_vector)
    ensures
        ((((b0 as u32) | ((b1 as u32) << 8u32) | ((b2 as u32) << 16u32) | ((b3 as u32) << 24u32))
            >> 0u32) as u8) == b0,
        ((((b0 as u32) | ((b1 as u32) << 8u32) | ((b2 as u32) << 16u32) | ((b3 as u32) << 24u32))
            >> 8u32) as u8) == b1,
        ((((b0 as u32) | ((b1 as u32) << 8u32) | ((b2 as u32) << 16u32) | ((b3 as u32) << 24u32))
            >> 16u32) as u8) == b2,
        ((((b0 as u32) | ((b1 as u32) << 8u32) | ((b2 as u32) << 16u32) | ((b3 as u32) << 24u32))
            >> 24u32) as u8) == b3,
{
}

proof fn lemma_i64_cast_round(x: i64)
    by (bit_vector)
    ensures
        ((x as u64) as i64) == x,
{
}

proof fn lemma_u64_cast_round(x: u64)
    by (bit_vector)
    ensures
        ((x as i64) as u64) == x,
{
}

proof fn lemma_i32_cast_round(x: i32)
    by (bit_vector)
    ensures
        ((x as u32) as i32) == x,
{
}

proof fn lemma_u32_cast_round(x: u32)
    by (bit_vector)
    ensures
        ((x as i32) as u32) == x,
{
}

/// Decoding the encoding of any event gives that event back.
pub proof fn lemma_event_codec_round_trip(ev: InputEvent)
    ensures
        spec_decode_event(event_bytes(ev)) == ev,
{
    let b = event_bytes(ev);
    lemma_u64_split_combine(ev.tv_sec as u64);
    lemma_i64_cast_round(ev.tv_sec);
    assert(u64_from_le(b, 0) == ev.tv_sec as u64);
    lemma_u64_split_combine(ev.tv_usec as u64);
    lemma_i64_cast_round(ev.tv_usec);
    assert(u64_from_le(b, 8) == ev.tv_usec as u64);
    lemma_u16_split_combine(ev.etype);
    assert(u16_from_le(b, 16) == ev.etype);
    lemma_u16_split_combine(ev.code);
    assert(u16_from_le(b, 18) == ev.code);
    lemma_u32_split_combine(ev.value as u32);
    lemma_i32_cast_round(ev.value);
    assert(u32_from_le(b, 20) == ev.value as u32);
}

/// Encoding the decoding of any 24-byte record gives that record back: the
/// layout map loses nothing in either direction.
pub proof fn lemma_event_codec_left_inverse(b: Seq<u8>)
    requires
        b.len() == EVENT_SIZE,
    ensures
        event_bytes(spec_decode_event(b)) == b,
{
    let ev = spec_decode_event(b);
    lemma_u64_combine_split(b[0], b[1], b[2], b[3], b[4], b[5], b[6], b[7]);
    lemma_u64_cast_round(u64_from_le(b, 0));
    lemma_u64_combine_split(b[8], b[9], b[10], b[11], b[12], b[13], b[14], b[15]);
    lemma_u64_cast_round(u64_from_le(b, 8));
    lemma_u16_combine_split(b[16], b[17]);
    lemma_u16_combine_split(b[18], b[19]);
    lemma_u32_combine_split(b[20], b[21], b[22], b[23]);
    lemma_u32_cast_round(u32_from_le(b, 20));
    assert(event_bytes(ev) =~= b);
}

} // verus!
