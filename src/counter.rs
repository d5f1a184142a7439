//! The greeting counter: an unsigned 32-bit value stored little-endian in
//! bytes `[0, 4)` of an account's data.

use vstd::prelude::*;

verus! {

/// Number of bytes that hold the counter.
pub const COUNTER_LEN: usize = 4;

/// The value of four bytes read as a little-endian unsigned integer.
pub open spec fn le_value(b: Seq<u8>) -> nat
    recommends
        b.len() >= 4,
{
    (b[0] as nat) + 256 * (b[1] as nat) + 65536 * (b[2] as nat) + 16777216 * (b[3] as nat)
}

/// The counter that `data` holds.
pub open spec fn counter_of(data: Seq<u8>) -> u32
    recommends
        data.len() >= 4,
{
    le_value(data) as u32
}

/// The four little-endian bytes of `v`.
pub open spec fn le_bytes(v: u32) -> Seq<u8> {
    seq![
        (v % 256) as u8,
        ((v / 256) % 256) as u8,
        ((v / 65536) % 256) as u8,
        ((v / 16777216) % 256) as u8,
    ]
}

/// The counter after one more greeting: one more, wrapping to zero past `u32::MAX`.
pub open spec fn next_count(c: u32) -> u32 {
    if c == u32::MAX {
        0
    } else {
        (c + 1) as u32
    }
}

/// Reading back the bytes of `v` gives `v`.
pub proof fn lemma_le_round_trip(v: u32)
    ensures
        le_bytes(v).len() == 4,
        le_value(le_bytes(v)) == v,
        counter_of(le_bytes(v)) == v,
{
    let b = le_bytes(v);
    let x = v as int;
    assert(x == x % 256 + 256 * ((x / 256) % 256) + 65536 * ((x / 65536) % 256) + 16777216 * (x / 16777216))
        by (nonlinear_arith)
        requires 0 <= x <= u32::MAX;
    assert(x / 16777216 < 256) by (nonlinear_arith) requires 0 <= x <= u32::MAX;
    assert(b[0] as int == x % 256);
    assert(b[1] as int == (x / 256) % 256);
    assert(b[2] as int == (x / 65536) % 256);
    assert(b[3] as int == (x / 16777216) % 256);
}

/// Reads the counter from the first four bytes of `data`.
pub fn read_counter(data: &Vec<u8>) -> (r: u32)
    requires
        data@.len() >= COUNTER_LEN,
    ensures
        r as nat == le_value(data@),
        r == counter_of(data@),
{
    let b0 = data[0] as u32;
    let b1 = data[1] as u32;
    let b2 = data[2] as u32;
    let b3 = data[3] as u32;
    b0 + 256 * b1 + 65536 * b2 + 16777216 * b3
}

/// Writes `v` little-endian into the first four bytes of `data`; the other
/// bytes stay as they were.
pub fn write_counter(data: &mut Vec<u8>, v: u32)
    requires
        old(data)@.len() >= COUNTER_LEN,
    ensures
        final(data)@ == le_bytes(v) + old(data)@.subrange(4, old(data)@.len() as int),
{
    data.set(0, (v % 256) as u8);
    data.set(1, ((v / 256) % 256) as u8);
    data.set(2, ((v / 65536) % 256) as u8);
    data.set(3, ((v / 16777216) % 256) as u8);
    assert(data@ =~= le_bytes(v) + old(data)@.subrange(4, old(data)@.len() as int));
}

/// Adds one greeting to the counter in `data`, wrapping past `u32::MAX`.
pub fn increment_counter(data: &mut Vec<u8>) -> (r: u32)
    requires
        old(data)@.len() >= COUNTER_LEN,
    ensures
        r == next_count(counter_of(old(data)@)),
        final(data)@ == le_bytes(r) + old(data)@.subrange(4, old(data)@.len() as int),
        counter_of(final(data)@) == r,
{
    let c = read_counter(data);
    let next: u32 = c.wrapping_add(1);
    write_counter(data, next);
    proof {
        lemma_le_round_trip(next);
        assert(data@.subrange(0, 4) =~= le_bytes(next));
    }
    next
}

} // verus!
