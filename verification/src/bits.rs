use vstd::prelude::*;

verus! {

// Layout of the two control words that the producer and the consumer share.
//
// The back-info word tells which buffer is the back buffer (the one that
// neither side is using) and whether the producer published it since the
// consumer last fetched an update.
//
// The next-indices byte packs, for the input side and for the output side,
// either the buffer index that the next handle of that side should take over,
// or `NO_BUFFER_IDX` while a handle of that side is alive.

/// Low-order back-info bits hold the index of the back buffer.
pub const BACK_IDX_MASK: usize = 0b0_11;

/// Next back-info bit: the producer published since the consumer last updated.
pub const BACK_UPDATED_BIT: usize = 0b1_00;

/// Back-info word of a fresh triple buffer: back buffer #0, nothing published.
pub const BACK_INFO_INIT: usize = 0b0_00;

/// Sentinel buffer index meaning "no buffer".
pub const NO_BUFFER_IDX: u8 = 0b11;

/// Bits of the next-indices byte that hold the next input index.
pub const NEXT_INPUT_MASK: u8 = 0b00_11;

/// Position of the lowest bit of `NEXT_INPUT_MASK`.
pub const NEXT_INPUT_SHIFT: u32 = 0;

/// Bits of the next-indices byte that hold the next output index.
pub const NEXT_OUTPUT_MASK: u8 = 0b11_00;

/// Position of the lowest bit of `NEXT_OUTPUT_MASK`.
pub const NEXT_OUTPUT_SHIFT: u32 = 2;

/// Next indices of a fresh triple buffer: input buffer #1, output buffer #2.
pub const NEXT_INDICES_INIT: u8 = 0b10_01;

/// Next indices while both an input and an output handle are alive.
pub const NEXT_NOTHING: u8 = 0b11_11;

/// Index of the back buffer recorded in a back-info word.
pub open spec fn back_index_of(info: usize) -> int {
    info as int % 4
}

/// Whether a back-info word records an unread publication.
pub open spec fn back_updated_of(info: usize) -> bool {
    (info as int / 4) % 2 == 1
}

/// Next input index recorded in a next-indices byte.
pub open spec fn next_input_of(next: u8) -> int {
    next as int % 4
}

/// Next output index recorded in a next-indices byte.
pub open spec fn next_output_of(next: u8) -> int {
    (next as int / 4) % 4
}

/// A next-indices byte whose input field is replaced by `idx`.
pub open spec fn set_next_input(next: u8, idx: int) -> int {
    next as int - next_input_of(next) + idx
}

/// A next-indices byte whose output field is replaced by `idx`.
pub open spec fn set_next_output(next: u8, idx: int) -> int {
    next as int - 4 * next_output_of(next) + 4 * idx
}

/// Extract the back buffer index from a back-info word.
pub fn back_index(info: usize) -> (idx: u8)
    ensures
        idx == back_index_of(info),
        idx as usize == info & BACK_IDX_MASK,
{
    assert(info & 3 == info % 4) by (bit_vector);
    (info & BACK_IDX_MASK) as u8
}

/// Tell whether a back-info word records an unread publication.
pub fn back_updated(info: usize) -> (updated: bool)
    ensures
        updated == back_updated_of(info),
        updated == (info & BACK_UPDATED_BIT != 0),
{
    assert((info & 4 != 0) == ((info / 4) % 2 == 1)) by (bit_vector);
    info & BACK_UPDATED_BIT != 0
}

/// Back-info word that publishes buffer `idx` as the new back buffer.
pub fn published_back_info(idx: u8) -> (info: usize)
    requires
        idx < 4,
    ensures
        info == idx + 4,
        back_index_of(info) == idx,
        back_updated_of(info),
{
    let i: usize = idx as usize;
    assert(i < 4 ==> (i | 4) == i + 4) by (bit_vector);
    i | BACK_UPDATED_BIT
}

/// Back-info word that hands buffer `idx` back without a publication.
pub fn returned_back_info(idx: u8) -> (info: usize)
    requires
        idx < 4,
    ensures
        info == idx,
        back_index_of(info) == idx,
        !back_updated_of(info),
{
    idx as usize
}

/// Extract the next input index from a next-indices byte.
pub fn next_input(next: u8) -> (idx: u8)
    ensures
        idx == next_input_of(next),
        idx < 4,
{
    assert((next & 3) >> 0u32 == next % 4) by (bit_vector);
    (next & NEXT_INPUT_MASK) >> NEXT_INPUT_SHIFT
}

/// Extract the next output index from a next-indices byte.
pub fn next_output(next: u8) -> (idx: u8)
    ensures
        idx == next_output_of(next),
        idx < 4,
{
    assert((next & 12) >> 2u32 == (next / 4) % 4) by (bit_vector);
    (next & NEXT_OUTPUT_MASK) >> NEXT_OUTPUT_SHIFT
}

/// Whether a next-indices byte records no live handle on either side.
pub open spec fn no_live_handle_of(next: u8) -> bool {
    next_input_of(next) != NO_BUFFER_IDX && next_output_of(next) != NO_BUFFER_IDX
}

/// Tell whether a next-indices byte records no live handle on either side.
pub fn no_live_handle(next: u8) -> (r: bool)
    ensures
        r == no_live_handle_of(next),
{
    next_input(next) != NO_BUFFER_IDX && next_output(next) != NO_BUFFER_IDX
}

/// Replace the next input index of a next-indices byte.
pub fn with_next_input(next: u8, idx: u8) -> (r: u8)
    requires
        idx < 4,
    ensures
        r == set_next_input(next, idx as int),
        next_input_of(r) == idx,
        next_output_of(r) == next_output_of(next),
        r / 16 == next / 16,
{
    assert(idx < 4 ==> (next & !3u8) | (idx << 0u32) == next - next % 4 + idx) by (bit_vector);
    assert(idx < 4 ==> (next - next % 4 + idx) % 4 == idx) by (bit_vector);
    assert(idx < 4 ==> ((next - next % 4 + idx) / 4) % 4 == (next / 4) % 4) by (bit_vector);
    assert(idx < 4 ==> (next - next % 4 + idx) / 16 == next / 16) by (bit_vector);
    (next & !NEXT_INPUT_MASK) | (idx << NEXT_INPUT_SHIFT)
}

/// Replace the next output index of a next-indices byte.
pub fn with_next_output(next: u8, idx: u8) -> (r: u8)
    requires
        idx < 4,
    ensures
        r == set_next_output(next, idx as int),
        next_output_of(r) == idx,
        next_input_of(r) == next_input_of(next),
        r / 16 == next / 16,
{
    assert(idx < 4 ==> (next & !12u8) | (idx << 2u32) == next - 4 * ((next / 4) % 4) + 4 * idx)
        by (bit_vector);
    assert(idx < 4 ==> ((next - 4 * ((next / 4) % 4) + 4 * idx) / 4) % 4 == idx) by (bit_vector);
    assert(idx < 4 ==> (next - 4 * ((next / 4) % 4) + 4 * idx) % 4 == next % 4) by (bit_vector);
    assert(idx < 4 ==> (next - 4 * ((next / 4) % 4) + 4 * idx) / 16 == next / 16) by (bit_vector);
    (next & !NEXT_OUTPUT_MASK) | (idx << NEXT_OUTPUT_SHIFT)
}

} // verus!
