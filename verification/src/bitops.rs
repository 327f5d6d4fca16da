//! Shift-and-mask accessors for the bit-packed register fields the drivers
//! write: 8-bit priority lanes packed four to a word, and the two-bit
//! trigger-configuration fields packed sixteen to a word. The laws proved
//! here say that writing one field leaves every sibling field in the same
//! word untouched.

use vstd::prelude::*;

verus! {

/// Byte lane `lane` of the word `w`.
pub open spec fn byte_lane(w: u32, lane: u32) -> u32
    recommends
        lane < 4,
{
    (w >> ((8 * lane) as u32)) & 0xff
}

/// The word `w` with byte lane `lane` replaced by `b`.
pub open spec fn spec_set_byte_lane(w: u32, lane: u32, b: u8) -> u32
    recommends
        lane < 4,
{
    (w & !(0xffu32 << ((8 * lane) as u32))) | ((b as u32) << ((8 * lane) as u32))
}

/// Returns the word `w` with byte lane `lane` replaced by `b`.
pub fn set_byte_lane(w: u32, lane: u32, b: u8) -> (r: u32)
    requires
        lane < 4,
    ensures
        r == spec_set_byte_lane(w, lane, b),
{
    (w & !(0xffu32 << (8 * lane))) | ((b as u32) << (8 * lane))
}

/// Writing one byte lane stores exactly that byte there and leaves the other
/// three lanes of the word as they were.
pub proof fn lemma_byte_lane_isolated(w: u32, lane: u32, b: u8)
    by (bit_vector)
    requires
        lane < 4,
    ensures
        byte_lane(spec_set_byte_lane(w, lane, b), lane) == b,
        forall|q: u32|
            q < 4 && q != lane ==> byte_lane(spec_set_byte_lane(w, lane, b), q) == byte_lane(w, q),
{
}

/// Whether bit `pos` of the word `w` is set.
pub open spec fn bit_get(w: u32, pos: u32) -> bool
    recommends
        pos < 32,
{
    w & (1u32 << pos) != 0
}

/// The word `w` with bit `pos` set.
pub open spec fn spec_bit_set(w: u32, pos: u32) -> u32
    recommends
        pos < 32,
{
    w | (1u32 << pos)
}

/// The word `w` with bit `pos` cleared.
pub open spec fn spec_bit_clear(w: u32, pos: u32) -> u32
    recommends
        pos < 32,
{
    w & !(1u32 << pos)
}

/// Returns the word `w` with bit `pos` set.
pub fn bit_set(w: u32, pos: u32) -> (r: u32)
    requires
        pos < 32,
    ensures
        r == spec_bit_set(w, pos),
{
    w | (1u32 << pos)
}

/// Returns the word `w` with bit `pos` cleared.
pub fn bit_clear(w: u32, pos: u32) -> (r: u32)
    requires
        pos < 32,
    ensures
        r == spec_bit_clear(w, pos),
{
    w & !(1u32 << pos)
}

/// Setting or clearing one bit leaves every other bit of the word as it was,
/// and stores exactly the requested value at `pos`.
pub proof fn lemma_bit_isolated(w: u32, pos: u32)
    by (bit_vector)
    requires
        pos < 32,
    ensures
        bit_get(spec_bit_set(w, pos), pos),
        !bit_get(spec_bit_clear(w, pos), pos),
        forall|q: u32|
            q < 32 && q != pos ==> bit_get(spec_bit_set(w, pos), q) == bit_get(w, q),
        forall|q: u32|
            q < 32 && q != pos ==> bit_get(spec_bit_clear(w, pos), q) == bit_get(w, q),
{
}

/// Setting a bit and then clearing it returns every bit of the word to its
/// old value, except the written bit itself, which ends cleared; two words
/// that agree on all bits are equal.
pub proof fn lemma_bit_round_trip(w: u32, pos: u32)
    by (bit_vector)
    requires
        pos < 32,
    ensures
        spec_bit_clear(spec_bit_set(w, pos), pos) == spec_bit_clear(w, pos),
        !bit_get(w, pos) ==> spec_bit_clear(spec_bit_set(w, pos), pos) == w,
        bit_get(w, pos) ==> spec_bit_set(spec_bit_clear(w, pos), pos) == w,
{
}

/// The bit position of the trigger-configuration bit for interrupt line
/// `line` inside its configuration register: the odd bit of its two-bit
/// field, sixteen fields to a word.
pub open spec fn trigger_bit(line: u32) -> u32 {
    ((line % 16) * 2 + 1) as u32
}

/// Configuring an interrupt edge-triggered and then level-triggered
/// round-trips its configuration register: the register returns to its old
/// value whenever the interrupt was level-triggered to begin with, and no
/// other interrupt's bits are disturbed at any point in between.
pub proof fn lemma_trigger_round_trip(w: u32, line: u32)
    ensures
        !bit_get(w, trigger_bit(line)) ==> spec_bit_clear(
            spec_bit_set(w, trigger_bit(line)),
            trigger_bit(line),
        ) == w,
        forall|q: u32|
            q < 32 && q != trigger_bit(line) ==> bit_get(spec_bit_set(w, trigger_bit(line)), q)
                == bit_get(w, q),
        forall|q: u32|
            q < 32 && q != trigger_bit(line) ==> bit_get(
                spec_bit_clear(spec_bit_set(w, trigger_bit(line)), trigger_bit(line)),
                q,
            ) == bit_get(w, q),
{
    let pos = trigger_bit(line);
    lemma_bit_round_trip(w, pos);
    lemma_bit_isolated(w, pos);
    lemma_bit_isolated(spec_bit_set(w, pos), pos);
}

} // verus!
