//! Single bits of register readings.

use vstd::prelude::*;

verus! {

/// Whether bit `bit` of a register reading is set.
pub open spec fn bit_set(reading: u32, bit: u8) -> bool {
    (reading >> bit) & 1 == 1
}

/// Whether bit `bit` of a register reading is set.
pub fn read_bit(reading: u32, bit: u8) -> (set: bool)
    requires
        bit < 32,
    ensures
        set == bit_set(reading, bit),
{
    (reading >> bit) & 1 == 1
}

/// A shifted one has exactly one bit.
pub proof fn lemma_one_bit(bit: u8, other: u8)
    requires
        bit < 32,
        other < 32,
    ensures
        bit_set(1u32 << bit, other) <==> bit == other,
{
    assert(((1u32 << bit) >> other) & 1 == 1 <==> bit == other) by (bit_vector)
        requires
            bit < 32,
            other < 32,
    ;
}

/// A bit of an intersection.
pub proof fn lemma_and(a: u32, b: u32, bit: u8)
    requires
        bit < 32,
    ensures
        bit_set(a & b, bit) <==> bit_set(a, bit) && bit_set(b, bit),
{
    assert(((a & b) >> bit) & 1 == 1 <==> (a >> bit) & 1 == 1 && (b >> bit) & 1 == 1) by (bit_vector)
        requires
            bit < 32,
    ;
}

/// The bits below `bits`, and no others.
pub proof fn lemma_low_mask(bits: u8, bit: u8)
    requires
        bits < 32,
        bit < 32,
    ensures
        bit_set(((1u32 << bits) - 1) as u32, bit) <==> bit < bits,
{
    assert((1u32 << bits) >= 1) by (bit_vector)
        requires
            bits < 32,
    ;
    assert((((1u32 << bits) - 1) as u32 >> bit) & 1 == 1 <==> bit < bits) by (bit_vector)
        requires
            bits < 32,
            bit < 32,
    ;
}

/// A reading with no bit set is zero.
pub proof fn lemma_no_bits_is_zero(a: u32)
    ensures
        a == 0 <==> (forall|bit: u8| bit < 32 ==> !bit_set(a, bit)),
{
    if a != 0 {
        assert(exists|bit: u8| bit < 32 && #[trigger] bit_set(a, bit)) by {
            if forall|bit: u8| bit < 32 ==> !#[trigger] bit_set(a, bit) {
                lemma_all_clear(a);
            }
        }
    } else {
        assert forall|bit: u8| bit < 32 implies !bit_set(a, bit) by {
            assert((0u32 >> bit) & 1 == 0) by (bit_vector)
                requires
                    bit < 32,
            ;
        }
    }
}

proof fn lemma_all_clear(a: u32)
    requires
        forall|bit: u8| bit < 32 ==> !#[trigger] bit_set(a, bit),
    ensures
        a == 0,
{
    let low = |i: u8| bit_set(a, i) || bit_set(a, (i + 8) as u8) || bit_set(a, (i + 16) as u8) || bit_set(
        a,
        (i + 24) as u8,
    );
    assert(!low(0) && !low(1) && !low(2) && !low(3) && !low(4) && !low(5) && !low(6) && !low(7));
    assert(a == 0) by (bit_vector)
        requires
            (a >> 0u8) & 1 != 1 && (a >> 1u8) & 1 != 1 && (a >> 2u8) & 1 != 1 && (a >> 3u8) & 1 != 1,
            (a >> 4u8) & 1 != 1 && (a >> 5u8) & 1 != 1 && (a >> 6u8) & 1 != 1 && (a >> 7u8) & 1 != 1,
            (a >> 8u8) & 1 != 1 && (a >> 9u8) & 1 != 1 && (a >> 10u8) & 1 != 1 && (a >> 11u8) & 1 != 1,
            (a >> 12u8) & 1 != 1 && (a >> 13u8) & 1 != 1 && (a >> 14u8) & 1 != 1 && (a >> 15u8) & 1 != 1,
            (a >> 16u8) & 1 != 1 && (a >> 17u8) & 1 != 1 && (a >> 18u8) & 1 != 1 && (a >> 19u8) & 1 != 1,
            (a >> 20u8) & 1 != 1 && (a >> 21u8) & 1 != 1 && (a >> 22u8) & 1 != 1 && (a >> 23u8) & 1 != 1,
            (a >> 24u8) & 1 != 1 && (a >> 25u8) & 1 != 1 && (a >> 26u8) & 1 != 1 && (a >> 27u8) & 1 != 1,
            (a >> 28u8) & 1 != 1 && (a >> 29u8) & 1 != 1 && (a >> 30u8) & 1 != 1 && (a >> 31u8) & 1 != 1,
    ;
}

} // verus!
