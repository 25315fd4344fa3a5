//! Bit slices of a 32-bit register word.
//!
//! A slice is named by the position of its lowest bit (`shift`) and by its
//! unshifted mask (`mask`). Writing a slice is a read-modify-write of the
//! whole word: the bits outside the slice are carried over untouched.

use vstd::prelude::*;

verus! {

/// The mask of a slice that is `width` bits wide, for the widths in use.
pub open spec fn low_mask(width: u32) -> u32 {
    if width == 1 {
        0x1
    } else if width == 2 {
        0x3
    } else {
        0xf
    }
}

/// The value of the slice `(shift, mask)` of `word`.
pub open spec fn get_bits(word: u32, shift: u32, mask: u32) -> u32 {
    (word >> shift) & mask
}

/// The bits of a word that the slice `(shift, mask)` occupies.
pub open spec fn slice_mask(shift: u32, mask: u32) -> u32 {
    mask << shift
}

/// A slice lies within the word: no bit of its mask is shifted out.
pub open spec fn slice_fits(shift: u32, mask: u32) -> bool {
    shift < 32 && (mask << shift) >> shift == mask
}

/// Two slices share no bit.
pub open spec fn slices_disjoint(shift_a: u32, mask_a: u32, shift_b: u32, mask_b: u32) -> bool {
    slice_mask(shift_a, mask_a) & slice_mask(shift_b, mask_b) == 0
}

/// Reads the slice `(shift, mask)` of `word`.
pub fn extract(word: u32, shift: u32, mask: u32) -> (value: u32)
    requires
        shift < 32,
    ensures
        value == get_bits(word, shift, mask),
        value & mask == value,
{
    let value: u32 = (word >> shift) & mask;
    assert(((word >> shift) & mask) & mask == (word >> shift) & mask) by (bit_vector);
    value
}

/// Replaces the slice `(shift, mask)` of `word` by `value`, truncated to the
/// slice, and keeps every other bit.
pub fn insert(word: u32, shift: u32, mask: u32, value: u32) -> (updated: u32)
    requires
        slice_fits(shift, mask),
    ensures
        get_bits(updated, shift, mask) == value & mask,
        updated & !slice_mask(shift, mask) == word & !slice_mask(shift, mask),
{
    let cleared: u32 = word & !(mask << shift);
    let updated: u32 = cleared | ((value & mask) << shift);
    assert(((word & !(mask << shift)) | ((value & mask) << shift)) >> shift & mask == value & mask)
        by (bit_vector)
        requires
            shift < 32,
            (mask << shift) >> shift == mask,
    ;
    assert(((word & !(mask << shift)) | ((value & mask) << shift)) & !(mask << shift) == word & !(
    mask << shift)) by (bit_vector);
    updated
}

/// A word that agrees with another outside one slice agrees with it on every
/// slice disjoint from that one.
pub proof fn lemma_disjoint_slice_kept(
    before: u32,
    after: u32,
    shift: u32,
    mask: u32,
    other_shift: u32,
    other_mask: u32,
)
    requires
        after & !slice_mask(shift, mask) == before & !slice_mask(shift, mask),
        slice_fits(other_shift, other_mask),
        slices_disjoint(shift, mask, other_shift, other_mask),
    ensures
        get_bits(after, other_shift, other_mask) == get_bits(before, other_shift, other_mask),
{
    assert((after >> other_shift) & other_mask == (before >> other_shift) & other_mask)
        by (bit_vector)
        requires
            after & !(mask << shift) == before & !(mask << shift),
            other_shift < 32,
            (other_mask << other_shift) >> other_shift == other_mask,
            (mask << shift) & (other_mask << other_shift) == 0,
    ;
}

/// Slices of one width at different multiples of that width lie within the
/// word and share no bit.
pub proof fn lemma_slots_disjoint(width: u32, slot: u32, other: u32)
    requires
        width == 1 || width == 2 || width == 4,
        slot < 32u32 / width,
        other < 32u32 / width,
    ensures
        slice_fits((slot * width) as u32, low_mask(width)),
        slot != other ==> slices_disjoint(
            (slot * width) as u32,
            low_mask(width),
            (other * width) as u32,
            low_mask(width),
        ),
{
    let m = low_mask(width);
    let s: u32 = (slot * width) as u32;
    let t: u32 = (other * width) as u32;
    if width == 1 {
        assert(s == slot && t == other);
        assert(s < 32 && (1u32 << s) >> s == 1u32) by (bit_vector)
            requires
                s < 32,
        ;
        assert(s != t ==> (1u32 << s) & (1u32 << t) == 0) by (bit_vector)
            requires
                s < 32,
                t < 32,
        ;
    } else if width == 2 {
        assert(s == 2 * slot && t == 2 * other);
        assert((3u32 << s) >> s == 3u32) by (bit_vector)
            requires
                s <= 30,
        ;
        assert(s != t ==> (3u32 << s) & (3u32 << t) == 0) by (bit_vector)
            requires
                s <= 30,
                t <= 30,
                s % 2 == 0,
                t % 2 == 0,
        ;
    } else {
        assert(s == 4 * slot && t == 4 * other);
        assert((15u32 << s) >> s == 15u32) by (bit_vector)
            requires
                s <= 28,
        ;
        assert(s != t ==> (15u32 << s) & (15u32 << t) == 0) by (bit_vector)
            requires
                s <= 28,
                t <= 28,
                s % 4 == 0,
                t % 4 == 0,
        ;
    }
}

/// The value of the slice of the given width at the multiple `slot` of that
/// width.
pub open spec fn slot_bits(word: u32, width: u32, slot: int) -> u32 {
    get_bits(word, (slot * width) as u32, low_mask(width))
}

/// Two words with the same eight four-bit slices are the same word.
pub proof fn lemma_equal_by_nibbles(a: u32, b: u32)
    requires
        forall|slot: int| 0 <= slot < 8 ==> #[trigger] slot_bits(a, 4, slot) == slot_bits(b, 4, slot),
    ensures
        a == b,
{
    assert(slot_bits(a, 4, 0) == slot_bits(b, 4, 0));
    assert(slot_bits(a, 4, 1) == slot_bits(b, 4, 1));
    assert(slot_bits(a, 4, 2) == slot_bits(b, 4, 2));
    assert(slot_bits(a, 4, 3) == slot_bits(b, 4, 3));
    assert(slot_bits(a, 4, 4) == slot_bits(b, 4, 4));
    assert(slot_bits(a, 4, 5) == slot_bits(b, 4, 5));
    assert(slot_bits(a, 4, 6) == slot_bits(b, 4, 6));
    assert(slot_bits(a, 4, 7) == slot_bits(b, 4, 7));
    assert(a == b) by (bit_vector)
        requires
            (a >> 0) & 0xf == (b >> 0) & 0xf,
            (a >> 4) & 0xf == (b >> 4) & 0xf,
            (a >> 8) & 0xf == (b >> 8) & 0xf,
            (a >> 12) & 0xf == (b >> 12) & 0xf,
            (a >> 16) & 0xf == (b >> 16) & 0xf,
            (a >> 20) & 0xf == (b >> 20) & 0xf,
            (a >> 24) & 0xf == (b >> 24) & 0xf,
            (a >> 28) & 0xf == (b >> 28) & 0xf,
    ;
}

/// Two words with the same sixteen two-bit slices are the same word.
pub proof fn lemma_equal_by_pairs(a: u32, b: u32)
    requires
        forall|slot: int| 0 <= slot < 16 ==> #[trigger] slot_bits(a, 2, slot) == slot_bits(b, 2, slot),
    ensures
        a == b,
{
    assert(slot_bits(a, 2, 0) == slot_bits(b, 2, 0));
    assert(slot_bits(a, 2, 1) == slot_bits(b, 2, 1));
    assert(slot_bits(a, 2, 2) == slot_bits(b, 2, 2));
    assert(slot_bits(a, 2, 3) == slot_bits(b, 2, 3));
    assert(slot_bits(a, 2, 4) == slot_bits(b, 2, 4));
    assert(slot_bits(a, 2, 5) == slot_bits(b, 2, 5));
    assert(slot_bits(a, 2, 6) == slot_bits(b, 2, 6));
    assert(slot_bits(a, 2, 7) == slot_bits(b, 2, 7));
    assert(slot_bits(a, 2, 8) == slot_bits(b, 2, 8));
    assert(slot_bits(a, 2, 9) == slot_bits(b, 2, 9));
    assert(slot_bits(a, 2, 10) == slot_bits(b, 2, 10));
    assert(slot_bits(a, 2, 11) == slot_bits(b, 2, 11));
    assert(slot_bits(a, 2, 12) == slot_bits(b, 2, 12));
    assert(slot_bits(a, 2, 13) == slot_bits(b, 2, 13));
    assert(slot_bits(a, 2, 14) == slot_bits(b, 2, 14));
    assert(slot_bits(a, 2, 15) == slot_bits(b, 2, 15));
    assert(a == b) by (bit_vector)
        requires
            (a >> 0) & 0x3 == (b >> 0) & 0x3,
            (a >> 2) & 0x3 == (b >> 2) & 0x3,
            (a >> 4) & 0x3 == (b >> 4) & 0x3,
            (a >> 6) & 0x3 == (b >> 6) & 0x3,
            (a >> 8) & 0x3 == (b >> 8) & 0x3,
            (a >> 10) & 0x3 == (b >> 10) & 0x3,
            (a >> 12) & 0x3 == (b >> 12) & 0x3,
            (a >> 14) & 0x3 == (b >> 14) & 0x3,
            (a >> 16) & 0x3 == (b >> 16) & 0x3,
            (a >> 18) & 0x3 == (b >> 18) & 0x3,
            (a >> 20) & 0x3 == (b >> 20) & 0x3,
            (a >> 22) & 0x3 == (b >> 22) & 0x3,
            (a >> 24) & 0x3 == (b >> 24) & 0x3,
            (a >> 26) & 0x3 == (b >> 26) & 0x3,
            (a >> 28) & 0x3 == (b >> 28) & 0x3,
            (a >> 30) & 0x3 == (b >> 30) & 0x3,
    ;
}

/// Two words with the same thirty-two bits are the same word.
pub proof fn lemma_equal_by_bits(a: u32, b: u32)
    requires
        forall|slot: int| 0 <= slot < 32 ==> #[trigger] slot_bits(a, 1, slot) == slot_bits(b, 1, slot),
    ensures
        a == b,
{
    assert(slot_bits(a, 1, 0) == slot_bits(b, 1, 0));
    assert(slot_bits(a, 1, 1) == slot_bits(b, 1, 1));
    assert(slot_bits(a, 1, 2) == slot_bits(b, 1, 2));
    assert(slot_bits(a, 1, 3) == slot_bits(b, 1, 3));
    assert(slot_bits(a, 1, 4) == slot_bits(b, 1, 4));
    assert(slot_bits(a, 1, 5) == slot_bits(b, 1, 5));
    assert(slot_bits(a, 1, 6) == slot_bits(b, 1, 6));
    assert(slot_bits(a, 1, 7) == slot_bits(b, 1, 7));
    assert(slot_bits(a, 1, 8) == slot_bits(b, 1, 8));
    assert(slot_bits(a, 1, 9) == slot_bits(b, 1, 9));
    assert(slot_bits(a, 1, 10) == slot_bits(b, 1, 10));
    assert(slot_bits(a, 1, 11) == slot_bits(b, 1, 11));
    assert(slot_bits(a, 1, 12) == slot_bits(b, 1, 12));
    assert(slot_bits(a, 1, 13) == slot_bits(b, 1, 13));
    assert(slot_bits(a, 1, 14) == slot_bits(b, 1, 14));
    assert(slot_bits(a, 1, 15) == slot_bits(b, 1, 15));
    assert(slot_bits(a, 1, 16) == slot_bits(b, 1, 16));
    assert(slot_bits(a, 1, 17) == slot_bits(b, 1, 17));
    assert(slot_bits(a, 1, 18) == slot_bits(b, 1, 18));
    assert(slot_bits(a, 1, 19) == slot_bits(b, 1, 19));
    assert(slot_bits(a, 1, 20) == slot_bits(b, 1, 20));
    assert(slot_bits(a, 1, 21) == slot_bits(b, 1, 21));
    assert(slot_bits(a, 1, 22) == slot_bits(b, 1, 22));
    assert(slot_bits(a, 1, 23) == slot_bits(b, 1, 23));
    assert(slot_bits(a, 1, 24) == slot_bits(b, 1, 24));
    assert(slot_bits(a, 1, 25) == slot_bits(b, 1, 25));
    assert(slot_bits(a, 1, 26) == slot_bits(b, 1, 26));
    assert(slot_bits(a, 1, 27) == slot_bits(b, 1, 27));
    assert(slot_bits(a, 1, 28) == slot_bits(b, 1, 28));
    assert(slot_bits(a, 1, 29) == slot_bits(b, 1, 29));
    assert(slot_bits(a, 1, 30) == slot_bits(b, 1, 30));
    assert(slot_bits(a, 1, 31) == slot_bits(b, 1, 31));
    assert(a == b) by (bit_vector)
        requires
            (a >> 0) & 0x1 == (b >> 0) & 0x1,
            (a >> 1) & 0x1 == (b >> 1) & 0x1,
            (a >> 2) & 0x1 == (b >> 2) & 0x1,
            (a >> 3) & 0x1 == (b >> 3) & 0x1,
            (a >> 4) & 0x1 == (b >> 4) & 0x1,
            (a >> 5) & 0x1 == (b >> 5) & 0x1,
            (a >> 6) & 0x1 == (b >> 6) & 0x1,
            (a >> 7) & 0x1 == (b >> 7) & 0x1,
            (a >> 8) & 0x1 == (b >> 8) & 0x1,
            (a >> 9) & 0x1 == (b >> 9) & 0x1,
            (a >> 10) & 0x1 == (b >> 10) & 0x1,
            (a >> 11) & 0x1 == (b >> 11) & 0x1,
            (a >> 12) & 0x1 == (b >> 12) & 0x1,
            (a >> 13) & 0x1 == (b >> 13) & 0x1,
            (a >> 14) & 0x1 == (b >> 14) & 0x1,
            (a >> 15) & 0x1 == (b >> 15) & 0x1,
            (a >> 16) & 0x1 == (b >> 16) & 0x1,
            (a >> 17) & 0x1 == (b >> 17) & 0x1,
            (a >> 18) & 0x1 == (b >> 18) & 0x1,
            (a >> 19) & 0x1 == (b >> 19) & 0x1,
            (a >> 20) & 0x1 == (b >> 20) & 0x1,
            (a >> 21) & 0x1 == (b >> 21) & 0x1,
            (a >> 22) & 0x1 == (b >> 22) & 0x1,
            (a >> 23) & 0x1 == (b >> 23) & 0x1,
            (a >> 24) & 0x1 == (b >> 24) & 0x1,
            (a >> 25) & 0x1 == (b >> 25) & 0x1,
            (a >> 26) & 0x1 == (b >> 26) & 0x1,
            (a >> 27) & 0x1 == (b >> 27) & 0x1,
            (a >> 28) & 0x1 == (b >> 28) & 0x1,
            (a >> 29) & 0x1 == (b >> 29) & 0x1,
            (a >> 30) & 0x1 == (b >> 30) & 0x1,
            (a >> 31) & 0x1 == (b >> 31) & 0x1,
    ;
}

} // verus!
