//! Per-pin fields packed into an array of register words.
//!
//! A field that is `width` bits wide is stored for `32 / width` pins in each
//! word, lowest pin in the lowest bits.

use crate::bits::{
    extract, get_bits, insert, lemma_disjoint_slice_kept, lemma_equal_by_bits,
    lemma_equal_by_nibbles, lemma_equal_by_pairs, lemma_slots_disjoint, low_mask, slice_mask,
    slot_bits,
};
use vstd::prelude::*;

verus! {

/// The field widths in use.
pub open spec fn width_ok(width: u32) -> bool {
    width == 1 || width == 2 || width == 4
}

/// How many pins share one word for a field of the given width.
pub open spec fn pins_per_word(width: u32) -> int {
    if width == 1 {
        32
    } else if width == 2 {
        16
    } else {
        8
    }
}

/// The index of the word that holds the field of `pin`.
pub open spec fn word_of(width: u32, pin: int) -> int {
    pin / pins_per_word(width)
}

/// The position of the lowest bit of the field of `pin` within its word.
pub open spec fn shift_of(width: u32, pin: int) -> u32 {
    ((pin % pins_per_word(width)) * width) as u32
}

/// The value of the field of `pin`.
pub open spec fn packed_field(words: Seq<u32>, width: u32, pin: int) -> u32 {
    get_bits(words[word_of(width, pin)], shift_of(width, pin), low_mask(width))
}

/// The pins whose field of this width lies in an array of `count` words.
pub open spec fn pin_in(count: int, width: u32, pin: int) -> bool {
    0 <= pin && word_of(width, pin) < count
}

/// The exec counterpart of [`pins_per_word`].
fn per_word(width: u32) -> (per: usize)
    requires
        width_ok(width),
    ensures
        per == pins_per_word(width),
        per * width == 32,
{
    if width == 1 {
        32
    } else if width == 2 {
        16
    } else {
        8
    }
}

/// The mask of a field of the given width.
fn mask_of(width: u32) -> (mask: u32)
    requires
        width_ok(width),
    ensures
        mask == low_mask(width),
{
    if width == 1 {
        0x1
    } else if width == 2 {
        0x3
    } else {
        0xf
    }
}

/// The shift of the field of `pin`, with the facts that place it in its word.
fn locate(width: u32, pin: usize) -> (shift: u32)
    requires
        width_ok(width),
    ensures
        shift == shift_of(width, pin as int),
        shift < 32,
{
    let per: usize = per_word(width);
    let slot: usize = pin % per;
    assert(slot * width < 32) by (nonlinear_arith)
        requires
            slot < per,
            per * width == 32,
            width > 0,
    ;
    (slot as u32) * width
}

/// Reads the field of `pin`.
pub fn read_packed<const K: usize>(words: &[u32; K], width: u32, pin: usize) -> (value: u32)
    requires
        width_ok(width),
        pin_in(K as int, width, pin as int),
    ensures
        value == packed_field(words@, width, pin as int),
        value <= low_mask(width),
{
    let per: usize = per_word(width);
    let shift: u32 = locate(width, pin);
    let mask: u32 = mask_of(width);
    let value: u32 = extract(words[pin / per], shift, mask);
    assert(value <= mask) by (bit_vector)
        requires
            value & mask == value,
    ;
    value
}

/// Writes the field of `pin` by a read-modify-write of the one word that
/// holds it. The value is truncated to the field's width. Every other pin's
/// field, and every bit outside the field, stays as it was.
pub fn write_packed<const K: usize>(words: &mut [u32; K], width: u32, pin: usize, value: u32)
    requires
        width_ok(width),
        pin_in(K as int, width, pin as int),
    ensures
        packed_field(final(words)@, width, pin as int) == value & low_mask(width),
        forall|q: int|
            pin_in(K as int, width, q) && q != pin ==> #[trigger] packed_field(
                final(words)@,
                width,
                q,
            ) == packed_field(old(words)@, width, q),
        forall|i: int|
            0 <= i < K && i != word_of(width, pin as int) ==> #[trigger] final(words)@[i] == old(
                words,
            )@[i],
        final(words)@[word_of(width, pin as int)] & !slice_mask(
            shift_of(width, pin as int),
            low_mask(width),
        ) == old(words)@[word_of(width, pin as int)] & !slice_mask(
            shift_of(width, pin as int),
            low_mask(width),
        ),
{
    let per: usize = per_word(width);
    let shift: u32 = locate(width, pin);
    let mask: u32 = mask_of(width);
    let index: usize = pin / per;
    let ghost before = words@;
    proof {
        lemma_slots_disjoint(width, (pin % per) as u32, (pin % per) as u32);
    }
    let word: u32 = words[index];
    let updated: u32 = insert(word, shift, mask, value);
    words[index] = updated;
    proof {
        let after = words@;
        assert forall|q: int| pin_in(K as int, width, q) && q != pin implies #[trigger] packed_field(
            after,
            width,
            q,
        ) == packed_field(before, width, q) by {
            if word_of(width, q) == index {
                let slot = (q % (per as int)) as u32;
                lemma_slots_disjoint(width, slot, slot);
                lemma_slots_disjoint(width, (pin % per) as u32, slot);
                lemma_disjoint_slice_kept(
                    word,
                    updated,
                    shift,
                    mask,
                    shift_of(width, q),
                    low_mask(width),
                );
            }
        }
    }
}

/// The fields of the pins of one word determine the word: two words that
/// agree on the field of every pin are equal bit for bit.
pub proof fn lemma_fields_determine_word(a: Seq<u32>, b: Seq<u32>, width: u32, index: int)
    requires
        width_ok(width),
        0 <= index < a.len(),
        a.len() == b.len(),
        forall|pin: int|
            pin_in(a.len() as int, width, pin) ==> #[trigger] packed_field(a, width, pin)
                == packed_field(b, width, pin),
    ensures
        a[index] == b[index],
{
    let per = pins_per_word(width);
    assert forall|slot: int| 0 <= slot < per implies #[trigger] slot_bits(a[index], width, slot)
        == slot_bits(b[index], width, slot) by {
        let pin = index * per + slot;
        assert(word_of(width, pin) == index && pin % per == slot) by {
            if width == 1 {
                assert(pin == index * 32 + slot);
            } else if width == 2 {
                assert(pin == index * 16 + slot);
            } else {
                assert(pin == index * 8 + slot);
            }
        }
        assert(packed_field(a, width, pin) == packed_field(b, width, pin));
    }
    if width == 1 {
        lemma_equal_by_bits(a[index], b[index]);
    } else if width == 2 {
        lemma_equal_by_pairs(a[index], b[index]);
    } else {
        lemma_equal_by_nibbles(a[index], b[index]);
    }
}

} // verus!
