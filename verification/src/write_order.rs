//! Function-select writes to the pads of one register word, in any order.
//!
//! Each write is a read-modify-write of the shared word, so the word that is
//! left once every pad has been written does not depend on the order of the
//! writes: it is the composition of the codes written.

use crate::glb::{compose_codes, RegisterBlock, PIN_COUNT};
use vstd::prelude::*;

verus! {

/// One write: the pad `pin` holds the function-select code `code` afterwards
/// and every other pad has kept all of its fields. Every mode transition of a
/// pad is such a write, with the code of its target mode.
pub open spec fn function_written(
    before: RegisterBlock,
    after: RegisterBlock,
    pin: int,
    code: u32,
) -> bool {
    &&& after.pad(pin).function == code
    &&& forall|other: int|
        0 <= other < PIN_COUNT && other != pin ==> #[trigger] after.pad(other) == before.pad(other)
}

/// The step `k` of a run of writes to the word `index`: it takes `blocks[k]`
/// to `blocks[k + 1]` by writing the pad at the slot `order[k]` of the word
/// with that slot's code of `target`.
pub open spec fn step_written(
    blocks: Seq<RegisterBlock>,
    index: int,
    order: Seq<int>,
    target: Seq<u32>,
    k: int,
) -> bool {
    &&& 0 <= order[k] < 8
    &&& function_written(blocks[k], blocks[k + 1], 8 * index + order[k], target[order[k]])
}

/// A run of writes to the word `index`, one for each entry of `order`.
pub open spec fn written_in_order(
    blocks: Seq<RegisterBlock>,
    index: int,
    order: Seq<int>,
    target: Seq<u32>,
) -> bool {
    &&& blocks.len() == order.len() + 1
    &&& forall|k: int| 0 <= k < order.len() ==> #[trigger] step_written(blocks, index, order, target, k)
}

/// The slot occurs among the first `upto` entries of the order.
pub open spec fn slot_written(order: Seq<int>, upto: int, slot: int) -> bool {
    exists|k: int| 0 <= k < upto && #[trigger] order[k] == slot
}

/// A slot that has been written holds its target code from then on: later
/// writes go to other slots or write the same code again.
proof fn lemma_written_slot_holds(
    blocks: Seq<RegisterBlock>,
    index: int,
    order: Seq<int>,
    target: Seq<u32>,
    upto: int,
    slot: int,
)
    requires
        0 <= index < 4,
        written_in_order(blocks, index, order, target),
        0 <= upto <= order.len(),
        0 <= slot < 8,
        slot_written(order, upto, slot),
    ensures
        blocks[upto].pad(8 * index + slot).function == target[slot],
    decreases upto,
{
    let k = choose|k: int| 0 <= k < upto && #[trigger] order[k] == slot;
    assert(step_written(blocks, index, order, target, upto - 1));
    if order[upto - 1] != slot {
        assert(k < upto - 1);
        assert(slot_written(order, upto - 1, slot));
        lemma_written_slot_holds(blocks, index, order, target, upto - 1, slot);
        assert(blocks[upto].pad(8 * index + slot) == blocks[upto - 1].pad(8 * index + slot));
    }
}

/// Once each of the eight pads of a function-select word has been written,
/// in whatever order and however often, the word is the bitwise composition
/// of the eight target codes.
pub proof fn lemma_word_independent_of_order(
    blocks: Seq<RegisterBlock>,
    index: int,
    order: Seq<int>,
    target: Seq<u32>,
)
    requires
        0 <= index < 4,
        target.len() == 8,
        written_in_order(blocks, index, order, target),
        forall|slot: int| 0 <= slot < 8 ==> slot_written(order, order.len() as int, slot),
    ensures
        blocks.last().function_word(index) == compose_codes(target),
{
    let last = blocks.last();
    assert forall|slot: int| 0 <= slot < 8 implies last.function_codes(index)[slot]
        == target[slot] by {
        lemma_written_slot_holds(blocks, index, order, target, order.len() as int, slot);
    }
    assert(last.function_codes(index) =~= target);
    last.lemma_function_word_composed(index);
}

} // verus!
