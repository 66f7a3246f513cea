//! The controller's algebraic properties, stated and proved over the same
//! spec functions that the operations' contracts use: status observation
//! after an assert or deassert, idempotence of both writes, and
//! non-interference of operations on lines in distinct registers.

use vstd::prelude::*;

use crate::map::{line_bit, line_block, line_is_valid, line_zero_asserts, NUM_BLOCKS};
use crate::ops::{
    spec_assert_bank,
    spec_assert_value,
    spec_deassert_bank,
    spec_deassert_value,
    spec_line_asserted,
};

verus! {

/// After writing the asserted value for a bit, the line reads as asserted;
/// after writing the deasserted value, it reads as deasserted — whatever the
/// polarity and whatever the register held before. Polarity only changes
/// which raw bit value stands for which logical state, never the observed
/// semantics.
pub proof fn lemma_status_after_write(reg: u32, bit: u32, zero_asserts: bool)
    requires
        bit < 32,
    ensures
        spec_line_asserted(spec_assert_value(reg, bit, zero_asserts), bit, zero_asserts),
        !spec_line_asserted(spec_deassert_value(reg, bit, zero_asserts), bit, zero_asserts),
{
    assert(((reg | (1u32 << bit)) >> bit) & 1u32 == 1u32) by (bit_vector)
        requires
            bit < 32,
    ;
    assert(((reg & !(1u32 << bit)) >> bit) & 1u32 == 0u32) by (bit_vector)
        requires
            bit < 32,
    ;
}

/// Asserting a line twice in a row leaves the same register value as
/// asserting it once, and likewise for deasserting: setting and clearing a
/// bit are idempotent.
pub proof fn lemma_write_idempotent(reg: u32, bit: u32, zero_asserts: bool)
    requires
        bit < 32,
    ensures
        spec_assert_value(spec_assert_value(reg, bit, zero_asserts), bit, zero_asserts)
            == spec_assert_value(reg, bit, zero_asserts),
        spec_deassert_value(spec_deassert_value(reg, bit, zero_asserts), bit, zero_asserts)
            == spec_deassert_value(reg, bit, zero_asserts),
{
    assert((reg | (1u32 << bit)) | (1u32 << bit) == reg | (1u32 << bit)) by (bit_vector);
    assert((reg & !(1u32 << bit)) & !(1u32 << bit) == reg & !(1u32 << bit)) by (bit_vector);
}

/// Status observed through the bank after an operation on a valid line:
/// once the bank holds the effect of an assert of line `id`, a status query
/// of `id` reads asserted; once it holds the effect of a deassert, the query
/// reads deasserted — for every starting bank and either polarity.
pub proof fn lemma_status_after_assert_line(regs: Seq<u32>, id: int)
    requires
        regs.len() == NUM_BLOCKS,
        line_is_valid(id),
    ensures
        spec_line_asserted(
            spec_assert_bank(regs, id)[line_block(id)],
            line_bit(id),
            line_zero_asserts(id),
        ),
        !spec_line_asserted(
            spec_deassert_bank(regs, id)[line_block(id)],
            line_bit(id),
            line_zero_asserts(id),
        ),
{
    lemma_status_after_write(regs[line_block(id)], line_bit(id), line_zero_asserts(id));
}

/// Asserting a valid line twice in a row leaves the bank exactly as one
/// assert does, and likewise for deasserting.
pub proof fn lemma_line_write_idempotent(regs: Seq<u32>, id: int)
    requires
        regs.len() == NUM_BLOCKS,
        line_is_valid(id),
    ensures
        spec_assert_bank(spec_assert_bank(regs, id), id) == spec_assert_bank(regs, id),
        spec_deassert_bank(spec_deassert_bank(regs, id), id) == spec_deassert_bank(regs, id),
{
    lemma_write_idempotent(regs[line_block(id)], line_bit(id), line_zero_asserts(id));
    assert(spec_assert_bank(spec_assert_bank(regs, id), id) =~= spec_assert_bank(regs, id));
    assert(spec_deassert_bank(spec_deassert_bank(regs, id), id) =~= spec_deassert_bank(regs, id));
}

/// Bank contents after one assert or deassert of line `id`, chosen by
/// `do_assert`: the shape every operation's bank effect takes.
pub open spec fn spec_apply_bank(regs: Seq<u32>, id: int, do_assert: bool) -> Seq<u32> {
    if do_assert {
        spec_assert_bank(regs, id)
    } else {
        spec_deassert_bank(regs, id)
    }
}

/// An assert or deassert of line `id` changes nothing outside the line's
/// own register.
pub proof fn lemma_other_registers_untouched(regs: Seq<u32>, id: int, do_assert: bool)
    requires
        regs.len() == NUM_BLOCKS,
        line_is_valid(id),
    ensures
        spec_apply_bank(regs, id, do_assert).len() == NUM_BLOCKS,
        forall|b: int|
            0 <= b < NUM_BLOCKS && b != line_block(id) ==> spec_apply_bank(regs, id, do_assert)[b]
                == regs[b],
{
}

/// Operations on two lines that live in two different registers never
/// disturb each other: whichever of assert and deassert each performs, the
/// two orders of the two writes leave the bank identical, so no interleaving
/// of such operations can corrupt the other line's register.
pub proof fn lemma_independent_lines_commute(
    regs: Seq<u32>,
    id1: int,
    id2: int,
    do_assert1: bool,
    do_assert2: bool,
)
    requires
        regs.len() == NUM_BLOCKS,
        line_is_valid(id1),
        line_is_valid(id2),
        line_block(id1) != line_block(id2),
    ensures
        spec_apply_bank(spec_apply_bank(regs, id1, do_assert1), id2, do_assert2)
            == spec_apply_bank(spec_apply_bank(regs, id2, do_assert2), id1, do_assert1),
{
    let one_then_two = spec_apply_bank(spec_apply_bank(regs, id1, do_assert1), id2, do_assert2);
    let two_then_one = spec_apply_bank(spec_apply_bank(regs, id2, do_assert2), id1, do_assert1);
    assert(one_then_two =~= two_then_one);
}

} // verus!
