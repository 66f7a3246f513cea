//! The four reset-controller operations — assert, deassert, status query and
//! full reset pulse — performed as read-modify-write sequences against a
//! [`RegisterBank`], with the target register, bit and polarity resolved
//! through a [`ResetMap`].
//!
//! No operation retries or recovers internally: an unresolvable identifier
//! is reported as [`ResetError::InvalidId`] before any register access, and
//! a full pulse aborts on the first failing step with no compensating
//! action.

use vstd::prelude::*;

use crate::ResetError;
use crate::map::{
    line_bit,
    line_block,
    line_is_valid,
    line_long_hold,
    line_zero_asserts,
    ResetMap,
    ResetMapEntry,
    NUM_LINES,
};
use crate::regs::RegisterBank;

verus! {

/// Hold duration unit in milliseconds: the minimum time a line must stay on
/// one side of a reset pulse before the next step.
pub const RST_HOLD_TIME: u64 = 10;

/// Register value after asserting the line at `bit`: with zero-asserts
/// polarity the bit is cleared, otherwise it is set. Every other bit is
/// unchanged.
pub open spec fn spec_assert_value(reg: u32, bit: u32, zero_asserts: bool) -> u32 {
    if zero_asserts {
        reg & !(1u32 << bit)
    } else {
        reg | (1u32 << bit)
    }
}

/// Register value after deasserting the line at `bit`: the mirror of
/// [`spec_assert_value`] under the same polarity.
pub open spec fn spec_deassert_value(reg: u32, bit: u32, zero_asserts: bool) -> u32 {
    if zero_asserts {
        reg | (1u32 << bit)
    } else {
        reg & !(1u32 << bit)
    }
}

/// Whether the line at `bit` reads as asserted in `reg`: the raw bit value
/// interpreted through the polarity — a zero bit means asserted exactly when
/// `zero_asserts` holds.
pub open spec fn spec_line_asserted(reg: u32, bit: u32, zero_asserts: bool) -> bool {
    (((reg >> bit) & 1u32) == 1u32) != zero_asserts
}

/// Bank contents after asserting line `id`: only the line's register
/// changes, and it takes the asserted value.
pub open spec fn spec_assert_bank(regs: Seq<u32>, id: int) -> Seq<u32> {
    regs.update(
        line_block(id),
        spec_assert_value(regs[line_block(id)], line_bit(id), line_zero_asserts(id)),
    )
}

/// Bank contents after deasserting line `id`: only the line's register
/// changes, and it takes the deasserted value.
pub open spec fn spec_deassert_bank(regs: Seq<u32>, id: int) -> Seq<u32> {
    regs.update(
        line_block(id),
        spec_deassert_value(regs[line_block(id)], line_bit(id), line_zero_asserts(id)),
    )
}

/// True when `id` is a raw identifier that resolves to a line.
pub open spec fn spec_id_resolves(id: u64) -> bool {
    id < NUM_LINES && line_is_valid(id as int)
}

/// Computes the asserted register value for one entry.
fn assert_value(reg: u32, entry: &ResetMapEntry) -> (r: u32)
    requires
        entry.bit_index < 32,
    ensures
        r == spec_assert_value(reg, entry.bit_index, entry.zero_asserts),
{
    if entry.zero_asserts {
        reg & !(1u32 << entry.bit_index)
    } else {
        reg | (1u32 << entry.bit_index)
    }
}

/// Computes the deasserted register value for one entry.
fn deassert_value(reg: u32, entry: &ResetMapEntry) -> (r: u32)
    requires
        entry.bit_index < 32,
    ensures
        r == spec_deassert_value(reg, entry.bit_index, entry.zero_asserts),
{
    if entry.zero_asserts {
        reg | (1u32 << entry.bit_index)
    } else {
        reg & !(1u32 << entry.bit_index)
    }
}

/// Drives line `id` into its held-in-reset state. Resolves the identifier,
/// then reads the line's register, sets or clears the line's bit according
/// to the polarity, and writes the value back. The write is the only side
/// effect; on an unresolvable identifier the bank is untouched.
pub fn assert_line(map: &ResetMap, bank: &mut RegisterBank, id: u64) -> (r: Result<(), ResetError>)
    requires
        map.wf(),
        old(bank).wf(),
    ensures
        final(bank).wf(),
        r is Ok <==> spec_id_resolves(id),
        spec_id_resolves(id) ==> final(bank)@ == spec_assert_bank(old(bank)@, id as int),
        !spec_id_resolves(id) ==> r == Err::<(), ResetError>(ResetError::InvalidId)
            && final(bank)@ == old(bank)@,
{
    match map.lookup(id) {
        Some(entry) => {
            let reg_val = bank.read(entry.block);
            let new_val = assert_value(reg_val, &entry);
            bank.write(entry.block, new_val);
            Ok(())
        },
        None => Err(ResetError::InvalidId),
    }
}

/// Releases line `id` from its held state: the mirror of [`assert_line`]
/// under the same polarity, with the same resolution and failure contract.
pub fn deassert_line(map: &ResetMap, bank: &mut RegisterBank, id: u64) -> (r: Result<(), ResetError>)
    requires
        map.wf(),
        old(bank).wf(),
    ensures
        final(bank).wf(),
        r is Ok <==> spec_id_resolves(id),
        spec_id_resolves(id) ==> final(bank)@ == spec_deassert_bank(old(bank)@, id as int),
        !spec_id_resolves(id) ==> r == Err::<(), ResetError>(ResetError::InvalidId)
            && final(bank)@ == old(bank)@,
{
    match map.lookup(id) {
        Some(entry) => {
            let reg_val = bank.read(entry.block);
            let new_val = deassert_value(reg_val, &entry);
            bank.write(entry.block, new_val);
            Ok(())
        },
        None => Err(ResetError::InvalidId),
    }
}

/// Reports whether line `id` is currently asserted: reads the line's
/// register and interprets the line's bit through the polarity. No side
/// effects.
pub fn status_line(map: &ResetMap, bank: &RegisterBank, id: u64) -> (r: Result<bool, ResetError>)
    requires
        map.wf(),
        bank.wf(),
    ensures
        r is Ok <==> spec_id_resolves(id),
        spec_id_resolves(id) ==> r == Ok::<bool, ResetError>(
            spec_line_asserted(
                bank@[line_block(id as int)],
                line_bit(id as int),
                line_zero_asserts(id as int),
            ),
        ),
        !spec_id_resolves(id) ==> r == Err::<bool, ResetError>(ResetError::InvalidId),
{
    match map.lookup(id) {
        Some(entry) => {
            let reg_val = bank.read(entry.block);
            Ok(((reg_val >> entry.bit_index) & 1u32 == 1u32) != entry.zero_asserts)
        },
        None => Err(ResetError::InvalidId),
    }
}

/// The timing record of one completed reset pulse: how many hold-duration
/// units of [`RST_HOLD_TIME`] milliseconds the caller's execution context
/// waits after the assert step and after the deassert step.
#[derive(Clone, Copy, Debug, PartialEq, Eq, Structural)]
pub struct ResetPulse {
    /// Hold units between the assert write and the deassert write.
    pub holds_after_assert: u64,
    /// Hold units after the deassert write.
    pub holds_after_deassert: u64,
}

/// Performs a full reset pulse on line `id`: assert, hold, deassert, hold.
/// The identifier is resolved once up front, so an unresolvable identifier
/// fails before any register access or delay; both register writes use the
/// same resolved polarity. A line with the long-hold class waits two hold
/// units on each side of the pulse instead of one. A failure at either the
/// assert or the deassert step would abort the sequence and propagate, with
/// no compensating action.
pub fn reset_line(map: &ResetMap, bank: &mut RegisterBank, id: u64) -> (r: Result<ResetPulse, ResetError>)
    requires
        map.wf(),
        old(bank).wf(),
    ensures
        final(bank).wf(),
        r is Ok <==> spec_id_resolves(id),
        spec_id_resolves(id) ==> {
            &&& final(bank)@ == spec_deassert_bank(
                spec_assert_bank(old(bank)@, id as int),
                id as int,
            )
            &&& r == Ok::<ResetPulse, ResetError>(
                ResetPulse {
                    holds_after_assert: if line_long_hold(id as int) {
                        2
                    } else {
                        1
                    },
                    holds_after_deassert: if line_long_hold(id as int) {
                        2
                    } else {
                        1
                    },
                },
            )
        },
        !spec_id_resolves(id) ==> r == Err::<ResetPulse, ResetError>(ResetError::InvalidId)
            && final(bank)@ == old(bank)@,
{
    let entry = match map.lookup(id) {
        Some(entry) => entry,
        None => {
            return Err(ResetError::InvalidId);
        },
    };
    let holds: u64 = if entry.long_hold {
        2
    } else {
        1
    };
    match assert_line(map, bank, id) {
        Ok(()) => (),
        Err(e) => {
            return Err(e);
        },
    }
    match deassert_line(map, bank, id) {
        Ok(()) => (),
        Err(e) => {
            return Err(e);
        },
    }
    Ok(ResetPulse { holds_after_assert: holds, holds_after_deassert: holds })
}

impl ResetPulse {
    /// Total number of hold-duration waits the pulse performed.
    pub fn total_holds(&self) -> (r: u64)
        requires
            self.holds_after_assert <= 2,
            self.holds_after_deassert <= 2,
        ensures
            r == self.holds_after_assert + self.holds_after_deassert,
    {
        self.holds_after_assert + self.holds_after_deassert
    }
}

} // verus!
