//! The reset map: an immutable, identifier-indexed table that resolves each
//! reset line to its control register, bit position, assertion polarity and
//! hold-time class.
//!
//! The register-level layout is fixed: five separately mapped 32-bit
//! registers control all lines.
//!
//! | block | register                     | lines   | bits  | polarity        | hold  |
//! |-------|------------------------------|---------|-------|-----------------|-------|
//! | 0     | top CRM software reset 0     | 0..=12  | 0..=12| zero asserts    | short |
//! | 1     | top CRM software reset 1     | 16..=29 | 0..=13| zero asserts    | short |
//! | 2     | safety subsystem reset       | 32..=39 | 0..=7 | zero asserts    | long  |
//! | 3     | low-speed peripheral bank 0  | 40..=44 | 0..=4 | one asserts     | short |
//! | 4     | low-speed peripheral bank 1  | 45..=49 | 0..=4 | one asserts     | long  |
//!
//! Identifiers 13..=15 and 30..=31 are reserved gaps; the table holds an
//! explicit absence for them. Identifiers at or beyond [`NUM_LINES`] are
//! invalid.

use vstd::prelude::*;

use crate::ResetError;

verus! {

/// Number of separately mapped reset-control registers.
pub const NUM_BLOCKS: usize = 5;

/// Size of the identifier space: every reset-line identifier is below this.
pub const NUM_LINES: usize = 50;

/// True when `id` names a controllable reset line (in range and not in a
/// reserved gap of the register layout).
pub open spec fn line_is_valid(id: int) -> bool {
    ||| 0 <= id <= 12
    ||| 16 <= id <= 29
    ||| 32 <= id <= 39
    ||| 40 <= id <= 49
}

/// Register block that controls line `id` (meaningful for valid lines).
pub open spec fn line_block(id: int) -> int {
    if 0 <= id <= 12 {
        0
    } else if 16 <= id <= 29 {
        1
    } else if 32 <= id <= 39 {
        2
    } else if 40 <= id <= 44 {
        3
    } else {
        4
    }
}

/// First line identifier carried by register block `block`.
pub open spec fn block_first_line(block: int) -> int {
    if block == 0 {
        0
    } else if block == 1 {
        16
    } else if block == 2 {
        32
    } else if block == 3 {
        40
    } else {
        45
    }
}

/// Bit position of line `id` within its register: lines sit at consecutive
/// bits starting from bit 0 of their block's register.
pub open spec fn line_bit(id: int) -> u32 {
    (id - block_first_line(line_block(id))) as u32
}

/// Assertion polarity of line `id`: true means writing 0 to the bit asserts
/// reset (and 1 releases it); false means the reverse.
pub open spec fn line_zero_asserts(id: int) -> bool {
    line_block(id) <= 2
}

/// Hold-time class of line `id`: true means the line needs a doubled hold
/// duration on each side of a full reset pulse.
pub open spec fn line_long_hold(id: int) -> bool {
    line_block(id) == 2 || line_block(id) == 4
}

/// One resolved reset line: which register controls it, at which bit, with
/// which polarity and hold-time class. Computed once at map construction and
/// immutable afterwards.
#[derive(Clone, Copy, Debug, PartialEq, Eq, Structural)]
pub struct ResetMapEntry {
    /// Address of the control register, one of the mapped base addresses.
    pub address: usize,
    /// Index of the register block the address belongs to.
    pub block: usize,
    /// Position of the line's control bit within the 32-bit register.
    pub bit_index: u32,
    /// True when writing 0 to the bit asserts reset.
    pub zero_asserts: bool,
    /// True when the line needs an extended hold during a reset pulse.
    pub long_hold: bool,
}

/// The entry the map holds for valid line `id`, given the block base
/// addresses `bases`.
pub open spec fn spec_entry(bases: Seq<usize>, id: int) -> ResetMapEntry {
    ResetMapEntry {
        address: bases[line_block(id)],
        block: line_block(id) as usize,
        bit_index: line_bit(id),
        zero_asserts: line_zero_asserts(id),
        long_hold: line_long_hold(id),
    }
}

/// The immutable identifier-indexed reset table, built once per device from
/// the mapped register base addresses and shared read-only by every
/// operation afterwards.
pub struct ResetMap {
    bases: Vec<usize>,
    entries: Vec<Option<ResetMapEntry>>,
}

impl ResetMap {
    /// The base addresses the map was built from.
    pub closed spec fn spec_bases(&self) -> Seq<usize> {
        self.bases@
    }

    /// The table itself: one optional entry per identifier below
    /// [`NUM_LINES`].
    pub closed spec fn spec_entries(&self) -> Seq<Option<ResetMapEntry>> {
        self.entries@
    }

    /// Well-formedness: the table is total over the identifier space, every
    /// valid line resolves exactly as the fixed layout dictates, every gap is
    /// an explicit absence, and every base address is non-null.
    pub open spec fn wf(&self) -> bool {
        &&& self.spec_bases().len() == NUM_BLOCKS
        &&& self.spec_entries().len() == NUM_LINES
        &&& forall|b: int| 0 <= b < NUM_BLOCKS ==> self.spec_bases()[b] != 0
        &&& forall|id: int|
            0 <= id < NUM_LINES ==> self.spec_entries()[id] == (if line_is_valid(id) {
                Some(spec_entry(self.spec_bases(), id))
            } else {
                None::<ResetMapEntry>
            })
    }

    /// Builds the table from the five register base addresses, in block
    /// order. Fails with [`ResetError::MappingFailure`] exactly when some
    /// base address is null, the sign that the platform layer failed to map
    /// that register region. Construction is pure: it performs no register
    /// access.
    pub fn new(bases: [usize; 5]) -> (r: Result<ResetMap, ResetError>)
        ensures
            r is Ok <==> (forall|b: int| 0 <= b < NUM_BLOCKS ==> bases@[b] != 0),
            r matches Ok(m) ==> m.wf() && m.spec_bases() == bases@,
            r is Err ==> r == Err::<ResetMap, ResetError>(ResetError::MappingFailure),
    {
        let mut base_vec: Vec<usize> = Vec::new();
        for b in 0..5
            invariant
                base_vec@.len() == b,
                forall|i: int| 0 <= i < b ==> base_vec@[i] == bases@[i] && base_vec@[i] != 0,
        {
            if bases[b] == 0 {
                return Err(ResetError::MappingFailure);
            }
            base_vec.push(bases[b]);
        }
        let mut entries: Vec<Option<ResetMapEntry>> = Vec::new();
        for id in 0..NUM_LINES
            invariant
                base_vec@.len() == NUM_BLOCKS,
                base_vec@ == bases@,
                entries@.len() == id,
                forall|i: int|
                    0 <= i < id ==> entries@[i] == (if line_is_valid(i) {
                        Some(spec_entry(base_vec@, i))
                    } else {
                        None::<ResetMapEntry>
                    }),
        {
            entries.push(Self::build_entry(&base_vec, id));
        }
        Ok(ResetMap { bases: base_vec, entries })
    }

    /// Computes the table slot for one identifier from the fixed layout.
    fn build_entry(bases: &Vec<usize>, id: usize) -> (r: Option<ResetMapEntry>)
        requires
            bases@.len() == NUM_BLOCKS,
            id < NUM_LINES,
        ensures
            r == (if line_is_valid(id as int) {
                Some(spec_entry(bases@, id as int))
            } else {
                None::<ResetMapEntry>
            }),
    {
        let (block, first): (usize, usize) = if id <= 12 {
            (0, 0)
        } else if 16 <= id && id <= 29 {
            (1, 16)
        } else if 32 <= id && id <= 39 {
            (2, 32)
        } else if 40 <= id && id <= 44 {
            (3, 40)
        } else if 45 <= id && id <= 49 {
            (4, 45)
        } else {
            return None;
        };
        Some(
            ResetMapEntry {
                address: bases[block],
                block,
                bit_index: (id - first) as u32,
                zero_asserts: block <= 2,
                long_hold: block == 2 || block == 4,
            },
        )
    }

    /// Resolves a caller-supplied raw identifier. Returns the line's entry
    /// when `id` names a controllable line, and `None` for every other
    /// value — out-of-range identifiers and reserved gaps alike. Never
    /// panics: the identifier arrives from an external numeric parameter
    /// with no guarantee of validity.
    pub fn lookup(&self, id: u64) -> (r: Option<ResetMapEntry>)
        requires
            self.wf(),
        ensures
            r is Some <==> id < NUM_LINES && line_is_valid(id as int),
            r matches Some(e) ==> {
                &&& e == spec_entry(self.spec_bases(), id as int)
                &&& e.block == line_block(id as int)
                &&& e.block < NUM_BLOCKS
                &&& e.bit_index == line_bit(id as int)
                &&& e.bit_index < 32
                &&& e.address == self.spec_bases()[e.block as int]
                &&& e.address != 0
                &&& e.zero_asserts == line_zero_asserts(id as int)
                &&& e.long_hold == line_long_hold(id as int)
            },
    {
        if id < NUM_LINES as u64 {
            self.entries[id as usize]
        } else {
            None
        }
    }

    /// Base address of one register block, as captured at construction.
    pub fn base_address(&self, block: usize) -> (r: usize)
        requires
            self.wf(),
            block < NUM_BLOCKS,
        ensures
            r == self.spec_bases()[block as int],
    {
        self.bases[block]
    }
}

} // verus!
