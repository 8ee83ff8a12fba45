//! The descriptor table: an ordered, fixed sequence of entries whose slot 0
//! is always the architectural null descriptor.
//!
//! A table is constructed once and never mutated afterwards. Its byte length
//! minus one must fit in the 16-bit limit field of the descriptor register,
//! which bounds a table to 65536 bytes.

use vstd::prelude::*;

verus! {

use crate::SegmentationError;
use crate::entry::{EntryParams, GDTEntry, SegmentKind, spec_encode};

/// Size in bytes of one packed table slot.
pub const ENTRY_BYTES: usize = 12;

/// The largest entry count whose total byte length still fits the hardware
/// limit field: `MAX_ENTRIES * ENTRY_BYTES - 1` must not exceed `0xFFFF`.
pub const MAX_ENTRIES: usize = 5461;

/// An ordered, fixed-size sequence of descriptors, index-addressed, with the
/// null descriptor at index 0. Constructed once by [`GDTTable::new`] and
/// immutable thereafter.
pub struct GDTTable {
    entries: Vec<GDTEntry>,
}

impl View for GDTTable {
    type V = Seq<GDTEntry>;

    closed spec fn view(&self) -> Seq<GDTEntry> {
        self.entries@
    }
}

impl GDTTable {
    /// Every table holds at least one and at most `MAX_ENTRIES` entries, and
    /// its first entry is entirely zero.
    #[verifier::type_invariant]
    pub open spec fn wf(self) -> bool {
        &&& 1 <= self@.len() <= MAX_ENTRIES
        &&& self@[0] == GDTEntry::spec_null()
    }

    /// Build a table from pre-encoded entries. The first slot is forced to
    /// the null descriptor regardless of what the caller supplied there.
    ///
    /// An empty sequence, or one whose total byte length minus one does not
    /// fit in 16 bits, is rejected with `InvalidDescriptor` and no table is
    /// produced.
    pub fn new(entries: Vec<GDTEntry>) -> (r: Result<GDTTable, SegmentationError>)
        ensures
            entries@.len() == 0 ==> r == Err::<GDTTable, SegmentationError>(
                SegmentationError::InvalidDescriptor,
            ),
            entries@.len() > MAX_ENTRIES ==> r == Err::<GDTTable, SegmentationError>(
                SegmentationError::InvalidDescriptor,
            ),
            1 <= entries@.len() <= MAX_ENTRIES ==> (r matches Ok(t) && t@.len() == entries@.len()
                && t@[0] == GDTEntry::spec_null() && (forall|i: int|
                1 <= i < entries@.len() ==> t@[i] == #[trigger] entries@[i])),
    {
        let ghost given = entries@;
        if entries.len() == 0 || entries.len() > MAX_ENTRIES {
            return Err(SegmentationError::InvalidDescriptor);
        }
        let mut entries = entries;
        entries.set(0, GDTEntry::null());
        let t = GDTTable { entries };
        proof {
            assert(t@ == given.update(0, GDTEntry::spec_null()));
        }
        Ok(t)
    }

    /// The number of entries in the table.
    pub fn len(&self) -> (n: usize)
        ensures
            n == self@.len(),
    {
        self.entries.len()
    }

    /// The total byte length of the table's packed form, the basis for the
    /// register's limit field.
    pub fn byte_len(&self) -> (n: usize)
        ensures
            n == self@.len() * ENTRY_BYTES,
    {
        proof {
            use_type_invariant(self);
        }
        self.entries.len() * ENTRY_BYTES
    }

    /// The entry at `i`, or `None` past the end of the table.
    pub fn entry(&self, i: usize) -> (r: Option<GDTEntry>)
        ensures
            i < self@.len() ==> r == Some(self@[i as int]),
            i >= self@.len() ==> r is None,
    {
        if i < self.entries.len() {
            Some(self.entries[i])
        } else {
            None
        }
    }
}

/// The parameters of the flat-model code segment: ring 0, base 0, limit
/// `0xFFFFF` with page granularity, spanning the full 4 GiB address range.
pub open spec fn spec_flat_code_params() -> EntryParams {
    EntryParams {
        base: 0,
        limit: 0xFFFFF,
        page_granularity: true,
        operand_size_32: true,
        long_mode: false,
        privilege: 0,
        kind: SegmentKind::Code,
        present: true,
    }
}

/// The parameters of the flat-model data segment: as the code segment, with
/// the executable bit clear.
pub open spec fn spec_flat_data_params() -> EntryParams {
    EntryParams {
        base: 0,
        limit: 0xFFFFF,
        page_granularity: true,
        operand_size_32: true,
        long_mode: false,
        privilege: 0,
        kind: SegmentKind::Data,
        present: true,
    }
}

/// Build the minimal flat-model table: the null descriptor, a ring-0 code
/// segment and a ring-0 data segment, each spanning the full address range.
pub fn flat_table() -> (t: GDTTable)
    ensures
        t@.len() == 3,
        t@[0] == GDTEntry::spec_null(),
        t@[1] == spec_encode(spec_flat_code_params()),
        t@[2] == spec_encode(spec_flat_data_params()),
{
    let code = match GDTEntry::encode(
        EntryParams {
            base: 0,
            limit: 0xFFFFF,
            page_granularity: true,
            operand_size_32: true,
            long_mode: false,
            privilege: 0,
            kind: SegmentKind::Code,
            present: true,
        },
    ) {
        Ok(e) => e,
        Err(_) => vstd::pervasive::unreached(),
    };
    let data = match GDTEntry::encode(
        EntryParams {
            base: 0,
            limit: 0xFFFFF,
            page_granularity: true,
            operand_size_32: true,
            long_mode: false,
            privilege: 0,
            kind: SegmentKind::Data,
            present: true,
        },
    ) {
        Ok(e) => e,
        Err(_) => vstd::pervasive::unreached(),
    };
    let mut entries: Vec<GDTEntry> = Vec::new();
    entries.push(GDTEntry::null());
    entries.push(code);
    entries.push(data);
    GDTTable { entries }
}

} // verus!
