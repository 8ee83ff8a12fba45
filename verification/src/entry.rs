//! Bit-exact encoding of one segment descriptor entry.
//!
//! A descriptor packs a 20-bit limit, a 32-bit base address and two flag
//! bytes into the layout the processor reads. The semantic parameters live in
//! [`EntryParams`]; [`GDTEntry::encode`] produces the packed form and
//! [`GDTEntry::decode`] recovers the parameters exactly.

use vstd::prelude::*;

verus! {

use crate::SegmentationError;

/// One segment descriptor in the packed layout the processor reads.
///
/// Field order follows the hardware layout: limit low 16 bits, base low
/// 16 bits, base middle 8 bits, access flags, granularity flags holding the
/// limit's high nibble, base high 8 bits, and a trailing reserved word that
/// must stay zero.
#[derive(Clone, Copy, Debug, PartialEq, Eq, Structural)]
pub struct GDTEntry {
    pub limit_low: u16,
    pub base_low: u16,
    pub base_middle: u8,
    pub access: u8,
    pub granularity: u8,
    pub base_high: u8,
    pub reserved: u32,
}

/// Whether a descriptor describes a code or a data segment (the executable
/// bit of the access byte).
#[derive(Clone, Copy, Debug, PartialEq, Eq, Structural)]
pub enum SegmentKind {
    Code,
    Data,
}

/// The semantic parameters of one code or data descriptor.
///
/// `limit` must fit in 20 bits and `privilege` in 2 bits; `base` covers the
/// full 32-bit range. A flat full-address-space segment is expressed as
/// `limit == 0xFFFFF` with `page_granularity` set, spanning 4 GiB.
#[derive(Clone, Copy, Debug, PartialEq, Eq, Structural)]
pub struct EntryParams {
    pub base: u32,
    pub limit: u32,
    pub page_granularity: bool,
    pub operand_size_32: bool,
    pub long_mode: bool,
    pub privilege: u8,
    pub kind: SegmentKind,
    pub present: bool,
}

impl EntryParams {
    /// The parameters are representable: the limit fits in 20 bits and the
    /// privilege ring in 2 bits.
    pub open spec fn wf(self) -> bool {
        self.limit <= 0xFFFFF && self.privilege <= 3
    }
}

/// The access byte: accessed bit clear, readable/writable set,
/// direction/conforming clear, executable from the segment kind,
/// descriptor-type set (code/data, not system), then the privilege level and
/// the present bit.
pub open spec fn spec_access_byte(p: EntryParams) -> u8 {
    0x12u8
        | (if p.kind == SegmentKind::Code { 0x08u8 } else { 0u8 })
        | (p.privilege << 5)
        | (if p.present { 0x80u8 } else { 0u8 })
}

/// The granularity byte: the limit's high nibble, the
/// available-for-system-use bit held clear, then long-mode, default
/// operand-size and granularity-scale bits.
pub open spec fn spec_granularity_byte(p: EntryParams) -> u8 {
    (((p.limit >> 16) & 0xF) as u8)
        | (if p.long_mode { 0x20u8 } else { 0u8 })
        | (if p.operand_size_32 { 0x40u8 } else { 0u8 })
        | (if p.page_granularity { 0x80u8 } else { 0u8 })
}

/// The packed form of well-formed parameters.
pub open spec fn spec_encode(p: EntryParams) -> GDTEntry {
    GDTEntry {
        limit_low: (p.limit & 0xFFFF) as u16,
        base_low: (p.base & 0xFFFF) as u16,
        base_middle: ((p.base >> 16) & 0xFF) as u8,
        access: spec_access_byte(p),
        granularity: spec_granularity_byte(p),
        base_high: ((p.base >> 24) & 0xFF) as u8,
        reserved: 0,
    }
}

/// The bit positions that encoding holds fixed: the reserved word and the
/// available-for-system-use bit are zero, the descriptor-type bit marks a
/// code/data descriptor, segments are readable/writable and start
/// not-accessed and not-conforming. An entry that violates any of these is
/// not a valid encoding.
pub open spec fn spec_layout_ok(e: GDTEntry) -> bool {
    &&& e.reserved == 0
    &&& e.access & 0x01 == 0
    &&& e.access & 0x02 == 0x02
    &&& e.access & 0x04 == 0
    &&& e.access & 0x10 == 0x10
    &&& e.granularity & 0x10 == 0
}

/// The parameters a packed entry denotes, or `None` where a fixed bit
/// position is violated.
pub open spec fn spec_decode(e: GDTEntry) -> Option<EntryParams> {
    if spec_layout_ok(e) {
        Some(
            EntryParams {
                base: (e.base_low as u32) | ((e.base_middle as u32) << 16) | (
                (e.base_high as u32) << 24),
                limit: (e.limit_low as u32) | (((e.granularity & 0xF) as u32) << 16),
                page_granularity: e.granularity & 0x80 == 0x80,
                operand_size_32: e.granularity & 0x40 == 0x40,
                long_mode: e.granularity & 0x20 == 0x20,
                privilege: (e.access >> 5) & 3,
                kind: if e.access & 0x08 == 0x08 {
                    SegmentKind::Code
                } else {
                    SegmentKind::Data
                },
                present: e.access & 0x80 == 0x80,
            },
        )
    } else {
        None
    }
}

impl GDTEntry {
    /// The architectural null descriptor: every bit zero.
    pub open spec fn spec_null() -> GDTEntry {
        GDTEntry {
            limit_low: 0,
            base_low: 0,
            base_middle: 0,
            access: 0,
            granularity: 0,
            base_high: 0,
            reserved: 0,
        }
    }

    /// Build the architectural null descriptor.
    pub fn null() -> (r: GDTEntry)
        ensures
            r == GDTEntry::spec_null(),
    {
        GDTEntry {
            limit_low: 0,
            base_low: 0,
            base_middle: 0,
            access: 0,
            granularity: 0,
            base_high: 0,
            reserved: 0,
        }
    }

    /// Pack semantic parameters into the hardware layout.
    ///
    /// A limit wider than 20 bits or a privilege level wider than 2 bits is
    /// rejected with `InvalidDescriptor` rather than silently truncated.
    pub fn encode(p: EntryParams) -> (r: Result<GDTEntry, SegmentationError>)
        ensures
            p.wf() ==> r == Ok::<GDTEntry, SegmentationError>(spec_encode(p)),
            !p.wf() ==> r == Err::<GDTEntry, SegmentationError>(SegmentationError::InvalidDescriptor),
    {
        if p.limit > 0xFFFFF || p.privilege > 3 {
            return Err(SegmentationError::InvalidDescriptor);
        }
        let ex: u8 = if p.kind == SegmentKind::Code {
            0x08
        } else {
            0
        };
        let pr: u8 = if p.present {
            0x80
        } else {
            0
        };
        let lm: u8 = if p.long_mode {
            0x20
        } else {
            0
        };
        let db: u8 = if p.operand_size_32 {
            0x40
        } else {
            0
        };
        let gr: u8 = if p.page_granularity {
            0x80
        } else {
            0
        };
        Ok(
            GDTEntry {
                limit_low: (p.limit & 0xFFFF) as u16,
                base_low: (p.base & 0xFFFF) as u16,
                base_middle: ((p.base >> 16) & 0xFF) as u8,
                access: 0x12u8 | ex | (p.privilege << 5) | pr,
                granularity: (((p.limit >> 16) & 0xF) as u8) | lm | db | gr,
                base_high: ((p.base >> 24) & 0xFF) as u8,
                reserved: 0,
            },
        )
    }

    /// Unpack a descriptor back into its semantic parameters.
    ///
    /// An entry whose fixed bit positions deviate from what encoding
    /// produces (reserved bits set, system-descriptor type, and so on) is
    /// rejected with `InvalidDescriptor`.
    pub fn decode(&self) -> (r: Result<EntryParams, SegmentationError>)
        ensures
            spec_decode(*self) matches Some(p) ==> r == Ok::<EntryParams, SegmentationError>(p),
            spec_decode(*self) is None ==> r == Err::<EntryParams, SegmentationError>(
                SegmentationError::InvalidDescriptor,
            ),
    {
        if !(self.reserved == 0 && self.access & 0x01 == 0 && self.access & 0x02 == 0x02
            && self.access & 0x04 == 0 && self.access & 0x10 == 0x10 && self.granularity & 0x10
            == 0) {
            return Err(SegmentationError::InvalidDescriptor);
        }
        Ok(
            EntryParams {
                base: (self.base_low as u32) | ((self.base_middle as u32) << 16) | (
                (self.base_high as u32) << 24),
                limit: (self.limit_low as u32) | (((self.granularity & 0xF) as u32) << 16),
                page_granularity: self.granularity & 0x80 == 0x80,
                operand_size_32: self.granularity & 0x40 == 0x40,
                long_mode: self.granularity & 0x20 == 0x20,
                privilege: (self.access >> 5) & 3,
                kind: if self.access & 0x08 == 0x08 {
                    SegmentKind::Code
                } else {
                    SegmentKind::Data
                },
                present: self.access & 0x80 == 0x80,
            },
        )
    }
}

proof fn lemma_access_bits(ex: u8, dpl: u8, pr: u8)
    by (bit_vector)
    requires
        ex == 0 || ex == 0x08,
        dpl <= 3,
        pr == 0 || pr == 0x80,
    ensures
        (0x12u8 | ex | (dpl << 5) | pr) & 0x01 == 0,
        (0x12u8 | ex | (dpl << 5) | pr) & 0x02 == 0x02,
        (0x12u8 | ex | (dpl << 5) | pr) & 0x04 == 0,
        (0x12u8 | ex | (dpl << 5) | pr) & 0x10 == 0x10,
        (0x12u8 | ex | (dpl << 5) | pr) & 0x08 == ex,
        ((0x12u8 | ex | (dpl << 5) | pr) >> 5) & 3 == dpl,
        (0x12u8 | ex | (dpl << 5) | pr) & 0x80 == pr,
{
}

proof fn lemma_granularity_bits(nib: u8, lm: u8, db: u8, gr: u8)
    by (bit_vector)
    requires
        nib <= 0xF,
        lm == 0 || lm == 0x20,
        db == 0 || db == 0x40,
        gr == 0 || gr == 0x80,
    ensures
        (nib | lm | db | gr) & 0x10 == 0,
        (nib | lm | db | gr) & 0x0F == nib,
        (nib | lm | db | gr) & 0x20 == lm,
        (nib | lm | db | gr) & 0x40 == db,
        (nib | lm | db | gr) & 0x80 == gr,
{
}

proof fn lemma_base_split(b: u32)
    by (bit_vector)
    ensures
        (((b & 0xFFFF) as u16) as u32) | (((((b >> 16) & 0xFF) as u8) as u32) << 16) | (((((b
            >> 24) & 0xFF) as u8) as u32) << 24) == b,
{
}

proof fn lemma_limit_split(l: u32)
    by (bit_vector)
    requires
        l <= 0xFFFFF,
    ensures
        ((((l >> 16) & 0xF) as u8)) <= 0xF,
        (((l & 0xFFFF) as u16) as u32) | (((((l >> 16) & 0xF) as u8) as u32) << 16) == l,
{
}

/// Round-trip law: decoding the encoding of any representable parameter
/// tuple reproduces that tuple exactly.
pub proof fn lemma_encode_decode(p: EntryParams)
    requires
        p.wf(),
    ensures
        spec_decode(spec_encode(p)) == Some(p),
{
    let e = spec_encode(p);
    let ex: u8 = if p.kind == SegmentKind::Code {
        0x08
    } else {
        0
    };
    let pr: u8 = if p.present {
        0x80
    } else {
        0
    };
    let lm: u8 = if p.long_mode {
        0x20
    } else {
        0
    };
    let db: u8 = if p.operand_size_32 {
        0x40
    } else {
        0
    };
    let gr: u8 = if p.page_granularity {
        0x80
    } else {
        0
    };
    let nib: u8 = ((p.limit >> 16) & 0xF) as u8;
    lemma_limit_split(p.limit);
    lemma_access_bits(ex, p.privilege, pr);
    lemma_granularity_bits(nib, lm, db, gr);
    lemma_base_split(p.base);
    assert(spec_layout_ok(e));
}

} // verus!
