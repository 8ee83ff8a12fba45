//! The descriptor register value and the privileged operations on it.
//!
//! A [`GDTDescriptor`] is the (limit, base) pair the processor's table
//! register holds. [`Cpu`] models the per-core segmentation registers: the
//! global-table register, written by `lgdt` and read by `sgdt`, and the
//! local-table register, read-only here through `sldt`. On real hardware
//! each of these operations is a single privileged instruction; a backend
//! built around this model performs them, while every decision about which
//! value to install stays verified here.

use vstd::prelude::*;

verus! {

use crate::table::{ENTRY_BYTES, GDTTable, flat_table};

/// A descriptor register value: the byte length of a table minus one in the
/// 16-bit limit field, and the linear address of the table's first byte in
/// the 64-bit base field.
///
/// When derived from a table, `limit == table byte length - 1`. When
/// captured from the processor it reflects whatever was active, possibly a
/// table this subsystem does not own; such a value is kept only to be
/// reinstalled later.
#[derive(Clone, Copy, Debug, PartialEq, Eq, Structural)]
pub struct GDTDescriptor {
    pub limit: u16,
    pub base: u64,
}

/// The modeled segmentation state of one core: the active global-table
/// register and the local-table register.
#[derive(Clone, Copy, Debug, PartialEq, Eq, Structural)]
pub struct Cpu {
    pub gdtr: GDTDescriptor,
    pub ldtr: GDTDescriptor,
}

/// The state after installing `d` into the global-table register: the
/// local-table register is untouched.
pub open spec fn spec_install(c: Cpu, d: GDTDescriptor) -> Cpu {
    Cpu { gdtr: d, ldtr: c.ldtr }
}

impl Cpu {
    /// Install a register value as the active global table. Every later
    /// selector load resolves against the newly referenced table; the
    /// previous table stays reachable only through a captured value.
    pub fn lgdt(&mut self, desc: &GDTDescriptor)
        ensures
            *final(self) == spec_install(*old(self), *desc),
    {
        self.gdtr = *desc;
    }

    /// Capture the active global-table register for later reinstallation.
    pub fn sgdt(&self) -> (r: GDTDescriptor)
        ensures
            r == self.gdtr,
    {
        self.gdtr
    }

    /// Capture the local-table register. It follows the same (limit, base)
    /// shape but governs a different table class, and is read-only in this
    /// subsystem's scope.
    pub fn sldt(&self) -> (r: GDTDescriptor)
        ensures
            r == self.ldtr,
    {
        self.ldtr
    }
}

impl GDTDescriptor {
    /// Derive the register value that points the processor at `table`,
    /// placed at linear address `base`: the limit is the table's byte
    /// length minus one.
    pub fn new(table: &GDTTable, base: u64) -> (r: GDTDescriptor)
        ensures
            r.limit == table@.len() * ENTRY_BYTES - 1,
            r.base == base,
    {
        proof {
            use_type_invariant(table);
        }
        let bytes = table.byte_len();
        GDTDescriptor { limit: (bytes - 1) as u16, base }
    }

    /// Capture the register value the processor currently holds.
    pub fn from_cpu(cpu: &Cpu) -> (r: GDTDescriptor)
        ensures
            r == cpu.gdtr,
    {
        cpu.sgdt()
    }

    /// Install this register value as the active global table.
    pub fn load(&self, cpu: &mut Cpu)
        ensures
            *final(cpu) == spec_install(*old(cpu), *self),
    {
        cpu.lgdt(self)
    }
}

/// Capturing the active register and immediately reinstalling the captured
/// value is a no-op: the modeled segmentation state is exactly what it was.
pub proof fn lemma_capture_reinstall_noop(c: Cpu)
    ensures
        spec_install(c, c.gdtr) == c,
{
}

/// Installing any register value and then reinstalling a previously
/// captured one restores the original state exactly, whatever was installed
/// in between.
pub proof fn lemma_save_install_restore(c: Cpu, d: GDTDescriptor)
    ensures
        spec_install(spec_install(c, d), c.gdtr) == c,
{
}

/// The save/install/restore cycle: capture the active register, install the
/// flat table placed at `flat_base`, then reinstall the captured value. The
/// returned value is the register that was installed in between; the
/// segmentation state ends exactly where it began.
pub fn test_load_and_restore_gdt(cpu: &mut Cpu, flat_base: u64) -> (r: GDTDescriptor)
    ensures
        r.limit == 3 * ENTRY_BYTES - 1,
        r.base == flat_base,
        *final(cpu) == spec_install(spec_install(*old(cpu), r), old(cpu).gdtr),
        *final(cpu) == *old(cpu),
{
    let orig_gdt_desc = GDTDescriptor::from_cpu(cpu);
    let table = flat_table();
    let gdt_desc = GDTDescriptor::new(&table, flat_base);
    gdt_desc.load(cpu);
    orig_gdt_desc.load(cpu);
    gdt_desc
}

/// Run the save/install/restore cycle against the modeled registers. The
/// flat table's register value, returned, was active in between; the
/// registers end unchanged.
pub fn run(cpu: &mut Cpu, flat_base: u64) -> (r: GDTDescriptor)
    ensures
        r.limit == 3 * ENTRY_BYTES - 1,
        r.base == flat_base,
        *final(cpu) == spec_install(spec_install(*old(cpu), r), old(cpu).gdtr),
        *final(cpu) == *old(cpu),
{
    test_load_and_restore_gdt(cpu, flat_base)
}

} // verus!
