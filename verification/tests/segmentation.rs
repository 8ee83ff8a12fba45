use segmentation::SegmentationError;
use segmentation::entry::{EntryParams, GDTEntry, SegmentKind};
use segmentation::register::{Cpu, GDTDescriptor};
use segmentation::table::{flat_table, GDTTable, ENTRY_BYTES, MAX_ENTRIES};

fn flat_code_params() -> EntryParams {
    EntryParams {
        base: 0,
        limit: 0xFFFFF,
        page_granularity: true,
        operand_size_32: true,
        long_mode: false,
        privilege: 0,
        kind: SegmentKind::Code,
        present: true,
    }
}

fn flat_data_params() -> EntryParams {
    EntryParams {
        kind: SegmentKind::Data,
        ..flat_code_params()
    }
}

#[test]
fn round_trip_code_entry() {
    let p = flat_code_params();
    let e = GDTEntry::encode(p).unwrap();
    assert_eq!(e.decode().unwrap(), p);
}

#[test]
fn round_trip_variants() {
    let p = EntryParams {
        base: 0xDEAD_BEEF,
        limit: 0x1_2345,
        page_granularity: false,
        operand_size_32: false,
        long_mode: true,
        privilege: 3,
        kind: SegmentKind::Data,
        present: false,
    };
    let e = GDTEntry::encode(p).unwrap();
    assert_eq!(e.decode().unwrap(), p);
}

#[test]
fn encode_rejects_wide_limit() {
    let p = EntryParams {
        limit: 0x10_0000,
        ..flat_code_params()
    };
    assert_eq!(GDTEntry::encode(p), Err(SegmentationError::InvalidDescriptor));
}

#[test]
fn encode_rejects_wide_privilege() {
    let p = EntryParams {
        privilege: 4,
        ..flat_code_params()
    };
    assert_eq!(GDTEntry::encode(p), Err(SegmentationError::InvalidDescriptor));
}

#[test]
fn encode_flat_code_exact_bytes() {
    let e = GDTEntry::encode(flat_code_params()).unwrap();
    assert_eq!(e.limit_low, 0xFFFF);
    assert_eq!(e.base_low, 0);
    assert_eq!(e.base_middle, 0);
    assert_eq!(e.access, 0x9A);
    assert_eq!(e.granularity, 0xCF);
    assert_eq!(e.base_high, 0);
    assert_eq!(e.reserved, 0);
}

#[test]
fn encode_flat_data_exact_bytes() {
    let e = GDTEntry::encode(flat_data_params()).unwrap();
    assert_eq!(e.access, 0x92);
    assert_eq!(e.granularity, 0xCF);
}

#[test]
fn encode_splits_base_across_fields() {
    let p = EntryParams {
        base: 0x1234_5678,
        ..flat_code_params()
    };
    let e = GDTEntry::encode(p).unwrap();
    assert_eq!(e.base_low, 0x5678);
    assert_eq!(e.base_middle, 0x34);
    assert_eq!(e.base_high, 0x12);
}

#[test]
fn decode_rejects_reserved_word() {
    let mut e = GDTEntry::encode(flat_code_params()).unwrap();
    e.reserved = 1;
    assert_eq!(e.decode(), Err(SegmentationError::InvalidDescriptor));
}

#[test]
fn decode_rejects_system_descriptor_type() {
    let mut e = GDTEntry::encode(flat_code_params()).unwrap();
    e.access &= !0x10;
    assert_eq!(e.decode(), Err(SegmentationError::InvalidDescriptor));
}

#[test]
fn decode_rejects_null_entry() {
    assert_eq!(
        GDTEntry::null().decode(),
        Err(SegmentationError::InvalidDescriptor)
    );
}

#[test]
fn table_forces_null_first_entry() {
    let code = GDTEntry::encode(flat_code_params()).unwrap();
    let t = GDTTable::new(vec![code, code]).unwrap();
    assert_eq!(t.entry(0).unwrap(), GDTEntry::null());
    assert_eq!(t.entry(1).unwrap(), code);
    assert_eq!(t.len(), 2);
}

#[test]
fn table_rejects_empty() {
    assert!(matches!(
        GDTTable::new(Vec::new()),
        Err(SegmentationError::InvalidDescriptor)
    ));
}

#[test]
fn table_rejects_oversized() {
    let entries = vec![GDTEntry::null(); MAX_ENTRIES + 1];
    assert!(matches!(
        GDTTable::new(entries),
        Err(SegmentationError::InvalidDescriptor)
    ));
}

#[test]
fn largest_table_register_limit() {
    let entries = vec![GDTEntry::null(); MAX_ENTRIES];
    let t = GDTTable::new(entries).unwrap();
    assert_eq!(t.byte_len(), MAX_ENTRIES * ENTRY_BYTES);
    let d = GDTDescriptor::new(&t, 0x9000);
    assert_eq!(d.limit as usize, MAX_ENTRIES * ENTRY_BYTES - 1);
}

#[test]
fn register_limit_is_byte_len_minus_one() {
    let t = flat_table();
    assert_eq!(t.len(), 3);
    assert_eq!(t.byte_len(), 3 * ENTRY_BYTES);
    let d = GDTDescriptor::new(&t, 0x1000);
    assert_eq!(d.limit, (3 * ENTRY_BYTES - 1) as u16);
    assert_eq!(d.base, 0x1000);
}

#[test]
fn capture_reinstall_is_noop() {
    let mut cpu = Cpu {
        gdtr: GDTDescriptor {
            limit: 0x27,
            base: 0x5000,
        },
        ldtr: GDTDescriptor {
            limit: 0x17,
            base: 0x7000,
        },
    };
    let before = cpu;
    let captured = GDTDescriptor::from_cpu(&cpu);
    captured.load(&mut cpu);
    assert_eq!(cpu, before);
}

#[test]
fn three_entry_scenario() {
    let t = flat_table();
    assert_eq!(t.entry(0).unwrap(), GDTEntry::null());
    let code = t.entry(1).unwrap().decode().unwrap();
    assert_eq!(code, flat_code_params());
    let data = t.entry(2).unwrap().decode().unwrap();
    assert_eq!(data, flat_data_params());

    let mut cpu = Cpu {
        gdtr: GDTDescriptor {
            limit: 0x27,
            base: 0x5000,
        },
        ldtr: GDTDescriptor { limit: 0, base: 0 },
    };
    let d = GDTDescriptor::new(&t, 0x1000);
    d.load(&mut cpu);
    let captured = cpu.sgdt();
    assert_eq!(captured.limit, (t.byte_len() - 1) as u16);
    assert_eq!(captured.base, 0x1000);
    assert_eq!(captured, d);
}

#[test]
fn save_install_restore() {
    let mut cpu = Cpu {
        gdtr: GDTDescriptor {
            limit: 0x27,
            base: 0x5000,
        },
        ldtr: GDTDescriptor { limit: 0, base: 0 },
    };
    let r0 = GDTDescriptor::from_cpu(&cpu);
    let t = flat_table();
    let r1 = GDTDescriptor::new(&t, 0x1000);
    assert_ne!(r1.base, r0.base);
    r1.load(&mut cpu);
    assert_eq!(cpu.gdtr, r1);
    r0.load(&mut cpu);
    let recaptured = GDTDescriptor::from_cpu(&cpu);
    assert_eq!(recaptured, r0);
}

#[test]
fn run_restores_registers() {
    let mut cpu = Cpu {
        gdtr: GDTDescriptor {
            limit: 0xFFFF,
            base: 0xFFFF_F000,
        },
        ldtr: GDTDescriptor {
            limit: 0x7,
            base: 0x42,
        },
    };
    let before = cpu;
    let installed = segmentation::register::run(&mut cpu, 0x2000);
    assert_eq!(cpu, before);
    assert_eq!(installed.base, 0x2000);
    assert_eq!(installed.limit, (3 * ENTRY_BYTES - 1) as u16);
}

#[test]
fn sldt_reads_local_table_register() {
    let cpu = Cpu {
        gdtr: GDTDescriptor { limit: 0, base: 0 },
        ldtr: GDTDescriptor {
            limit: 0x2F,
            base: 0x8000,
        },
    };
    let ldtr = cpu.sldt();
    assert_eq!(ldtr.limit, 0x2F);
    assert_eq!(ldtr.base, 0x8000);
}
