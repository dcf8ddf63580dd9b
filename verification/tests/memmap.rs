use pvh_boot::bytes::{push_u32_le, push_u64_le};
use pvh_boot::handoff::BootError;
use pvh_boot::pvh::{HvmMemMapTable, HvmMemmapType, HVM_MEMMAP_ENTRY_SIZE};

fn push_entry(table: &mut Vec<u8>, addr: u64, size: u64, type_code: u32) {
    push_u64_le(table, addr);
    push_u64_le(table, size);
    push_u32_le(table, type_code);
    push_u32_le(table, 0); // reserved
}

#[test]
fn enumeration_yields_entries_in_table_order() {
    let specs = [
        (0u64, 0x9fc00u64, 1u32),
        (0xf0000, 0x10000, 2),
        (0x100000, 0xf00000, 1),
        (0x1000000, 0x4000, 3),
    ];
    for n in 0..=specs.len() {
        let mut table: Vec<u8> = Vec::new();
        for &(addr, size, code) in &specs[..n] {
            push_entry(&mut table, addr, size, code);
        }
        assert_eq!(table.len(), n * HVM_MEMMAP_ENTRY_SIZE);
        let t = HvmMemMapTable::new(0x7000, n as u32, &table).unwrap();
        assert_eq!(t.len(), n);
        for (entry, &(addr, size, code)) in t.entries.iter().zip(specs[..n].iter()) {
            assert_eq!(entry.addr, addr);
            assert_eq!(entry.size, size);
            assert_eq!(entry.mapping_type, HvmMemmapType::of_code(code));
            assert_eq!(entry.reserved, 0);
        }
    }
}

#[test]
fn zero_entries_is_empty_not_an_error() {
    // No table bytes are needed, whatever the table address says.
    let empty: Vec<u8> = Vec::new();
    let t = HvmMemMapTable::new(0x7000, 0, &empty).unwrap();
    assert_eq!(t.len(), 0);
    let t = HvmMemMapTable::new(0, 0, &empty).unwrap();
    assert_eq!(t.len(), 0);
}

#[test]
fn null_table_with_entries_faults_before_reading() {
    let empty: Vec<u8> = Vec::new();
    match HvmMemMapTable::new(0, 2, &empty) {
        Err(e) => assert_eq!(e, BootError::InvalidMemMapPointer),
        Ok(_) => panic!("expected a fault"),
    }
}

#[test]
fn region_type_codes_round_trip() {
    let cases = [
        (1u32, HvmMemmapType::Ram),
        (2, HvmMemmapType::Reserved),
        (3, HvmMemmapType::Acpi),
        (4, HvmMemmapType::Nvs),
        (5, HvmMemmapType::Unusable),
        (6, HvmMemmapType::Disabled),
        (7, HvmMemmapType::Pmem),
    ];
    for (code, t) in cases {
        assert_eq!(HvmMemmapType::of_code(code), t);
        assert_eq!(t.code(), code);
    }
}

#[test]
fn unknown_region_code_reads_as_reserved() {
    assert_eq!(HvmMemmapType::of_code(0), HvmMemmapType::Reserved);
    assert_eq!(HvmMemmapType::of_code(8), HvmMemmapType::Reserved);
    assert_eq!(HvmMemmapType::of_code(u32::MAX), HvmMemmapType::Reserved);
}

#[test]
fn ram_ranges_filter_usable_regions() {
    let mut table: Vec<u8> = Vec::new();
    push_entry(&mut table, 0, 0x9fc00, 1);
    push_entry(&mut table, 0xf0000, 0x10000, 2);
    push_entry(&mut table, 0x100000, 0xf00000, 1);
    let t = HvmMemMapTable::new(0x7000, 3, &table).unwrap();
    assert_eq!(t.ram_ranges(), vec![(0, 0x9fc00), (0x100000, 0x1000000)]);
    assert_eq!(t.ram_bytes(), 0x9fc00 + 0xf00000);
}

#[test]
fn overlapping_and_unordered_regions_are_tolerated() {
    let mut table: Vec<u8> = Vec::new();
    push_entry(&mut table, 0x200000, 0x100000, 1);
    push_entry(&mut table, 0x180000, 0x100000, 1);
    let t = HvmMemMapTable::new(0x7000, 2, &table).unwrap();
    assert_eq!(
        t.ram_ranges(),
        vec![(0x200000, 0x300000), (0x180000, 0x280000)]
    );
    assert_eq!(t.ram_bytes(), 0x200000);
}

#[test]
fn region_end_saturates_instead_of_wrapping() {
    let mut table: Vec<u8> = Vec::new();
    push_entry(&mut table, u64::MAX - 5, 100, 1);
    let t = HvmMemMapTable::new(0x7000, 1, &table).unwrap();
    assert_eq!(t.ram_ranges(), vec![(u64::MAX - 5, u64::MAX)]);
}

#[test]
fn ram_bytes_saturates() {
    let mut table: Vec<u8> = Vec::new();
    push_entry(&mut table, 0, u64::MAX, 1);
    push_entry(&mut table, 0, u64::MAX, 1);
    let t = HvmMemMapTable::new(0x7000, 2, &table).unwrap();
    assert_eq!(t.ram_bytes(), u64::MAX);
}
