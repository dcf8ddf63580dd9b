use pvh_boot::bytes::{push_u32_le, push_u64_le};
use pvh_boot::handoff::BootError;
use pvh_boot::pvh::{HvmModListEntry, HvmStartInfo, HVM_START_INFO_SIZE, PVH_BOOT_MAGIC};

fn sample_descriptor(magic: u32) -> Vec<u8> {
    let mut d: Vec<u8> = Vec::new();
    push_u32_le(&mut d, magic);
    push_u32_le(&mut d, 1); // version
    push_u32_le(&mut d, 0x2a); // flags
    push_u32_le(&mut d, 3); // nr_modules
    push_u64_le(&mut d, 0x1000); // modlist_paddr
    push_u64_le(&mut d, 0x2000); // cmdline_paddr
    push_u64_le(&mut d, 0x3000); // rsdp_paddr
    push_u64_le(&mut d, 0x7000); // memmap_paddr
    push_u32_le(&mut d, 5); // memmap_entries
    push_u32_le(&mut d, 0); // reserved
    d
}

#[test]
fn valid_descriptor_fields_copied_byte_for_byte() {
    let d = sample_descriptor(PVH_BOOT_MAGIC);
    assert_eq!(d.len(), HVM_START_INFO_SIZE);
    let info = HvmStartInfo::new(0x6000, &d).unwrap();
    assert_eq!(info.magic, 0x336ec578);
    assert_eq!(info.version, 1);
    assert_eq!(info.flags, 0x2a);
    assert_eq!(info.nr_modules, 3);
    assert_eq!(info.modlist_paddr, 0x1000);
    assert_eq!(info.cmdline_paddr, 0x2000);
    assert_eq!(info.rsdp_paddr, 0x3000);
    assert_eq!(info.memmap_paddr, 0x7000);
    assert_eq!(info.memmap_entries, 5);
    assert_eq!(info._reserved, 0);
}

#[test]
fn any_nonzero_pointer_with_magic_validates() {
    let d = sample_descriptor(PVH_BOOT_MAGIC);
    for ptr in [1u64, 0x6000, u64::MAX] {
        assert!(HvmStartInfo::new(ptr, &d).is_ok());
    }
}

#[test]
fn null_pointer_faults() {
    let d = sample_descriptor(PVH_BOOT_MAGIC);
    assert_eq!(HvmStartInfo::new(0, &d), Err(BootError::NullBootDescriptor));
    // A null pointer is rejected before the descriptor memory is touched.
    assert_eq!(
        HvmStartInfo::new(0, &Vec::new()),
        Err(BootError::NullBootDescriptor)
    );
}

#[test]
fn magic_mismatch_faults() {
    let d = sample_descriptor(0x336ec579);
    assert_eq!(HvmStartInfo::new(0x6000, &d), Err(BootError::MagicMismatch));
    let zeroed = vec![0u8; HVM_START_INFO_SIZE];
    assert_eq!(
        HvmStartInfo::new(0x6000, &zeroed),
        Err(BootError::MagicMismatch)
    );
    // A wrong magic is rejected without any field past it being read.
    assert_eq!(
        HvmStartInfo::new(0x6000, &vec![0x78, 0xc5, 0x6e, 0x32]),
        Err(BootError::MagicMismatch)
    );
}

#[test]
fn module_list_entries_pass_through() {
    let entry = HvmModListEntry {
        paddr: 0x800000,
        size: 0x1000,
        cmdline_paddr: 0x2000,
        reserved: 0,
    };
    let copy = entry;
    assert_eq!(copy, entry);
    assert_eq!(copy.paddr, 0x800000);
}

#[test]
fn null_pointer_checked_before_magic() {
    // With both violations present, the null pointer is the reported fault.
    let d = sample_descriptor(0);
    assert_eq!(HvmStartInfo::new(0, &d), Err(BootError::NullBootDescriptor));
}
