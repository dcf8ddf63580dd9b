//! The PVH boot structures: the hypervisor-owned start-info descriptor and
//! the physical memory-map table it points at.
//!
//! Both structures live in memory the guest did not allocate and must be
//! treated as adversarial input.  The surrounding program reads the raw bytes
//! at the protocol-fixed addresses and hands them here; validation copies
//! every field by value into owned structures, so nothing is ever read twice
//! from foreign memory.
//!
//! Binary layout (little-endian, no implicit padding):
//!
//! * start info: `magic u32, version u32, flags u32, nr_modules u32,
//!   modlist_paddr u64, cmdline_paddr u64, rsdp_paddr u64, memmap_paddr u64,
//!   memmap_entries u32, reserved u32` — 56 bytes;
//! * memory-map entry: `addr u64, size u64, type u32, reserved u32` — 24
//!   bytes, one per entry, contiguous.

use vstd::prelude::*;

use crate::bytes::{read_u32_le, read_u64_le, u32_le_at, u64_le_at};
use crate::handoff::BootError;

verus! {

/// The magic value that identifies a start-info descriptor.
pub const PVH_BOOT_MAGIC: u32 = 0x336ec578;

/// Size in bytes of the start-info descriptor.
pub const HVM_START_INFO_SIZE: usize = 56;

/// Size in bytes of one memory-map table entry.
pub const HVM_MEMMAP_ENTRY_SIZE: usize = 24;

/// The closed set of region types a memory-map entry can carry.
#[derive(Clone, Copy, Debug, PartialEq, Eq, Structural)]
pub enum HvmMemmapType {
    Ram,
    Reserved,
    Acpi,
    Nvs,
    Unusable,
    Disabled,
    Pmem,
}

/// The region-type code the protocol assigns to `t`.
pub open spec fn spec_memmap_type_code(t: HvmMemmapType) -> u32 {
    match t {
        HvmMemmapType::Ram => 1,
        HvmMemmapType::Reserved => 2,
        HvmMemmapType::Acpi => 3,
        HvmMemmapType::Nvs => 4,
        HvmMemmapType::Unusable => 5,
        HvmMemmapType::Disabled => 6,
        HvmMemmapType::Pmem => 7,
    }
}

/// The region type a code denotes.  The hypervisor is the authority on the
/// table's contents, so a code outside the defined set is kept as a region
/// the guest must not use: it reads as `Reserved`, never as `Ram`.
pub open spec fn spec_memmap_type_of_code(c: u32) -> HvmMemmapType {
    if c == 1 {
        HvmMemmapType::Ram
    } else if c == 3 {
        HvmMemmapType::Acpi
    } else if c == 4 {
        HvmMemmapType::Nvs
    } else if c == 5 {
        HvmMemmapType::Unusable
    } else if c == 6 {
        HvmMemmapType::Disabled
    } else if c == 7 {
        HvmMemmapType::Pmem
    } else {
        HvmMemmapType::Reserved
    }
}

impl HvmMemmapType {
    /// The numeric code of this region type in the table's binary layout.
    pub fn code(&self) -> (c: u32)
        ensures
            c == spec_memmap_type_code(*self),
    {
        match self {
            HvmMemmapType::Ram => 1,
            HvmMemmapType::Reserved => 2,
            HvmMemmapType::Acpi => 3,
            HvmMemmapType::Nvs => 4,
            HvmMemmapType::Unusable => 5,
            HvmMemmapType::Disabled => 6,
            HvmMemmapType::Pmem => 7,
        }
    }

    /// The region type stored under code `c`.
    pub fn of_code(c: u32) -> (t: HvmMemmapType)
        ensures
            t == spec_memmap_type_of_code(c),
    {
        if c == 1 {
            HvmMemmapType::Ram
        } else if c == 3 {
            HvmMemmapType::Acpi
        } else if c == 4 {
            HvmMemmapType::Nvs
        } else if c == 5 {
            HvmMemmapType::Unusable
        } else if c == 6 {
            HvmMemmapType::Disabled
        } else if c == 7 {
            HvmMemmapType::Pmem
        } else {
            HvmMemmapType::Reserved
        }
    }
}

/// The start-info descriptor, copied by value out of hypervisor memory.
#[derive(Clone, Copy, Debug, PartialEq, Eq, Structural)]
pub struct HvmStartInfo {
    pub magic: u32,
    pub version: u32,
    pub flags: u32,
    pub nr_modules: u32,
    pub modlist_paddr: u64,
    pub cmdline_paddr: u64,
    pub rsdp_paddr: u64,
    pub memmap_paddr: u64,
    pub memmap_entries: u32,
    pub _reserved: u32,
}

/// The descriptor whose fields the first 56 bytes of `s` hold.
pub open spec fn spec_start_info(s: Seq<u8>) -> HvmStartInfo {
    HvmStartInfo {
        magic: u32_le_at(s, 0),
        version: u32_le_at(s, 4),
        flags: u32_le_at(s, 8),
        nr_modules: u32_le_at(s, 12),
        modlist_paddr: u64_le_at(s, 16),
        cmdline_paddr: u64_le_at(s, 24),
        rsdp_paddr: u64_le_at(s, 32),
        memmap_paddr: u64_le_at(s, 40),
        memmap_entries: u32_le_at(s, 48),
        _reserved: u32_le_at(s, 52),
    }
}

impl HvmStartInfo {
    /// Validates the boot descriptor the hypervisor handed over and copies
    /// it into owned storage.
    ///
    /// `start_info_ptr` is the address received in the protocol's register
    /// slot; `descriptor` holds the bytes of memory at that address.  A
    /// zero address faults before the buffer is looked at, so none of it is
    /// needed then; a wrong magic faults before any field past the magic is
    /// trusted, so only the four magic bytes are needed until the magic has
    /// matched.
    pub fn new(start_info_ptr: u64, descriptor: &Vec<u8>) -> (r: Result<HvmStartInfo, BootError>)
        requires
            start_info_ptr != 0 ==> descriptor@.len() >= 4,
            start_info_ptr != 0 && u32_le_at(descriptor@, 0) == PVH_BOOT_MAGIC
                ==> descriptor@.len() >= HVM_START_INFO_SIZE,
        ensures
            r is Ok <==> start_info_ptr != 0 && u32_le_at(descriptor@, 0) == PVH_BOOT_MAGIC,
            start_info_ptr == 0 ==> (r matches Err(e) && e == BootError::NullBootDescriptor),
            start_info_ptr != 0 && u32_le_at(descriptor@, 0) != PVH_BOOT_MAGIC ==> (r matches Err(
                e,
            ) && e == BootError::MagicMismatch),
            r matches Ok(info) ==> info == spec_start_info(descriptor@),
    {
        if start_info_ptr == 0 {
            return Err(BootError::NullBootDescriptor);
        }
        let magic = read_u32_le(descriptor, 0);
        if magic != PVH_BOOT_MAGIC {
            return Err(BootError::MagicMismatch);
        }
        Ok(
            HvmStartInfo {
                magic,
                version: read_u32_le(descriptor, 4),
                flags: read_u32_le(descriptor, 8),
                nr_modules: read_u32_le(descriptor, 12),
                modlist_paddr: read_u64_le(descriptor, 16),
                cmdline_paddr: read_u64_le(descriptor, 24),
                rsdp_paddr: read_u64_le(descriptor, 32),
                memmap_paddr: read_u64_le(descriptor, 40),
                memmap_entries: read_u32_le(descriptor, 48),
                _reserved: read_u32_le(descriptor, 52),
            },
        )
    }
}

/// One entry of the module list the descriptor points at.  The module list
/// is pass-through for this layer: the type is given so kernel-proper can
/// take it over, but no code here walks it.
#[derive(Clone, Copy, Debug, PartialEq, Eq, Structural)]
pub struct HvmModListEntry {
    pub paddr: u64,
    pub size: u64,
    pub cmdline_paddr: u64,
    pub reserved: u64,
}

/// One entry of the memory-map table, copied by value out of hypervisor
/// memory.
#[derive(Clone, Copy, Debug, PartialEq, Eq, Structural)]
pub struct HvmMemMapTableEntry {
    pub addr: u64,
    pub size: u64,
    pub mapping_type: HvmMemmapType,
    pub reserved: u32,
}

/// The entry whose fields the 24 bytes of `s` at offset `off` hold.
pub open spec fn spec_memmap_entry(s: Seq<u8>, off: int) -> HvmMemMapTableEntry {
    HvmMemMapTableEntry {
        addr: u64_le_at(s, off),
        size: u64_le_at(s, off + 8),
        mapping_type: spec_memmap_type_of_code(u32_le_at(s, off + 16)),
        reserved: u32_le_at(s, off + 20),
    }
}

/// The first `n` entries of the table held in `s`, in table order.
pub open spec fn spec_memmap_entries(s: Seq<u8>, n: int) -> Seq<HvmMemMapTableEntry> {
    Seq::new(n as nat, |i: int| spec_memmap_entry(s, i * (HVM_MEMMAP_ENTRY_SIZE as int)))
}

/// The end bound of the region `e` describes, saturated at the top of the
/// address space: a wrapped `addr + size` from an adversarial table must not
/// come out as a small, seemingly usable bound.
pub open spec fn spec_region_end(e: HvmMemMapTableEntry) -> u64 {
    if e.addr + e.size > u64::MAX {
        u64::MAX
    } else {
        (e.addr + e.size) as u64
    }
}

/// The `(start, end)` bounds of the usable-RAM regions among `s`, in table
/// order, each end saturated as in [`spec_region_end`].
pub open spec fn spec_ram_ranges(s: Seq<HvmMemMapTableEntry>) -> Seq<(u64, u64)>
    decreases s.len(),
{
    if s.len() == 0 {
        Seq::empty()
    } else if s.last().mapping_type is Ram {
        spec_ram_ranges(s.drop_last()).push((s.last().addr, spec_region_end(s.last())))
    } else {
        spec_ram_ranges(s.drop_last())
    }
}

/// The total byte count of the usable-RAM regions among `s`.
pub open spec fn spec_ram_bytes(s: Seq<HvmMemMapTableEntry>) -> int
    decreases s.len(),
{
    if s.len() == 0 {
        0
    } else if s.last().mapping_type is Ram {
        spec_ram_bytes(s.drop_last()) + s.last().size
    } else {
        spec_ram_bytes(s.drop_last())
    }
}

/// The memory-map table, copied entry by entry into owned storage.
pub struct HvmMemMapTable {
    pub entries: Vec<HvmMemMapTableEntry>,
}

impl HvmMemMapTable {
    /// Enumerates the memory-map table the descriptor points at.
    ///
    /// `memmap_paddr` and `memmap_entries` come from the validated
    /// descriptor; `table` holds the bytes of memory at `memmap_paddr`.  An
    /// entry count of zero yields an empty table without the address being
    /// dereferenced, which is why `table` may then be empty; a non-zero
    /// count with a null address faults before any entry is read.
    pub fn new(memmap_paddr: u64, memmap_entries: u32, table: &Vec<u8>) -> (r: Result<
        HvmMemMapTable,
        BootError,
    >)
        requires
            memmap_entries > 0 && memmap_paddr != 0 ==> table@.len() >= memmap_entries * (
            HVM_MEMMAP_ENTRY_SIZE as int),
        ensures
            r is Ok <==> !(memmap_entries > 0 && memmap_paddr == 0),
            r matches Err(e) ==> e == BootError::InvalidMemMapPointer,
            r matches Ok(t) ==> t.entries@ == spec_memmap_entries(
                table@,
                memmap_entries as int,
            ),
    {
        if memmap_entries > 0 && memmap_paddr == 0 {
            return Err(BootError::InvalidMemMapPointer);
        }
        let n = memmap_entries as usize;
        let len: usize = table.len();
        let mut entries: Vec<HvmMemMapTableEntry> = Vec::new();
        let mut i: usize = 0;
        while i < n
            invariant
                i <= n,
                n == memmap_entries,
                len == table@.len(),
                n > 0 ==> len >= n * (HVM_MEMMAP_ENTRY_SIZE as int),
                entries@ == spec_memmap_entries(table@, i as int),
            decreases n - i,
        {
            let off: usize = i * HVM_MEMMAP_ENTRY_SIZE;
            let entry = HvmMemMapTableEntry {
                addr: read_u64_le(table, off),
                size: read_u64_le(table, off + 8),
                mapping_type: HvmMemmapType::of_code(read_u32_le(table, off + 16)),
                reserved: read_u32_le(table, off + 20),
            };
            entries.push(entry);
            proof {
                assert(entries@ =~= spec_memmap_entries(table@, i + 1));
            }
            i = i + 1;
        }
        proof {
            assert(entries@ =~= spec_memmap_entries(table@, memmap_entries as int));
        }
        Ok(HvmMemMapTable { entries })
    }

    /// The number of entries in the table.
    pub fn len(&self) -> (n: usize)
        ensures
            n == self.entries@.len(),
    {
        self.entries.len()
    }

    /// The `(start, end)` bounds of the usable-RAM regions, in table order.
    /// Region ends are computed with saturating addition: the table is not
    /// trusted to keep `addr + size` inside the address space.
    pub fn ram_ranges(&self) -> (r: Vec<(u64, u64)>)
        ensures
            r@ == spec_ram_ranges(self.entries@),
    {
        let mut out: Vec<(u64, u64)> = Vec::new();
        let n = self.entries.len();
        let mut i: usize = 0;
        while i < n
            invariant
                i <= n,
                n == self.entries@.len(),
                out@ == spec_ram_ranges(self.entries@.subrange(0, i as int)),
            decreases n - i,
        {
            let e = self.entries[i];
            match e.mapping_type {
                HvmMemmapType::Ram => {
                    let end: u64 = if e.size > u64::MAX - e.addr {
                        u64::MAX
                    } else {
                        e.addr + e.size
                    };
                    out.push((e.addr, end));
                },
                _ => {},
            }
            proof {
                assert(self.entries@.subrange(0, i + 1).drop_last() =~= self.entries@.subrange(
                    0,
                    i as int,
                ));
                assert(self.entries@.subrange(0, i + 1).last() == self.entries@[i as int]);
                assert(out@ =~= spec_ram_ranges(self.entries@.subrange(0, i + 1)));
            }
            i = i + 1;
        }
        proof {
            assert(self.entries@.subrange(0, self.entries@.len() as int) =~= self.entries@);
        }
        out
    }

    /// The total byte count of the usable-RAM regions, saturated at
    /// `u64::MAX`.
    pub fn ram_bytes(&self) -> (r: u64)
        ensures
            r == if spec_ram_bytes(self.entries@) > u64::MAX {
                u64::MAX as int
            } else {
                spec_ram_bytes(self.entries@)
            },
    {
        let mut acc: u64 = 0;
        let n = self.entries.len();
        let mut i: usize = 0;
        while i < n
            invariant
                i <= n,
                n == self.entries@.len(),
                acc == if spec_ram_bytes(self.entries@.subrange(0, i as int)) > u64::MAX {
                    u64::MAX as int
                } else {
                    spec_ram_bytes(self.entries@.subrange(0, i as int))
                },
            decreases n - i,
        {
            let e = self.entries[i];
            match e.mapping_type {
                HvmMemmapType::Ram => {
                    acc = if e.size > u64::MAX - acc {
                        u64::MAX
                    } else {
                        acc + e.size
                    };
                },
                _ => {},
            }
            proof {
                assert(self.entries@.subrange(0, i + 1).drop_last() =~= self.entries@.subrange(
                    0,
                    i as int,
                ));
                assert(self.entries@.subrange(0, i + 1).last() == self.entries@[i as int]);
            }
            i = i + 1;
        }
        proof {
            assert(self.entries@.subrange(0, self.entries@.len() as int) =~= self.entries@);
        }
        acc
    }
}

} // verus!
