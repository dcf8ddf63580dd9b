//! The boot handoff controller: the one-shot run from "untrusted raw
//! pointer" to "ready to enter kernel-proper", or to a terminal fault.
//!
//! The controller itself is pure: it takes the address received at entry
//! and the raw bytes read at the protocol-fixed locations, and decides.
//! The surrounding program performs the two reads, runs the controller, and
//! on success jumps to kernel-proper, which never returns; on a fault it
//! halts, since at this stage there is nobody to report to.

use vstd::prelude::*;

use crate::bytes::u32_le_at;
use crate::pvh::{
    spec_memmap_entries, spec_start_info, HvmMemMapTable, HvmStartInfo, HVM_MEMMAP_ENTRY_SIZE,
    HVM_START_INFO_SIZE, PVH_BOOT_MAGIC,
};

verus! {

/// The fatal conditions of the boot sequence.  None has a recovery path:
/// each sends the controller to its terminal fault state.
#[derive(Clone, Copy, Debug, PartialEq, Eq, Structural)]
pub enum BootError {
    /// The hypervisor did not supply a boot descriptor.
    NullBootDescriptor,
    /// The memory at the supplied address is not a valid descriptor.
    MagicMismatch,
    /// The descriptor announces memory-map entries at a null address.
    InvalidMemMapPointer,
}

/// The states of the handoff controller.  A run traverses them in order and
/// ends in `HandedOff`, or drops to `Faulted` at the first contract
/// violation; both are terminal.
#[derive(Clone, Copy, Debug, PartialEq, Eq, Structural)]
pub enum BootStage {
    Entered,
    PointerChecked,
    DescriptorValidated,
    MemoryMapEnumerated,
    HandedOff,
    Faulted,
}

/// The terminal stage a run reaches on the given inputs.
pub open spec fn spec_boot_stage(start_info_ptr: u64, descriptor: Seq<u8>) -> BootStage {
    if spec_stage_reached(start_info_ptr, descriptor) is MemoryMapEnumerated {
        BootStage::HandedOff
    } else {
        BootStage::Faulted
    }
}

/// The last stage a run passes on the given inputs: a faulting run stops at
/// the stage whose outgoing transition its inputs violate, a clean run
/// passes `MemoryMapEnumerated` and ends in `HandedOff`.
pub open spec fn spec_stage_reached(start_info_ptr: u64, descriptor: Seq<u8>) -> BootStage {
    if start_info_ptr == 0 {
        BootStage::Entered
    } else if u32_le_at(descriptor, 0) != PVH_BOOT_MAGIC {
        BootStage::PointerChecked
    } else if spec_start_info(descriptor).memmap_entries > 0 && spec_start_info(
        descriptor,
    ).memmap_paddr == 0 {
        BootStage::DescriptorValidated
    } else {
        BootStage::MemoryMapEnumerated
    }
}

/// Everything a successful run hands to kernel-proper: the validated
/// descriptor and the enumerated memory map, both in owned storage.
pub struct BootPlan {
    pub start_info: HvmStartInfo,
    pub memmap: HvmMemMapTable,
}

/// Runs the handoff controller.
///
/// `start_info_ptr` is the address received in the protocol's register
/// slot; `descriptor` holds the 56 bytes of memory at that address, and
/// `memmap_table` the bytes at the descriptor's memory-map address.  Each
/// window is only needed once the run gets far enough to read it: none for
/// a null pointer, the magic bytes for the magic check, and the table only
/// for a valid descriptor that announces entries at a non-null address.
///
/// Returns the boot plan exactly when the run reaches `HandedOff`;
/// otherwise the fault reason, the first one in checking order.
pub fn boot_handoff(start_info_ptr: u64, descriptor: &Vec<u8>, memmap_table: &Vec<u8>) -> (r:
    Result<BootPlan, BootError>)
    requires
        start_info_ptr != 0 ==> descriptor@.len() >= 4,
        start_info_ptr != 0 && u32_le_at(descriptor@, 0) == PVH_BOOT_MAGIC ==> descriptor@.len()
            >= HVM_START_INFO_SIZE,
        start_info_ptr != 0 && u32_le_at(descriptor@, 0) == PVH_BOOT_MAGIC && spec_start_info(
            descriptor@,
        ).memmap_paddr != 0 ==> memmap_table@.len() >= spec_start_info(
            descriptor@,
        ).memmap_entries * (HVM_MEMMAP_ENTRY_SIZE as int),
    ensures
        r is Ok <==> spec_boot_stage(start_info_ptr, descriptor@) is HandedOff,
        start_info_ptr == 0 ==> (r matches Err(e) && e == BootError::NullBootDescriptor),
        start_info_ptr != 0 && u32_le_at(descriptor@, 0) != PVH_BOOT_MAGIC ==> (r matches Err(e)
            && e == BootError::MagicMismatch),
        start_info_ptr != 0 && u32_le_at(descriptor@, 0) == PVH_BOOT_MAGIC && spec_start_info(
            descriptor@,
        ).memmap_entries > 0 && spec_start_info(descriptor@).memmap_paddr == 0 ==> (r matches Err(
            e,
        ) && e == BootError::InvalidMemMapPointer),
        r matches Ok(plan) ==> plan.start_info == spec_start_info(descriptor@)
            && plan.memmap.entries@ == spec_memmap_entries(
            memmap_table@,
            spec_start_info(descriptor@).memmap_entries as int,
        ),
        ({
            let reached = spec_stage_reached(start_info_ptr, descriptor@);
            &&& ((r matches Err(e) && e == BootError::NullBootDescriptor) <==> reached
                is Entered)
            &&& ((r matches Err(e) && e == BootError::MagicMismatch) <==> reached
                is PointerChecked)
            &&& ((r matches Err(e) && e == BootError::InvalidMemMapPointer) <==> reached
                is DescriptorValidated)
        }),
{
    let start_info = match HvmStartInfo::new(start_info_ptr, descriptor) {
        Ok(info) => info,
        Err(e) => { return Err(e) },
    };
    let memmap = match HvmMemMapTable::new(
        start_info.memmap_paddr,
        start_info.memmap_entries,
        memmap_table,
    ) {
        Ok(t) => t,
        Err(e) => { return Err(e) },
    };
    Ok(BootPlan { start_info, memmap })
}

} // verus!
