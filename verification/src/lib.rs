//! Early-boot handoff layer for a minimal guest kernel booted under the PVH
//! protocol.
//!
//! The library covers the two building blocks of the handoff:
//!
//! * the boot descriptor advertiser, which emits the loader-discoverable note
//!   record that names the binary's physical entry point (`note`), and
//! * the boot handoff controller, which validates the hypervisor-supplied
//!   descriptor, copies it into owned storage, and enumerates the physical
//!   memory map (`pvh`, `handoff`).
//!
//! Hypervisor memory is untrusted input.  The surrounding program reads the
//! raw bytes at the addresses the protocol fixes and hands them to this
//! library as plain byte vectors; every decision taken on those bytes is
//! verified here.

pub mod bytes;
pub mod handoff;
pub mod note;
pub mod pvh;
