//! Physical and virtual addresses of a bare-metal emulator, and the shift
//! that moves the emulator's own addresses into the upper half of the
//! virtual address space during early boot.
//!
//! The two kinds of address are types of their own. Nothing here takes one
//! of each, and neither converts into the other.

pub mod space;
pub mod phys_addr;
pub mod virt_addr;
pub mod relocate;
pub mod page;
pub mod digits;
pub mod byte_size;
pub mod diagnostics;

pub use byte_size::ByteSize;
pub use phys_addr::PhysAddr;
pub use relocate::Relocatable;
pub use virt_addr::VirtAddr;
