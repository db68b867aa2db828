//! Virtual-memory management core of a small monolithic kernel.
//!
//! The crate turns physical page frames into protected virtual mappings,
//! hands out owning handles over device-register mappings, and carries the
//! decisions of system start-up.
//!
//! Everything works on one explicit context, [`memory::virt::AddressSpace`]:
//! the page table, the frame supply, the contents of physical memory and the
//! two region locks. A function that changes mappings takes the context by
//! mutable reference and says in its contract what the context is afterwards.
//!
//! - [`memory::virt`]: protection modes, region locks, mapping primitives,
//!   on-demand backing, the hardware region allocator and mapping handles.
//! - [`memory::virt::access`]: the checked views of a handle, and reading
//!   and writing through them.
//! - [`memory::phys`]: the frame supply and the bytes of physical memory.
//! - [`memory::laws`]: what holds of the memory manager in every state.
//! - [`arch::memory`]: the page size, the address-space layout, the page table.
//! - [`arch::apic`]: the interrupt controllers, as users of mapping handles.
//! - [`boot`]: the order of the steps of start-up.
//! - [`loader`]: the header of the userland loader and the layout of its image.
//! - [`endian`]: numbers as little-endian bytes.
pub mod arch;
pub mod boot;
pub mod endian;
pub mod loader;
pub mod memory;

pub use arch::memory::PAGE_SIZE;
