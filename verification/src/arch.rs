//! Architecture layer: the address-space layout, the page-table model and the
//! interrupt controllers.
pub mod apic;
pub mod memory;
