//! Memory management: physical frames and virtual mappings.
pub mod laws;
pub mod phys;
pub mod virt;
