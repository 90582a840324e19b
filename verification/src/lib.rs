//! Driver core for an ARM-style Security Attribution Unit (SAU).
//!
//! The SAU partitions the address space into Secure, Non-Secure and
//! Non-Secure-Callable regions. This crate separates a validated, in-memory
//! status of the desired region configuration from the commit that packs it
//! into the unit's registers, so a caller can build a complete configuration
//! and then apply it as a whole.

pub mod interface;
pub mod region;
pub mod sau;
