//! Safe legacy allocator statistics.
//!
//! The legacy statistics record holds ten signed 32-bit fields; the wide
//! record holds the same fields as unsigned machine words. This library
//! computes a legacy view of wide statistics that never breaks the
//! invariants a host relies on, checks snapshots for those invariants,
//! renders them as text, and parses the small command-line values of the
//! surrounding tool.
pub mod stats;
pub mod text;
pub mod monitor;
pub mod shim;
pub mod scan;
pub mod args;
pub mod ram;
