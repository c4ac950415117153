//! In-process mirror of the kernel's network interface table.
//!
//! The crate keeps one arena of interfaces, addressed by an opaque handle,
//! together with two indices (by name and by kernel index) that always agree
//! with the arena. On top of the store stands the reconciliation pass that
//! makes the store reflect a freshly fetched kernel table, and the protocol
//! that a kernel-side creation request follows.

pub mod arena;
pub mod common;
pub mod control;
pub mod decode;
pub mod key;
pub mod names;
pub mod reconcile;
pub mod store;
pub mod tasks;
