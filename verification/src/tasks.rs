//! The tasks that change the kernel's interface table.

pub mod create;
