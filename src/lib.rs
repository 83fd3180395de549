//! Decisions behind managing Intel CPU power modes: which values each mode
//! writes, in which order the writes happen and when they stop, the paths of
//! the per-policy governor files, and the text of the status report.
//!
//! Reading and writing the kernel's control files is left to the caller.

pub mod mode;
pub mod applier;
pub mod text;
pub mod status;
