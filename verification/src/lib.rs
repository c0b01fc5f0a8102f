//! Parsers and decisions for NetBSD's procfs.
//!
//! NetBSD's `/proc/<pid>/status` is one whitespace-separated line whose first
//! field (the command name) may itself contain spaces, `statm` is a line of
//! page counts, and the remaining process facts come from system calls. The
//! reading is left to the caller; this crate turns what was read into values.
use vstd::prelude::*;

pub mod text;
pub mod decimal;
pub mod status;
pub mod statm;
pub mod memory;
pub mod stdin;

verus! {

} // verus!
