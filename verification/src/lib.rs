//! Control operations over an already-spawned process: wait for exit without
//! reaping, forceful termination, suspend and resume.
//!
//! The crate holds the decisions of both backends: which native request each
//! operation issues, and what each native return value means. Issuing the
//! request itself is left to the caller, who hands the returned value back.

pub mod error;
pub mod signal;
pub mod handle;
