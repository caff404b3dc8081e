//! Conformance checking for RDAP (Registration Data Access Protocol)
//! responses.
//!
//! The heart of the crate is a rule-based validation engine: it walks a
//! recursively nested RDAP response and produces a tree of classified
//! findings ("checks") that mirrors the shape of the response. Around it
//! stand the check taxonomy, the response model the engine inspects, the
//! traversal and query operations on the resulting tree, the IANA
//! bootstrap registries, and small helpers for the network test harness
//! and the CLI directories.

use vstd::prelude::*;

pub mod addr;
pub mod check;
pub mod datetime;
pub mod dirs;
pub mod httpdata;
pub mod iana;
pub mod names;
pub mod response;
pub mod rt;

verus! {

} // verus!
