//! An interpreter for the RV32I base instruction set over a flat,
//! fixed-capacity memory with wraparound addressing.
//!
//! `mem` holds the byte store, `regs` the register file, `decode` the field
//! and immediate extraction, `dispatch` the map from instruction words to
//! operations, and `cpu` the fetch-decode-execute engine and its semantics.
use vstd::prelude::*;

pub mod cpu;
pub mod decode;
pub mod dispatch;
pub mod mem;
pub mod regs;

verus! {

} // verus!
