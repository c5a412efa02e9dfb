//! Builtin co-processor runners of a Cairo-style virtual machine: the segment
//! layout of each builtin, its validation rule and deduction, the end-of-run
//! completeness check, and the usage accounting.

pub mod arith;
pub mod bitwise;
pub mod ec_op;
pub mod errors;
pub mod felt;
pub mod hash;
pub mod memory;
pub mod output;
pub mod range_check;
pub mod relocatable;
pub mod runner;
pub mod security;
pub mod segment_usage;
