//! The host's resource ceilings. They are properties of the execution
//! environment, fixed at design time, and every contract in this crate is
//! written against them.

use vstd::prelude::*;

verus! {

/// The largest persisted region, in bytes, that the host hands out.
pub const MAX_ALLOCATION: usize = 10485760;

/// The working heap, in bytes, that one operation may use.
pub const HEAP_BUDGET: usize = 32768;

/// The working stack, in bytes, that one operation may use.
pub const STACK_BUDGET: usize = 4096;

} // verus!
