//! Synchronization primitives of the uniprocessor kernel.
use vstd::prelude::*;

pub mod up;

pub use up::UPSafeCell;

verus! {

} // verus!
