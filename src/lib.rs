//! Trap handling core of a single-core kernel: trap-cause decoding and
//! dispatch, the panic diagnostics, and the uniprocessor exclusive-access
//! cell that guards the kernel's global state.
use vstd::prelude::*;

pub mod lang_items;
pub mod sync;
pub mod trap;

verus! {

} // verus!
