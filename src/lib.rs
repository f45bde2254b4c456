//! Host side of a bridge to a sandboxed guest module: bounds-checked text
//! decoding from guest linear memory, the host state that guest callbacks
//! mutate, and the side channel that carries a guest failure's diagnostic
//! back to the host.
use vstd::prelude::*;

pub mod memory;
pub mod text;
pub mod panic_info;
pub mod channel;
pub mod counter;
pub mod boundary;
pub mod driver;
pub mod registry;

verus! {

} // verus!
