//! A presentation engine for a windowed renderer: the swap ring of
//! presentable images, the per-frame completion tokens, the resize
//! controller and the per-iteration driver, each with its contract; and a
//! text generator for air tasking orders.
use vstd::prelude::*;

pub mod resize;
pub mod ring;
pub mod sync;
pub mod engine;
pub mod missions;

verus! {

} // verus!
