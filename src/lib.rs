use vstd::prelude::*;

pub mod events;
pub mod geometry;
pub mod style;
pub mod visibility;
pub mod window;

verus! {

} // verus!
