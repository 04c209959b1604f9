use vstd::prelude::*;

pub mod canvas;
pub mod contract;
pub mod grid;
pub mod laws;
pub mod msg;

verus! {

} // verus!
