use vstd::prelude::*;

pub mod datetime;
pub mod metadata;
pub mod process;
pub mod laws;

verus! {

} // verus!
