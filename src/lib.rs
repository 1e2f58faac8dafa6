use vstd::prelude::*;

pub mod client;
pub mod model;

verus! {

} // verus!
