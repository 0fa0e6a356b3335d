use vstd::prelude::*;

pub mod relay;
pub mod supervisor;
pub mod text;

verus! {

} // verus!
