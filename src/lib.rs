use vstd::prelude::*;

pub mod laws;
pub mod session;
pub mod text;

verus! {

} // verus!
