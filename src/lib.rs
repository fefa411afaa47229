use vstd::prelude::*;

pub mod laws;
pub mod session;
pub mod stitch;
pub mod thread;

verus! {

} // verus!
