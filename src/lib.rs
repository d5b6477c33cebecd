use vstd::prelude::*;

pub mod bridge;
pub mod devices;
pub mod events;
pub mod session;
pub mod source;
pub mod status;

verus! {

} // verus!
