//! A verified model of the boundary between native code and a managed runtime
//! with a moving collector: the tagged value encoding, the runtime handle and
//! its blocking sections, persistent roots, and the marshaling of native values
//! into the runtime's heap.
use vstd::prelude::*;

pub mod boxroot;
pub mod conv;
pub mod from;
pub mod mlvalues;
pub mod runtime;
pub mod value;

verus! {

} // verus!
