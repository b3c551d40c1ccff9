//! Deterministic generation and packaging of a trusted-setup artifact: the
//! verified decisions, texts and values that the command-line program runs on.
use vstd::prelude::*;

pub mod decimal;
pub mod facts;
pub mod harness;
pub mod pipeline;
pub mod reporter;
pub mod seed;
pub mod size;

verus! {

} // verus!
