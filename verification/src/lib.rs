//! Static-analysis front end for framework pallets: classifies candidate
//! functions into analyzable entry points, synthesizes directly callable
//! wrapper code for them, serves the augmented text through a virtual source
//! overlay, and orchestrates the two compiler passes that first collect and
//! then verify those entry points.

use vstd::prelude::*;

pub mod augment;
pub mod classify;
pub mod cli;
pub mod config;
pub mod orchestrate;
pub mod overlay;
pub mod digits;
pub mod names;
pub mod synth;
pub mod text;

verus! {

/// Kind of pallet `fn` that can become an analysis entry point.
#[derive(Debug, Clone, Copy, PartialEq, Eq, Structural)]
pub enum CallKind {
    Dispatchable,
    PubAssocFn,
}

impl CallKind {
    /// Human-readable description of the kind, used in reported findings.
    pub fn as_str(&self) -> (r: &'static str)
        ensures
            *self == CallKind::Dispatchable ==> r@ == "dispatchable"@,
            *self == CallKind::PubAssocFn ==> r@ == "pub assoc fn"@,
    {
        match self {
            CallKind::Dispatchable => "dispatchable",
            CallKind::PubAssocFn => "pub assoc fn",
        }
    }
}

} // verus!
