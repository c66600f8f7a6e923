//! Transient heat exchange between a water flow and a phase-change-material
//! (PCM) jacket around parallel pipes.
//!
//! The simulation engine works on IEEE-754 binary64 values carried as `u64`
//! bit patterns, so that the whole stepping structure — flow initialization,
//! the radial and axial update phases, and the per-step bookkeeping — is
//! verified, while the arithmetic itself is delegated to outside crates
//! behind a small set of trusted primitives (see `bits`).

use vstd::prelude::*;

pub mod bits;
pub mod params;
pub mod simulation;
pub mod laws;

verus! {

/// A value together with a human-readable display label.
///
/// The label is presentation metadata only: nothing in the engine reads it.
#[derive(Clone)]
pub struct Described<T> {
    pub value: T,
    pub desc: &'static str,
}

impl<T> Described<T> {
    /// The display label attached to this value.
    pub fn desc(&self) -> (r: &'static str)
        ensures
            r@ == self.desc@,
    {
        self.desc
    }

    /// Wraps a value with its display label.
    pub fn new(value: T, desc: &'static str) -> (r: Described<T>)
        ensures
            r.value == value,
            r.desc@ == desc@,
    {
        Described { value, desc }
    }
}

} // verus!
