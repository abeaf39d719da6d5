//! GPU architectures known to the page table code.

use vstd::prelude::*;

verus! {

/// A GPU architecture generation.
#[derive(Debug, Clone, Copy, PartialEq, Eq, Structural)]
pub enum Architecture {
    /// Turing (TU1xx).
    Turing,
    /// Ampere (GA1xx).
    Ampere,
    /// Ada (AD1xx).
    Ada,
}

} // verus!
