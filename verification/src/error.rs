//! The failures that the simulation reports.

use vstd::prelude::*;

verus! {

/// Why a simulation was refused or stopped.
#[derive(Clone, Copy, Debug, PartialEq, Eq, Structural)]
pub enum SimError {
    /// A parameter that must be strictly positive is not.
    InvalidParameter,
    /// A computed real value is NaN or infinite where a finite one is needed.
    NumericFault,
}

} // verus!
