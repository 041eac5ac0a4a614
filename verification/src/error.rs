//! The ways in which a request to the library can be refused.

use vstd::prelude::*;

verus! {

/// Why a request was refused.
#[derive(Clone, Copy, Debug, PartialEq, Eq, Structural)]
pub enum UniverseError {
    /// A grid without rows or without columns was asked for.
    InvalidDimensions,
    /// A position outside the grid was named.
    IndexOutOfRange,
}

} // verus!
