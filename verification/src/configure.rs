//! The interface of a settings record that loads and stores itself.

use crate::error::FondantError;
use vstd::prelude::*;

verus! {

/// A settings record that knows where it lives and in which format.
///
/// An implementation resolves the record's place, then drives
/// `LoadState` for `load` and `StoreState` for `store`.
pub trait Configure: Default {
    /// Reads the record from its file; on the first run, stores the default
    /// record and returns it.
    fn load() -> Result<Self, FondantError>;

    /// Writes the record to its file in full.
    fn store(&self) -> Result<(), FondantError>;
}

} // verus!
