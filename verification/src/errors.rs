//! Error kinds of the ledger core. Every failure is fatal for the current
//! invocation; callers report the violated constraint and stop.

use vstd::prelude::*;

verus! {

/// Why an input was rejected.
#[derive(Clone, Copy, Debug, PartialEq, Eq, Structural)]
pub enum LedgerError {
    /// User-supplied text does not parse as the expected type.
    InputFormatError,
    /// The register type parses but is outside {income, expense}.
    InvalidRegisterType,
    /// The category type parses but is outside the taxonomy of its
    /// register type.
    InvalidCategoryType,
}

} // verus!
