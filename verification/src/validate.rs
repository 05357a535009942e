//! Domain validation of the raw numeric selectors the user supplies
//! before they are mapped into the category taxonomy.

use vstd::prelude::*;

use crate::errors::LedgerError;

verus! {

pub struct InputValidator {}

impl InputValidator {
    /// A register type is valid exactly when it is 0 (income) or 1
    /// (expense); anything else fails with `InvalidRegisterType`.
    pub fn validate_register_type(value: u8) -> (r: Result<(), LedgerError>)
        ensures
            r is Ok <==> value < 2,
            r is Err ==> r == Result::<(), LedgerError>::Err(LedgerError::InvalidRegisterType),
    {
        if value < 2 {
            Ok(())
        } else {
            Err(LedgerError::InvalidRegisterType)
        }
    }

    /// A category type is valid exactly when it is 0, 1 or 2; anything
    /// else fails with `InvalidCategoryType`. Both register types
    /// currently have taxonomies of three members, so the valid range
    /// does not depend on `register_type` today; the parameter is the
    /// seam through which a future taxonomy of a different size would
    /// change that.
    pub fn validate_category_type(register_type: u8, value: u8) -> (r: Result<(), LedgerError>)
        ensures
            r is Ok <==> value < category_count(register_type as int),
            r is Err ==> r == Result::<(), LedgerError>::Err(LedgerError::InvalidCategoryType),
    {
        let limit: u8 = if register_type == 0 {
            3
        } else {
            3
        };
        if value < limit {
            Ok(())
        } else {
            Err(LedgerError::InvalidCategoryType)
        }
    }
}

/// How many subcategories the register type's taxonomy has.
pub open spec fn category_count(register_type: int) -> int {
    if register_type == 0 {
        3
    } else {
        3
    }
}

} // verus!
