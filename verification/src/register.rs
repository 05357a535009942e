//! The register workflow's core: validate the raw selectors, resolve the
//! category, build the entry and append it to the collection.

use vstd::prelude::*;

use crate::category::spec_category;
use crate::date::Date;
use crate::errors::LedgerError;
use crate::item::Item;
use crate::validate::{category_count, InputValidator};

verus! {

/// Validates the raw register-type and category-type selectors, builds
/// the entry they describe and appends it to the collection. On an
/// invalid selector the collection is left unchanged and the violated
/// constraint is reported; an invalid register type is reported even
/// when the category type is also invalid.
pub fn register_item(
    data: &mut Vec<Item>,
    register_type: u8,
    name: String,
    category_type: u8,
    price: u32,
    date: Date,
) -> (r: Result<(), LedgerError>)
    ensures
        r is Ok <==> (register_type < 2 && category_type < category_count(register_type as int)),
        r is Ok ==> final(data)@ == old(data)@.push(
            (Item {
                name,
                category: spec_category(register_type as int, category_type as int),
                price,
                date,
            }),
        ),
        r is Err ==> final(data)@ == old(data)@,
        register_type >= 2 ==> r == Err::<(), LedgerError>(LedgerError::InvalidRegisterType),
        register_type < 2 && category_type >= category_count(register_type as int) ==> r == Err::<
            (),
            LedgerError,
        >(LedgerError::InvalidCategoryType),
{
    if let Err(e) = InputValidator::validate_register_type(register_type) {
        return Err(e);
    }
    if let Err(e) = InputValidator::validate_category_type(register_type, category_type) {
        return Err(e);
    }
    let category = Item::get_category(register_type, category_type);
    let item = Item::new(name, category, price, date);
    data.push(item);
    Ok(())
}

} // verus!
