//! The two-level category taxonomy: a register type (income or expense)
//! selecting one of two bounded subcategory enums.

use vstd::prelude::*;

verus! {

#[derive(Clone, Copy, Debug, PartialEq, Eq, Structural)]
pub enum IncomeCategory {
    Salary,
    Bonus,
    Other,
}

#[derive(Clone, Copy, Debug, PartialEq, Eq, Structural)]
pub enum ExpenseCategory {
    Food,
    Hobby,
    Other,
}

/// A ledger category: the variant tag is the register type, the payload
/// the subcategory within that register type's taxonomy.
#[derive(Clone, Copy, Debug, PartialEq, Eq, Structural)]
pub enum Category {
    Income(IncomeCategory),
    Expense(ExpenseCategory),
}

/// The register type encoded by a category: 0 for income, 1 for expense.
pub open spec fn tag_of(c: Category) -> int {
    match c {
        Category::Income(_) => 0,
        Category::Expense(_) => 1,
    }
}

/// The subcategory index within the category's taxonomy.
pub open spec fn index_of(c: Category) -> int {
    match c {
        Category::Income(ic) => match ic {
            IncomeCategory::Salary => 0,
            IncomeCategory::Bonus => 1,
            IncomeCategory::Other => 2,
        },
        Category::Expense(ec) => match ec {
            ExpenseCategory::Food => 0,
            ExpenseCategory::Hobby => 1,
            ExpenseCategory::Other => 2,
        },
    }
}

/// The category a validated (register type, category type) pair selects.
pub open spec fn spec_category(register_type: int, category_type: int) -> Category
    recommends
        0 <= register_type < 2,
        0 <= category_type < 3,
{
    if register_type == 0 {
        if category_type == 0 {
            Category::Income(IncomeCategory::Salary)
        } else if category_type == 1 {
            Category::Income(IncomeCategory::Bonus)
        } else {
            Category::Income(IncomeCategory::Other)
        }
    } else {
        if category_type == 0 {
            Category::Expense(ExpenseCategory::Food)
        } else if category_type == 1 {
            Category::Expense(ExpenseCategory::Hobby)
        } else {
            Category::Expense(ExpenseCategory::Other)
        }
    }
}

impl Category {
    /// The register type this category encodes, as the numeric selector
    /// the user supplies: 0 for income, 1 for expense.
    pub fn register_type_code(&self) -> (r: u8)
        ensures
            r as int == tag_of(*self),
    {
        match self {
            Category::Income(_) => 0,
            Category::Expense(_) => 1,
        }
    }

    /// The subcategory index within this category's taxonomy, as the
    /// numeric selector the user supplies.
    pub fn category_type_code(&self) -> (r: u8)
        ensures
            r as int == index_of(*self),
    {
        match self {
            Category::Income(IncomeCategory::Salary) => 0,
            Category::Income(IncomeCategory::Bonus) => 1,
            Category::Income(IncomeCategory::Other) => 2,
            Category::Expense(ExpenseCategory::Food) => 0,
            Category::Expense(ExpenseCategory::Hobby) => 1,
            Category::Expense(ExpenseCategory::Other) => 2,
        }
    }
}

/// The mapping from a validated pair to its category matches the pair
/// component for component, so distinct pairs select distinct categories
/// and the six categories are exactly its range.
pub proof fn lemma_category_mapping_bijective()
    ensures
        forall|rt: int, ct: int|
            0 <= rt < 2 && 0 <= ct < 3 ==> tag_of(#[trigger] spec_category(rt, ct)) == rt
                && index_of(spec_category(rt, ct)) == ct,
        forall|c: Category| #[trigger] spec_category(tag_of(c), index_of(c)) == c,
{
}

} // verus!
