//! The ledger entry: a name, a category, a non-negative price magnitude
//! and a calendar date, with the derived signed-price semantics the
//! summarizer accumulates.

use vstd::prelude::*;

use crate::category::{spec_category, Category, ExpenseCategory, IncomeCategory};
use crate::date::Date;

verus! {

/// One recorded ledger entry. Immutable once constructed.
#[derive(Debug)]
pub struct Item {
    pub name: String,
    pub category: Category,
    pub price: u32,
    pub date: Date,
}

/// The mathematical content of an `Item`: the name as a character
/// sequence, the other fields as they stand.
pub struct ItemView {
    pub name: Seq<char>,
    pub category: Category,
    pub price: u32,
    pub date: Date,
}

impl View for Item {
    type V = ItemView;

    open spec fn view(&self) -> ItemView {
        ItemView {
            name: self.name@,
            category: self.category,
            price: self.price,
            date: self.date,
        }
    }
}

impl ItemView {
    /// The entry's contribution to a monthly net balance: the price
    /// counted positively for income, negatively for expense.
    pub open spec fn signed_price(self) -> int {
        match self.category {
            Category::Income(_) => self.price as int,
            Category::Expense(_) => -(self.price as int),
        }
    }

    /// The grouping key: the entry's date normalized to day 1.
    pub open spec fn first_day(self) -> Date {
        self.date.spec_first_day()
    }
}

impl Item {
    /// Builds an entry verbatim from already-validated parts; performs
    /// no validation of its own.
    pub fn new(name: String, category: Category, price: u32, date: Date) -> (item: Item)
        ensures
            item == (Item { name, category, price, date }),
            item@ == (ItemView { name: name@, category, price, date }),
    {
        Item { name, category, price, date }
    }

    /// The category a validated (register type, category type) pair
    /// selects. Callers must have validated both selectors already; the
    /// mapping is total only over the valid domain.
    pub fn get_category(register_type: u8, category_type: u8) -> (c: Category)
        requires
            register_type < 2,
            category_type < 3,
        ensures
            c == spec_category(register_type as int, category_type as int),
    {
        if register_type == 0 {
            if category_type == 0 {
                Category::Income(IncomeCategory::Salary)
            } else if category_type == 1 {
                Category::Income(IncomeCategory::Bonus)
            } else {
                Category::Income(IncomeCategory::Other)
            }
        } else {
            if category_type == 0 {
                Category::Expense(ExpenseCategory::Food)
            } else if category_type == 1 {
                Category::Expense(ExpenseCategory::Hobby)
            } else {
                Category::Expense(ExpenseCategory::Other)
            }
        }
    }

    pub fn get_name(&self) -> (n: &String)
        ensures
            n@ == self@.name,
    {
        &self.name
    }

    pub fn get_category_value(&self) -> (c: Category)
        ensures
            c == self@.category,
    {
        self.category
    }

    pub fn get_price(&self) -> (p: u32)
        ensures
            p == self@.price,
    {
        self.price
    }

    pub fn get_date(&self) -> (d: Date)
        ensures
            d == self@.date,
    {
        self.date
    }

    pub fn get_year(&self) -> (y: i32)
        ensures
            y == self@.date.year,
    {
        self.date.year
    }

    pub fn get_month(&self) -> (m: u8)
        ensures
            m == self@.date.month,
    {
        self.date.month
    }

    /// The entry's grouping key: its date normalized to day 1.
    pub fn get_first_day(&self) -> (d: Date)
        ensures
            d == self@.first_day(),
    {
        self.date.first_day()
    }

    /// The signed contribution of this entry to a monthly net balance:
    /// `+price` for income, `-price` for expense.
    pub fn get_price_for_summary(&self) -> (p: i64)
        ensures
            p as int == self@.signed_price(),
    {
        match self.category {
            Category::Income(_) => self.price as i64,
            Category::Expense(_) => -(self.price as i64),
        }
    }

    /// A copy of this entry, equal to it under the view.
    pub fn duplicate(&self) -> (item: Item)
        ensures
            item@ == self@,
    {
        Item {
            name: self.name.clone(),
            category: self.category,
            price: self.price,
            date: self.date,
        }
    }
}

} // verus!
