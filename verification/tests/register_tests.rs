use kakeibo::category::{Category, ExpenseCategory, IncomeCategory};
use kakeibo::date::{parse_date, Date};
use kakeibo::errors::LedgerError;
use kakeibo::item::Item;
use kakeibo::register::register_item;
use kakeibo::validate::InputValidator;

#[test]
fn category_mapping_all_pairs() {
    assert_eq!(Item::get_category(0, 0), Category::Income(IncomeCategory::Salary));
    assert_eq!(Item::get_category(0, 1), Category::Income(IncomeCategory::Bonus));
    assert_eq!(Item::get_category(0, 2), Category::Income(IncomeCategory::Other));
    assert_eq!(Item::get_category(1, 0), Category::Expense(ExpenseCategory::Food));
    assert_eq!(Item::get_category(1, 1), Category::Expense(ExpenseCategory::Hobby));
    assert_eq!(Item::get_category(1, 2), Category::Expense(ExpenseCategory::Other));
}

#[test]
fn category_codes_round_trip() {
    let all = vec![
        Category::Income(IncomeCategory::Salary),
        Category::Income(IncomeCategory::Bonus),
        Category::Income(IncomeCategory::Other),
        Category::Expense(ExpenseCategory::Food),
        Category::Expense(ExpenseCategory::Hobby),
        Category::Expense(ExpenseCategory::Other),
    ];
    for c in all {
        let back = Item::get_category(c.register_type_code(), c.category_type_code());
        assert_eq!(back, c);
    }
}

#[test]
fn register_type_validation() {
    assert!(InputValidator::validate_register_type(0).is_ok());
    assert!(InputValidator::validate_register_type(1).is_ok());
    assert_eq!(
        InputValidator::validate_register_type(2),
        Err(LedgerError::InvalidRegisterType)
    );
    assert_eq!(
        InputValidator::validate_register_type(255),
        Err(LedgerError::InvalidRegisterType)
    );
}

#[test]
fn category_type_validation() {
    for register_type in [0u8, 1u8] {
        for value in [0u8, 1u8, 2u8] {
            assert!(InputValidator::validate_category_type(register_type, value).is_ok());
        }
        assert_eq!(
            InputValidator::validate_category_type(register_type, 3),
            Err(LedgerError::InvalidCategoryType)
        );
        assert_eq!(
            InputValidator::validate_category_type(register_type, 255),
            Err(LedgerError::InvalidCategoryType)
        );
    }
}

#[test]
fn price_for_summary_signs() {
    let date = Date::new(2024, 1, 1);
    let salary = Item::new(
        "salary".to_string(),
        Category::Income(IncomeCategory::Salary),
        1000,
        date,
    );
    assert_eq!(salary.get_price_for_summary(), 1000);
    let food = Item::new(
        "food".to_string(),
        Category::Expense(ExpenseCategory::Food),
        1000,
        date,
    );
    assert_eq!(food.get_price_for_summary(), -1000);
    let free = Item::new(
        "free".to_string(),
        Category::Expense(ExpenseCategory::Other),
        0,
        date,
    );
    assert_eq!(free.get_price_for_summary(), 0);
    let max = Item::new(
        "max".to_string(),
        Category::Income(IncomeCategory::Other),
        u32::MAX,
        date,
    );
    assert_eq!(max.get_price_for_summary(), u32::MAX as i64);
}

#[test]
fn item_accessors() {
    let item = Item::new(
        "lunch".to_string(),
        Category::Expense(ExpenseCategory::Food),
        800,
        Date::new(2024, 3, 14),
    );
    assert_eq!(item.get_name().as_str(), "lunch");
    assert_eq!(item.get_category_value(), Category::Expense(ExpenseCategory::Food));
    assert_eq!(item.get_price(), 800);
    assert_eq!(item.get_date(), Date::new(2024, 3, 14));
    assert_eq!(item.get_year(), 2024);
    assert_eq!(item.get_month(), 3);
    assert_eq!(item.get_first_day(), Date::new(2024, 3, 1));
}

#[test]
fn item_fields_round_trip_through_codes() {
    // the shape the persistent store keeps: plain name, category codes,
    // price and date parts
    let original = Item::new(
        "commute".to_string(),
        Category::Expense(ExpenseCategory::Other),
        210,
        Date::new(2024, 5, 7),
    );
    let name = original.get_name().clone();
    let register_type = original.get_category_value().register_type_code();
    let category_type = original.get_category_value().category_type_code();
    let price = original.get_price();
    let date = original.get_date();
    let restored = Item::new(
        name,
        Item::get_category(register_type, category_type),
        price,
        date,
    );
    assert_eq!(restored.get_name(), original.get_name());
    assert_eq!(restored.get_category_value(), original.get_category_value());
    assert_eq!(restored.get_price(), original.get_price());
    assert_eq!(restored.get_date(), original.get_date());
}

#[test]
fn register_item_appends_valid_entry() {
    let mut data: Vec<Item> = Vec::new();
    let r = register_item(
        &mut data,
        0,
        "salary".to_string(),
        1,
        5000,
        Date::new(2024, 4, 25),
    );
    assert!(r.is_ok());
    assert_eq!(data.len(), 1);
    assert_eq!(data[0].get_name().as_str(), "salary");
    assert_eq!(data[0].get_category_value(), Category::Income(IncomeCategory::Bonus));
    assert_eq!(data[0].get_price(), 5000);
    assert_eq!(data[0].get_date(), Date::new(2024, 4, 25));
}

#[test]
fn register_item_rejects_bad_register_type() {
    let mut data: Vec<Item> = Vec::new();
    let r = register_item(&mut data, 2, "x".to_string(), 0, 1, Date::new(2024, 1, 1));
    assert_eq!(r, Err(LedgerError::InvalidRegisterType));
    assert_eq!(data.len(), 0);
    // the register type is reported even when the category type is also bad
    let r = register_item(&mut data, 9, "x".to_string(), 9, 1, Date::new(2024, 1, 1));
    assert_eq!(r, Err(LedgerError::InvalidRegisterType));
    assert_eq!(data.len(), 0);
}

#[test]
fn register_item_rejects_bad_category_type() {
    let mut data: Vec<Item> = Vec::new();
    let r = register_item(&mut data, 1, "x".to_string(), 3, 1, Date::new(2024, 1, 1));
    assert_eq!(r, Err(LedgerError::InvalidCategoryType));
    assert_eq!(data.len(), 0);
}

#[test]
fn parse_date_accepts_calendar_dates() {
    assert_eq!(parse_date("2024-01-15"), Ok(Date::new(2024, 1, 15)));
    assert_eq!(parse_date("2024-1-5"), Ok(Date::new(2024, 1, 5)));
    assert_eq!(parse_date("2024-02-29"), Ok(Date::new(2024, 2, 29)));
    assert_eq!(parse_date("1999-12-31"), Ok(Date::new(1999, 12, 31)));
}

#[test]
fn parse_date_rejects_other_text() {
    assert_eq!(parse_date("hello"), Err(LedgerError::InputFormatError));
    assert_eq!(parse_date(""), Err(LedgerError::InputFormatError));
    assert_eq!(parse_date("2024-13-01"), Err(LedgerError::InputFormatError));
    assert_eq!(parse_date("2023-02-29"), Err(LedgerError::InputFormatError));
    assert_eq!(parse_date("2024/01/15"), Err(LedgerError::InputFormatError));
}
