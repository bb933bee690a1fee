pub mod budget_month;
pub mod changes;
pub mod expense_category;
pub mod income_source;
pub mod transaction;
