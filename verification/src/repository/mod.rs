pub mod budget_month_repository;
pub mod income_source_repository;
pub mod expense_category_repository;
pub mod transaction_repository;
