//! Budget bookkeeping core: income sources, expense categories, monthly
//! budgets and transactions, each kept in a table with ascending integer
//! ids, together with the rules that tie transactions to the rows they
//! reference.

pub mod clock;
pub mod db;
pub mod error;
pub mod laws;
pub mod models;
pub mod repository;
pub mod table;
