//! Opening a store.

use vstd::prelude::*;
use crate::db::database::Database;
use crate::error::QueryResult;

verus! {

/// A fresh, empty store, as a test opens it.
pub fn establish_connection_test() -> (r: QueryResult<Database>)
    ensures
        r matches Ok(db) && {
            &&& db@.wf()
            &&& db@.income_sources.rows().len() == 0
            &&& db@.income_sources.next_id() == 1
            &&& db@.expense_categories.rows().len() == 0
            &&& db@.expense_categories.next_id() == 1
            &&& db@.budget_months.rows().len() == 0
            &&& db@.budget_months.next_id() == 1
            &&& db@.transactions.rows().len() == 0
            &&& db@.transactions.next_id() == 1
            &&& db@.revolut_account_ids@.len() == 0
            &&& db@.rule_category_ids@.len() == 0
        },
{
    Ok(Database::new())
}

} // verus!
