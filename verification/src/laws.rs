//! Properties that hold across calls: what a read gives back after a
//! write, and how ids are handed out.

use vstd::prelude::*;
use crate::db::database::Tables;
use crate::error::{QueryResult, RepoError};
use crate::models::budget_month::{BudgetMonth, NewBudgetMonth, UpdateBudgetMonth};
use crate::models::expense_category::{ExpenseCategory, NewExpenseCategory, UpdateExpenseCategory};
use crate::models::income_source::{IncomeSource, NewIncomeSource, UpdateIncomeSource};
use crate::models::transaction::{NewTransaction, Transaction, UpdateTransaction};
use crate::repository::budget_month_repository;
use crate::repository::expense_category_repository;
use crate::repository::income_source_repository;
use crate::repository::transaction_repository;
use crate::table::{row_id, Record, Table};

verus! {

/// Every table lists its rows in strictly ascending id order, which is the
/// order in which they were inserted.
pub proof fn rows_in_ascending_id_order<R: Record>(t: Table<R>)
    requires
        t.wf(),
    ensures
        forall|i: int, j: int| 0 <= i < j < t.rows().len() ==> row_id(t.rows()[i]) < row_id(t.rows()[j]),
{
    t.lemma_wf();
}

/// Every stored id lies below the table's counter. An insertion hands out
/// the counter and raises it, updates and deletions leave it, so within a
/// table an id once handed out, even of a row deleted since, is not handed
/// out again. A table rebuilt from storage starts its counter after the
/// largest id storage records as handed out (`Table::from_rows`).
pub proof fn stored_ids_below_counter<R: Record>(t: Table<R>)
    requires
        t.wf(),
    ensures
        1 <= t.next_id(),
        forall|i: int| 0 <= i < t.rows().len() ==> #[trigger] row_id(t.rows()[i]) < t.next_id(),
{
    t.lemma_wf();
}

/// A monthly budget inserted successfully gets an id above every id already in its
/// table, and reading that id back gives the row the insertion returned.
pub proof fn budget_month_read_after_insert(
    before: Tables,
    after: Tables,
    source: NewBudgetMonth,
    now: i64,
    row: BudgetMonth,
)
    requires
        before.wf(),
        budget_month_repository::inserted(before, after, source, now, Ok(row)),
    ensures
        row.id is Some,
        1 <= row.id.unwrap(),
        forall|i: int|
            0 <= i < before.budget_months.rows().len() ==> row_id(#[trigger] before.budget_months.rows()[i]) < row.id.unwrap(),
        after.budget_months.find(row.id.unwrap()) == Some(row),
{
    before.budget_months.lemma_wf();
    Table::lemma_find_after_push(before.budget_months, after.budget_months, row);
}

/// Reading a monthly budget back after a successful update gives the changed row,
/// which keeps its id and creation time and carries the update time.
pub proof fn budget_month_read_after_update(
    before: Tables,
    after: Tables,
    id: i32,
    changes: UpdateBudgetMonth,
    now: i64,
    row: BudgetMonth,
)
    requires
        before.wf(),
        budget_month_repository::updated(before, after, id, changes, now, Ok(Some(row))),
    ensures
        before.budget_months.has_id(id),
        row.id == Some(id),
        row.created_at == before.budget_months.find(id).unwrap().created_at,
        row.updated_at == now,
        after.budget_months.find(id) == Some(row),
{
    Table::lemma_find_after_update(before.budget_months, after.budget_months, id, row);
}

/// After a monthly budget has been deleted, reading its id finds nothing.
pub proof fn budget_month_gone_after_delete(before: Tables, after: Tables, id: i32)
    requires
        before.wf(),
        budget_month_repository::deleted(before, after, id, Ok(true)),
    ensures
        after.budget_months.find(id) is None,
{
    Table::lemma_find_after_remove(before.budget_months, after.budget_months, id);
}

/// A income source inserted successfully gets an id above every id already in its
/// table, and reading that id back gives the row the insertion returned.
pub proof fn income_source_read_after_insert(
    before: Tables,
    after: Tables,
    source: NewIncomeSource,
    now: i64,
    row: IncomeSource,
)
    requires
        before.wf(),
        income_source_repository::inserted(before, after, source, now, Ok(row)),
    ensures
        row.id is Some,
        1 <= row.id.unwrap(),
        forall|i: int|
            0 <= i < before.income_sources.rows().len() ==> row_id(#[trigger] before.income_sources.rows()[i]) < row.id.unwrap(),
        after.income_sources.find(row.id.unwrap()) == Some(row),
{
    before.income_sources.lemma_wf();
    Table::lemma_find_after_push(before.income_sources, after.income_sources, row);
}

/// Reading a income source back after a successful update gives the changed row,
/// which keeps its id and creation time and carries the update time.
pub proof fn income_source_read_after_update(
    before: Tables,
    after: Tables,
    id: i32,
    changes: UpdateIncomeSource,
    now: i64,
    row: IncomeSource,
)
    requires
        before.wf(),
        income_source_repository::updated(before, after, id, changes, now, Ok(Some(row))),
    ensures
        before.income_sources.has_id(id),
        row.id == Some(id),
        row.created_at == before.income_sources.find(id).unwrap().created_at,
        row.updated_at == now,
        after.income_sources.find(id) == Some(row),
{
    Table::lemma_find_after_update(before.income_sources, after.income_sources, id, row);
}

/// After a income source has been deleted, reading its id finds nothing.
pub proof fn income_source_gone_after_delete(before: Tables, after: Tables, id: i32)
    requires
        before.wf(),
        income_source_repository::deleted(before, after, id, Ok(true)),
    ensures
        after.income_sources.find(id) is None,
{
    Table::lemma_find_after_remove(before.income_sources, after.income_sources, id);
}

/// A expense category inserted successfully gets an id above every id already in its
/// table, and reading that id back gives the row the insertion returned.
pub proof fn expense_category_read_after_insert(
    before: Tables,
    after: Tables,
    source: NewExpenseCategory,
    now: i64,
    row: ExpenseCategory,
)
    requires
        before.wf(),
        expense_category_repository::inserted(before, after, source, now, Ok(row)),
    ensures
        row.id is Some,
        1 <= row.id.unwrap(),
        forall|i: int|
            0 <= i < before.expense_categories.rows().len() ==> row_id(#[trigger] before.expense_categories.rows()[i]) < row.id.unwrap(),
        after.expense_categories.find(row.id.unwrap()) == Some(row),
{
    before.expense_categories.lemma_wf();
    Table::lemma_find_after_push(before.expense_categories, after.expense_categories, row);
}

/// Reading a expense category back after a successful update gives the changed row,
/// which keeps its id and creation time and carries the update time.
pub proof fn expense_category_read_after_update(
    before: Tables,
    after: Tables,
    id: i32,
    changes: UpdateExpenseCategory,
    now: i64,
    row: ExpenseCategory,
)
    requires
        before.wf(),
        expense_category_repository::updated(before, after, id, changes, now, Ok(Some(row))),
    ensures
        before.expense_categories.has_id(id),
        row.id == Some(id),
        row.created_at == before.expense_categories.find(id).unwrap().created_at,
        row.updated_at == now,
        after.expense_categories.find(id) == Some(row),
{
    Table::lemma_find_after_update(before.expense_categories, after.expense_categories, id, row);
}

/// After a expense category has been deleted, reading its id finds nothing.
pub proof fn expense_category_gone_after_delete(before: Tables, after: Tables, id: i32)
    requires
        before.wf(),
        expense_category_repository::deleted(before, after, id, Ok(true)),
    ensures
        after.expense_categories.find(id) is None,
{
    Table::lemma_find_after_remove(before.expense_categories, after.expense_categories, id);
}

/// A transaction inserted successfully gets an id above every id already in its
/// table, and reading that id back gives the row the insertion returned.
pub proof fn transaction_read_after_insert(
    before: Tables,
    after: Tables,
    source: NewTransaction,
    now: i64,
    row: Transaction,
)
    requires
        before.wf(),
        transaction_repository::inserted(before, after, source, now, Ok(row)),
    ensures
        row.id is Some,
        1 <= row.id.unwrap(),
        forall|i: int|
            0 <= i < before.transactions.rows().len() ==> row_id(#[trigger] before.transactions.rows()[i]) < row.id.unwrap(),
        after.transactions.find(row.id.unwrap()) == Some(row),
{
    before.transactions.lemma_wf();
    Table::lemma_find_after_push(before.transactions, after.transactions, row);
}

/// Reading a transaction back after a successful update gives the changed row,
/// which keeps its id and creation time and carries the update time.
pub proof fn transaction_read_after_update(
    before: Tables,
    after: Tables,
    id: i32,
    changes: UpdateTransaction,
    now: i64,
    row: Transaction,
)
    requires
        before.wf(),
        transaction_repository::updated(before, after, id, changes, now, Ok(Some(row))),
    ensures
        before.transactions.has_id(id),
        row.id == Some(id),
        row.created_at == before.transactions.find(id).unwrap().created_at,
        row.updated_at == now,
        after.transactions.find(id) == Some(row),
{
    Table::lemma_find_after_update(before.transactions, after.transactions, id, row);
}

/// After a transaction has been deleted, reading its id finds nothing.
pub proof fn transaction_gone_after_delete(before: Tables, after: Tables, id: i32)
    requires
        before.wf(),
        transaction_repository::deleted(before, after, id, Ok(true)),
    ensures
        after.transactions.find(id) is None,
{
    Table::lemma_find_after_remove(before.transactions, after.transactions, id);
}

/// A change set that names no column leaves a monthly budget as it was but
/// for its update time.
pub proof fn budget_month_empty_changes(changes: UpdateBudgetMonth, row: BudgetMonth, now: i64)
    requires
        changes.month is None,
        changes.currency is None,
        changes.spending_limit_cents is None,
        changes.savings_target_cents is None,
    ensures
        changes.spec_apply(row, now) == (BudgetMonth { updated_at: now, ..row }),
{
}

/// A change set that names no column leaves an income source as it was but
/// for its update time.
pub proof fn income_source_empty_changes(changes: UpdateIncomeSource, row: IncomeSource, now: i64)
    requires
        changes.name is None,
        changes.is_active is None,
    ensures
        changes.spec_apply(row, now) == (IncomeSource { updated_at: now, ..row }),
{
}

/// A change set that names no column leaves an expense category as it was
/// but for its update time.
pub proof fn expense_category_empty_changes(changes: UpdateExpenseCategory, row: ExpenseCategory, now: i64)
    requires
        changes.name is None,
        changes.icon is None,
        changes.color is None,
        changes.is_default is None,
        changes.is_active is None,
    ensures
        changes.spec_apply(row, now) == (ExpenseCategory { updated_at: now, ..row }),
{
}

/// A change set that names no column leaves a transaction as it was but for
/// its update time.
pub proof fn transaction_empty_changes(changes: UpdateTransaction, row: Transaction, now: i64)
    requires
        changes.source_type is None,
        changes.transaction_type is None,
        changes.amount_cents is None,
        changes.currency is None,
        changes.description is None,
        changes.occurred_at is None,
        changes.income_source_id is None,
        changes.expense_category_id is None,
        changes.external_id is None,
        changes.revolut_account_id is None,
        changes.merchant_name is None,
        changes.raw_description is None,
        changes.revolut_category is None,
        changes.status is None,
        changes.completed_at is None,
        changes.exclude_from_totals is None,
    ensures
        changes.spec_apply(row, now) == (Transaction { updated_at: now, ..row }),
{
}

/// Updating a stored monthly budget writes every column the change set names with
/// the value it names (for a nullable column `Some(None)` clears it) and
/// keeps every column it leaves alone as stored; the id and the creation
/// time stay, and the update time is the time of the call.
pub proof fn budget_month_update_writes_named_columns(
    before: Tables,
    after: Tables,
    id: i32,
    changes: UpdateBudgetMonth,
    now: i64,
    row: BudgetMonth,
)
    requires
        before.wf(),
        budget_month_repository::updated(before, after, id, changes, now, Ok(Some(row))),
    ensures
        before.budget_months.has_id(id),
        row.id == Some(id),
        changes.month matches Some(v) ==> row.month == v,
        changes.month is None ==> row.month == before.budget_months.find(id).unwrap().month,
        changes.currency matches Some(v) ==> row.currency == v,
        changes.currency is None ==> row.currency == before.budget_months.find(id).unwrap().currency,
        changes.spending_limit_cents matches Some(v) ==> row.spending_limit_cents == v,
        changes.spending_limit_cents is None ==> row.spending_limit_cents == before.budget_months.find(id).unwrap().spending_limit_cents,
        changes.savings_target_cents matches Some(v) ==> row.savings_target_cents == v,
        changes.savings_target_cents is None ==> row.savings_target_cents == before.budget_months.find(id).unwrap().savings_target_cents,
        row.created_at == before.budget_months.find(id).unwrap().created_at,
        row.updated_at == now,
{
}

/// The monthly budget an insertion returns, and stores last in its table, holds
/// every column of the request as given, the next id of the table, and the
/// time of the call as both its creation and update time.
pub proof fn budget_month_insert_stores_request(
    before: Tables,
    after: Tables,
    source: NewBudgetMonth,
    now: i64,
    row: BudgetMonth,
)
    requires
        budget_month_repository::inserted(before, after, source, now, Ok(row)),
    ensures
        row.id == Some(before.budget_months.next_id() as i32),
        row.month == source.month,
        row.currency == source.currency,
        row.spending_limit_cents == source.spending_limit_cents,
        row.savings_target_cents == source.savings_target_cents,
        row.created_at == now,
        row.updated_at == now,
        after.budget_months.rows() == before.budget_months.rows().push(row),
{
}

/// Updating a stored income source writes every column the change set names with
/// the value it names (for a nullable column `Some(None)` clears it) and
/// keeps every column it leaves alone as stored; the id and the creation
/// time stay, and the update time is the time of the call.
pub proof fn income_source_update_writes_named_columns(
    before: Tables,
    after: Tables,
    id: i32,
    changes: UpdateIncomeSource,
    now: i64,
    row: IncomeSource,
)
    requires
        before.wf(),
        income_source_repository::updated(before, after, id, changes, now, Ok(Some(row))),
    ensures
        before.income_sources.has_id(id),
        row.id == Some(id),
        changes.name matches Some(v) ==> row.name == v,
        changes.name is None ==> row.name == before.income_sources.find(id).unwrap().name,
        changes.is_active matches Some(v) ==> row.is_active == v,
        changes.is_active is None ==> row.is_active == before.income_sources.find(id).unwrap().is_active,
        row.created_at == before.income_sources.find(id).unwrap().created_at,
        row.updated_at == now,
{
}

/// The income source an insertion returns, and stores last in its table, holds
/// every column of the request as given, the next id of the table, and the
/// time of the call as both its creation and update time.
pub proof fn income_source_insert_stores_request(
    before: Tables,
    after: Tables,
    source: NewIncomeSource,
    now: i64,
    row: IncomeSource,
)
    requires
        income_source_repository::inserted(before, after, source, now, Ok(row)),
    ensures
        row.id == Some(before.income_sources.next_id() as i32),
        row.name == source.name,
        row.is_active == source.is_active,
        row.created_at == now,
        row.updated_at == now,
        after.income_sources.rows() == before.income_sources.rows().push(row),
{
}

/// Updating a stored expense category writes every column the change set names with
/// the value it names (for a nullable column `Some(None)` clears it) and
/// keeps every column it leaves alone as stored; the id and the creation
/// time stay, and the update time is the time of the call.
pub proof fn expense_category_update_writes_named_columns(
    before: Tables,
    after: Tables,
    id: i32,
    changes: UpdateExpenseCategory,
    now: i64,
    row: ExpenseCategory,
)
    requires
        before.wf(),
        expense_category_repository::updated(before, after, id, changes, now, Ok(Some(row))),
    ensures
        before.expense_categories.has_id(id),
        row.id == Some(id),
        changes.name matches Some(v) ==> row.name == v,
        changes.name is None ==> row.name == before.expense_categories.find(id).unwrap().name,
        changes.icon matches Some(v) ==> row.icon == v,
        changes.icon is None ==> row.icon == before.expense_categories.find(id).unwrap().icon,
        changes.color matches Some(v) ==> row.color == v,
        changes.color is None ==> row.color == before.expense_categories.find(id).unwrap().color,
        changes.is_default matches Some(v) ==> row.is_default == v,
        changes.is_default is None ==> row.is_default == before.expense_categories.find(id).unwrap().is_default,
        changes.is_active matches Some(v) ==> row.is_active == v,
        changes.is_active is None ==> row.is_active == before.expense_categories.find(id).unwrap().is_active,
        row.created_at == before.expense_categories.find(id).unwrap().created_at,
        row.updated_at == now,
{
}

/// The expense category an insertion returns, and stores last in its table, holds
/// every column of the request as given, the next id of the table, and the
/// time of the call as both its creation and update time.
pub proof fn expense_category_insert_stores_request(
    before: Tables,
    after: Tables,
    source: NewExpenseCategory,
    now: i64,
    row: ExpenseCategory,
)
    requires
        expense_category_repository::inserted(before, after, source, now, Ok(row)),
    ensures
        row.id == Some(before.expense_categories.next_id() as i32),
        row.name == source.name,
        row.icon == source.icon,
        row.color == source.color,
        row.is_default == source.is_default,
        row.is_active == source.is_active,
        row.created_at == now,
        row.updated_at == now,
        after.expense_categories.rows() == before.expense_categories.rows().push(row),
{
}

/// Updating a stored transaction writes every column the change set names with
/// the value it names (for a nullable column `Some(None)` clears it) and
/// keeps every column it leaves alone as stored; the id and the creation
/// time stay, and the update time is the time of the call.
pub proof fn transaction_update_writes_named_columns(
    before: Tables,
    after: Tables,
    id: i32,
    changes: UpdateTransaction,
    now: i64,
    row: Transaction,
)
    requires
        before.wf(),
        transaction_repository::updated(before, after, id, changes, now, Ok(Some(row))),
    ensures
        before.transactions.has_id(id),
        row.id == Some(id),
        changes.source_type matches Some(v) ==> row.source_type == v,
        changes.source_type is None ==> row.source_type == before.transactions.find(id).unwrap().source_type,
        changes.transaction_type matches Some(v) ==> row.transaction_type == v,
        changes.transaction_type is None ==> row.transaction_type == before.transactions.find(id).unwrap().transaction_type,
        changes.amount_cents matches Some(v) ==> row.amount_cents == v,
        changes.amount_cents is None ==> row.amount_cents == before.transactions.find(id).unwrap().amount_cents,
        changes.currency matches Some(v) ==> row.currency == v,
        changes.currency is None ==> row.currency == before.transactions.find(id).unwrap().currency,
        changes.description matches Some(v) ==> row.description == v,
        changes.description is None ==> row.description == before.transactions.find(id).unwrap().description,
        changes.occurred_at matches Some(v) ==> row.occurred_at == v,
        changes.occurred_at is None ==> row.occurred_at == before.transactions.find(id).unwrap().occurred_at,
        changes.income_source_id matches Some(v) ==> row.income_source_id == v,
        changes.income_source_id is None ==> row.income_source_id == before.transactions.find(id).unwrap().income_source_id,
        changes.expense_category_id matches Some(v) ==> row.expense_category_id == v,
        changes.expense_category_id is None ==> row.expense_category_id == before.transactions.find(id).unwrap().expense_category_id,
        changes.external_id matches Some(v) ==> row.external_id == v,
        changes.external_id is None ==> row.external_id == before.transactions.find(id).unwrap().external_id,
        changes.revolut_account_id matches Some(v) ==> row.revolut_account_id == v,
        changes.revolut_account_id is None ==> row.revolut_account_id == before.transactions.find(id).unwrap().revolut_account_id,
        changes.merchant_name matches Some(v) ==> row.merchant_name == v,
        changes.merchant_name is None ==> row.merchant_name == before.transactions.find(id).unwrap().merchant_name,
        changes.raw_description matches Some(v) ==> row.raw_description == v,
        changes.raw_description is None ==> row.raw_description == before.transactions.find(id).unwrap().raw_description,
        changes.revolut_category matches Some(v) ==> row.revolut_category == v,
        changes.revolut_category is None ==> row.revolut_category == before.transactions.find(id).unwrap().revolut_category,
        changes.status matches Some(v) ==> row.status == v,
        changes.status is None ==> row.status == before.transactions.find(id).unwrap().status,
        changes.completed_at matches Some(v) ==> row.completed_at == v,
        changes.completed_at is None ==> row.completed_at == before.transactions.find(id).unwrap().completed_at,
        changes.exclude_from_totals matches Some(v) ==> row.exclude_from_totals == v,
        changes.exclude_from_totals is None ==> row.exclude_from_totals == before.transactions.find(id).unwrap().exclude_from_totals,
        row.created_at == before.transactions.find(id).unwrap().created_at,
        row.updated_at == now,
{
}

/// The transaction an insertion returns, and stores last in its table, holds
/// every column of the request as given, the next id of the table, and the
/// time of the call as both its creation and update time.
pub proof fn transaction_insert_stores_request(
    before: Tables,
    after: Tables,
    source: NewTransaction,
    now: i64,
    row: Transaction,
)
    requires
        transaction_repository::inserted(before, after, source, now, Ok(row)),
    ensures
        row.id == Some(before.transactions.next_id() as i32),
        row.source_type == source.source_type,
        row.transaction_type == source.transaction_type,
        row.amount_cents == source.amount_cents,
        row.currency == source.currency,
        row.description == source.description,
        row.occurred_at == source.occurred_at,
        row.income_source_id == source.income_source_id,
        row.expense_category_id == source.expense_category_id,
        row.external_id == source.external_id,
        row.revolut_account_id == source.revolut_account_id,
        row.merchant_name == source.merchant_name,
        row.raw_description == source.raw_description,
        row.revolut_category == source.revolut_category,
        row.status == source.status,
        row.completed_at == source.completed_at,
        row.exclude_from_totals == source.exclude_from_totals,
        row.created_at == now,
        row.updated_at == now,
        after.transactions.rows() == before.transactions.rows().push(row),
{
}

/// Deleting a stored expense category that no transaction and no rule names
/// succeeds and removes it.
pub proof fn expense_category_delete_unnamed(before: Tables, after: Tables, id: i32, r: QueryResult<bool>)
    requires
        before.wf(),
        before.expense_categories.has_id(id),
        forall|i: int|
            0 <= i < before.transactions.rows().len() ==> (#[trigger] before.transactions.rows()[i]).expense_category_id
                != Some(id),
        !before.rule_category_ids@.contains(id),
        expense_category_repository::deleted(before, after, id, r),
    ensures
        r == Ok::<bool, RepoError>(true),
        after.expense_categories.find(id) is None,
        after.expense_categories.rows().len() + 1 == before.expense_categories.rows().len(),
{
    Table::lemma_find_after_remove(before.expense_categories, after.expense_categories, id);
}

/// Deleting an expense category that transaction `i` names is refused and
/// changes nothing.
pub proof fn expense_category_delete_named_by_transaction(
    before: Tables,
    after: Tables,
    id: i32,
    i: int,
    r: QueryResult<bool>,
)
    requires
        before.expense_categories.has_id(id),
        0 <= i < before.transactions.rows().len(),
        before.transactions.rows()[i].expense_category_id == Some(id),
        expense_category_repository::deleted(before, after, id, r),
    ensures
        r == Err::<bool, RepoError>(RepoError::ForeignKeyViolation),
        after == before,
{
}

/// Deleting an expense category that an auto-categorisation rule names is
/// refused and changes nothing.
pub proof fn expense_category_delete_named_by_rule(before: Tables, after: Tables, id: i32, r: QueryResult<bool>)
    requires
        before.expense_categories.has_id(id),
        before.rule_category_ids@.contains(id),
        expense_category_repository::deleted(before, after, id, r),
    ensures
        r == Err::<bool, RepoError>(RepoError::ForeignKeyViolation),
        after == before,
{
}

/// Deleting a stored income source that no transaction names succeeds and
/// removes it.
pub proof fn income_source_delete_unnamed(before: Tables, after: Tables, id: i32, r: QueryResult<bool>)
    requires
        before.wf(),
        before.income_sources.has_id(id),
        forall|i: int|
            0 <= i < before.transactions.rows().len() ==> (#[trigger] before.transactions.rows()[i]).income_source_id
                != Some(id),
        income_source_repository::deleted(before, after, id, r),
    ensures
        r == Ok::<bool, RepoError>(true),
        after.income_sources.find(id) is None,
        after.income_sources.rows().len() + 1 == before.income_sources.rows().len(),
{
    Table::lemma_find_after_remove(before.income_sources, after.income_sources, id);
}

/// Deleting an income source that transaction `i` names is refused and
/// changes nothing.
pub proof fn income_source_delete_named_by_transaction(
    before: Tables,
    after: Tables,
    id: i32,
    i: int,
    r: QueryResult<bool>,
)
    requires
        before.income_sources.has_id(id),
        0 <= i < before.transactions.rows().len(),
        before.transactions.rows()[i].income_source_id == Some(id),
        income_source_repository::deleted(before, after, id, r),
    ensures
        r == Err::<bool, RepoError>(RepoError::ForeignKeyViolation),
        after == before,
{
}

/// Looking an id up finds a row exactly when some stored row carries that
/// id, and the row found is a stored row carrying it.
pub proof fn lookup_finds_the_row_with_that_id<R: Record>(t: Table<R>, id: i32)
    requires
        t.wf(),
    ensures
        t.find(id) is None <==> forall|i: int| 0 <= i < t.rows().len() ==> (#[trigger] t.rows()[i]).spec_id() != Some(id),
        t.find(id) matches Some(row) ==> row.spec_id() == Some(id) && t.rows().contains(row),
{
    if t.has_id(id) {
        let p = t.index_of(id);
        assert(t.rows()[p] == t.find(id).unwrap());
    }
}

/// A transaction naming an income source, expense category or bank account
/// that is not stored is refused and changes nothing; one whose every named
/// reference is stored is inserted, while the table has ids left.
pub proof fn transaction_insert_checks_references(
    before: Tables,
    after: Tables,
    source: NewTransaction,
    now: i64,
    r: QueryResult<Transaction>,
)
    requires
        before.transactions.has_room(),
        transaction_repository::inserted(before, after, source, now, r),
    ensures
        (source.income_source_id matches Some(k) && forall|i: int|
            0 <= i < before.income_sources.rows().len() ==> (#[trigger] before.income_sources.rows()[i]).id
                != Some(k)) ==> r == Err::<Transaction, RepoError>(RepoError::ForeignKeyViolation) && after == before,
        (source.expense_category_id matches Some(k) && forall|i: int|
            0 <= i < before.expense_categories.rows().len() ==> (#[trigger] before.expense_categories.rows()[i]).id
                != Some(k)) ==> r == Err::<Transaction, RepoError>(RepoError::ForeignKeyViolation) && after == before,
        (source.revolut_account_id matches Some(k) && !before.revolut_account_ids@.contains(k)) ==> r
            == Err::<Transaction, RepoError>(RepoError::ForeignKeyViolation) && after == before,
        ({
            &&& (source.income_source_id matches Some(k) ==> exists|i: int|
                0 <= i < before.income_sources.rows().len() && (#[trigger] before.income_sources.rows()[i]).id
                    == Some(k))
            &&& (source.expense_category_id matches Some(k) ==> exists|i: int|
                0 <= i < before.expense_categories.rows().len() && (#[trigger] before.expense_categories.rows()[i]).id
                    == Some(k))
            &&& (source.revolut_account_id matches Some(k) ==> before.revolut_account_ids@.contains(k))
        }) ==> r is Ok,
{
}

/// An update of a stored transaction that sets an income source, expense
/// category or bank account that is not stored is refused and changes
/// nothing; one that sets no reference column goes through.
pub proof fn transaction_update_checks_set_references(
    before: Tables,
    after: Tables,
    id: i32,
    changes: UpdateTransaction,
    now: i64,
    r: QueryResult<Option<Transaction>>,
)
    requires
        before.transactions.has_id(id),
        transaction_repository::updated(before, after, id, changes, now, r),
    ensures
        (changes.income_source_id matches Some(Some(k)) && forall|i: int|
            0 <= i < before.income_sources.rows().len() ==> (#[trigger] before.income_sources.rows()[i]).id
                != Some(k)) ==> r == Err::<Option<Transaction>, RepoError>(RepoError::ForeignKeyViolation)
            && after == before,
        (changes.expense_category_id matches Some(Some(k)) && forall|i: int|
            0 <= i < before.expense_categories.rows().len() ==> (#[trigger] before.expense_categories.rows()[i]).id
                != Some(k)) ==> r == Err::<Option<Transaction>, RepoError>(RepoError::ForeignKeyViolation)
            && after == before,
        (changes.revolut_account_id matches Some(Some(k)) && !before.revolut_account_ids@.contains(k)) ==> r
            == Err::<Option<Transaction>, RepoError>(RepoError::ForeignKeyViolation) && after == before,
        (changes.income_source_id matches Some(None) || changes.income_source_id is None)
            && (changes.expense_category_id matches Some(None) || changes.expense_category_id is None)
            && (changes.revolut_account_id matches Some(None) || changes.revolut_account_id is None) ==> r
            matches Ok(Some(_)),
{
}

} // verus!
