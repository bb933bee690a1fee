//! A money movement: an expense booked against a category or an income
//! booked against an income source, entered by hand or imported from a
//! bank account.

use vstd::prelude::*;
use crate::models::changes::{changed, change_copy, change_text, change_text_opt, copy_text_opt};
use crate::table::Record;

verus! {

/// A stored transaction.
#[derive(Debug, Clone, PartialEq)]
pub struct Transaction {
    pub id: Option<i32>,
    pub source_type: String,
    pub transaction_type: String,
    pub amount_cents: i64,
    pub currency: String,
    pub description: String,
    pub occurred_at: i64,
    pub income_source_id: Option<i32>,
    pub expense_category_id: Option<i32>,
    pub external_id: Option<String>,
    pub revolut_account_id: Option<i32>,
    pub merchant_name: Option<String>,
    pub raw_description: Option<String>,
    pub revolut_category: Option<String>,
    pub status: String,
    pub completed_at: Option<i64>,
    pub exclude_from_totals: bool,
    pub created_at: i64,
    pub updated_at: i64,
}

/// The columns a caller supplies to create a transaction.
#[derive(Debug, Clone)]
pub struct NewTransaction {
    pub source_type: String,
    pub transaction_type: String,
    pub amount_cents: i64,
    pub currency: String,
    pub description: String,
    pub occurred_at: i64,
    pub income_source_id: Option<i32>,
    pub expense_category_id: Option<i32>,
    pub external_id: Option<String>,
    pub revolut_account_id: Option<i32>,
    pub merchant_name: Option<String>,
    pub raw_description: Option<String>,
    pub revolut_category: Option<String>,
    pub status: String,
    pub completed_at: Option<i64>,
    pub exclude_from_totals: bool,
}

/// A change set for a transaction: each `None` leaves its column alone.
#[derive(Debug, Clone)]
pub struct UpdateTransaction {
    pub source_type: Option<String>,
    pub transaction_type: Option<String>,
    pub amount_cents: Option<i64>,
    pub currency: Option<String>,
    pub description: Option<String>,
    pub occurred_at: Option<i64>,
    // These use Option<Option<T>> because the columns are nullable.
    pub income_source_id: Option<Option<i32>>,
    pub expense_category_id: Option<Option<i32>>,
    pub external_id: Option<Option<String>>,
    pub revolut_account_id: Option<Option<i32>>,
    pub merchant_name: Option<Option<String>>,
    pub raw_description: Option<Option<String>>,
    pub revolut_category: Option<Option<String>>,
    pub status: Option<String>,
    pub completed_at: Option<Option<i64>>,
    pub exclude_from_totals: Option<bool>,
}

impl Record for Transaction {
    open spec fn spec_id(&self) -> Option<i32> {
        self.id
    }

    fn id(&self) -> (r: Option<i32>) {
        self.id
    }

    fn duplicate(&self) -> (r: Self) {
        Transaction {
            id: self.id,
            source_type: self.source_type.clone(),
            transaction_type: self.transaction_type.clone(),
            amount_cents: self.amount_cents,
            currency: self.currency.clone(),
            description: self.description.clone(),
            occurred_at: self.occurred_at,
            income_source_id: self.income_source_id,
            expense_category_id: self.expense_category_id,
            external_id: copy_text_opt(&self.external_id),
            revolut_account_id: self.revolut_account_id,
            merchant_name: copy_text_opt(&self.merchant_name),
            raw_description: copy_text_opt(&self.raw_description),
            revolut_category: copy_text_opt(&self.revolut_category),
            status: self.status.clone(),
            completed_at: self.completed_at,
            exclude_from_totals: self.exclude_from_totals,
            created_at: self.created_at,
            updated_at: self.updated_at,
        }
    }
}

impl NewTransaction {
    /// The row stored for this request under `id` at time `now`.
    pub open spec fn spec_row(self, id: i32, now: i64) -> Transaction {
        Transaction {
            id: Some(id),
            source_type: self.source_type,
            transaction_type: self.transaction_type,
            amount_cents: self.amount_cents,
            currency: self.currency,
            description: self.description,
            occurred_at: self.occurred_at,
            income_source_id: self.income_source_id,
            expense_category_id: self.expense_category_id,
            external_id: self.external_id,
            revolut_account_id: self.revolut_account_id,
            merchant_name: self.merchant_name,
            raw_description: self.raw_description,
            revolut_category: self.revolut_category,
            status: self.status,
            completed_at: self.completed_at,
            exclude_from_totals: self.exclude_from_totals,
            created_at: now,
            updated_at: now,
        }
    }

    pub fn to_row(&self, id: i32, now: i64) -> (r: Transaction)
        ensures
            r == self.spec_row(id, now),
    {
        Transaction {
            id: Some(id),
            source_type: self.source_type.clone(),
            transaction_type: self.transaction_type.clone(),
            amount_cents: self.amount_cents,
            currency: self.currency.clone(),
            description: self.description.clone(),
            occurred_at: self.occurred_at,
            income_source_id: self.income_source_id,
            expense_category_id: self.expense_category_id,
            external_id: copy_text_opt(&self.external_id),
            revolut_account_id: self.revolut_account_id,
            merchant_name: copy_text_opt(&self.merchant_name),
            raw_description: copy_text_opt(&self.raw_description),
            revolut_category: copy_text_opt(&self.revolut_category),
            status: self.status.clone(),
            completed_at: self.completed_at,
            exclude_from_totals: self.exclude_from_totals,
            created_at: now,
            updated_at: now,
        }
    }
}

impl UpdateTransaction {
    /// The row after this change set has been applied to `row` at time `now`.
    pub open spec fn spec_apply(self, row: Transaction, now: i64) -> Transaction {
        Transaction {
            id: row.id,
            source_type: changed(self.source_type, row.source_type),
            transaction_type: changed(self.transaction_type, row.transaction_type),
            amount_cents: changed(self.amount_cents, row.amount_cents),
            currency: changed(self.currency, row.currency),
            description: changed(self.description, row.description),
            occurred_at: changed(self.occurred_at, row.occurred_at),
            income_source_id: changed(self.income_source_id, row.income_source_id),
            expense_category_id: changed(self.expense_category_id, row.expense_category_id),
            external_id: changed(self.external_id, row.external_id),
            revolut_account_id: changed(self.revolut_account_id, row.revolut_account_id),
            merchant_name: changed(self.merchant_name, row.merchant_name),
            raw_description: changed(self.raw_description, row.raw_description),
            revolut_category: changed(self.revolut_category, row.revolut_category),
            status: changed(self.status, row.status),
            completed_at: changed(self.completed_at, row.completed_at),
            exclude_from_totals: changed(self.exclude_from_totals, row.exclude_from_totals),
            created_at: row.created_at,
            updated_at: now,
        }
    }

    pub fn apply_to(&self, row: &Transaction, now: i64) -> (r: Transaction)
        ensures
            r == self.spec_apply(*row, now),
    {
        Transaction {
            id: row.id,
            source_type: change_text(&self.source_type, &row.source_type),
            transaction_type: change_text(&self.transaction_type, &row.transaction_type),
            amount_cents: change_copy(self.amount_cents, row.amount_cents),
            currency: change_text(&self.currency, &row.currency),
            description: change_text(&self.description, &row.description),
            occurred_at: change_copy(self.occurred_at, row.occurred_at),
            income_source_id: change_copy(self.income_source_id, row.income_source_id),
            expense_category_id: change_copy(self.expense_category_id, row.expense_category_id),
            external_id: change_text_opt(&self.external_id, &row.external_id),
            revolut_account_id: change_copy(self.revolut_account_id, row.revolut_account_id),
            merchant_name: change_text_opt(&self.merchant_name, &row.merchant_name),
            raw_description: change_text_opt(&self.raw_description, &row.raw_description),
            revolut_category: change_text_opt(&self.revolut_category, &row.revolut_category),
            status: change_text(&self.status, &row.status),
            completed_at: change_copy(self.completed_at, row.completed_at),
            exclude_from_totals: change_copy(self.exclude_from_totals, row.exclude_from_totals),
            created_at: row.created_at,
            updated_at: now,
        }
    }
}

impl Default for UpdateTransaction {
    /// The change set that changes no column.
    fn default() -> (r: Self)
        ensures
            r.source_type is None,
            r.transaction_type is None,
            r.amount_cents is None,
            r.currency is None,
            r.description is None,
            r.occurred_at is None,
            r.income_source_id is None,
            r.expense_category_id is None,
            r.external_id is None,
            r.revolut_account_id is None,
            r.merchant_name is None,
            r.raw_description is None,
            r.revolut_category is None,
            r.status is None,
            r.completed_at is None,
            r.exclude_from_totals is None,
    {
        UpdateTransaction {
            source_type: None,
            transaction_type: None,
            amount_cents: None,
            currency: None,
            description: None,
            occurred_at: None,
            income_source_id: None,
            expense_category_id: None,
            external_id: None,
            revolut_account_id: None,
            merchant_name: None,
            raw_description: None,
            revolut_category: None,
            status: None,
            completed_at: None,
            exclude_from_totals: None,
        }
    }
}

} // verus!
