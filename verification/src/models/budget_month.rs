//! A month's budget: the spending limit and savings target for one
//! calendar month (`YYYY-MM`) in one currency.

use vstd::prelude::*;
use crate::models::changes::{changed, change_copy, change_text};
use crate::table::Record;

verus! {

/// A stored monthly budget.
#[derive(Debug, Clone, PartialEq)]
pub struct BudgetMonth {
    pub id: Option<i32>,
    pub month: String,
    pub currency: String,
    pub spending_limit_cents: Option<i64>,
    pub savings_target_cents: Option<i64>,
    pub created_at: i64,
    pub updated_at: i64,
}

/// The columns a caller supplies to create a monthly budget.
#[derive(Debug, Clone)]
pub struct NewBudgetMonth {
    pub month: String,
    pub currency: String,
    pub spending_limit_cents: Option<i64>,
    pub savings_target_cents: Option<i64>,
}

/// A change set for a monthly budget: each `None` leaves its column alone.
#[derive(Debug, Clone)]
pub struct UpdateBudgetMonth {
    pub month: Option<String>,
    pub currency: Option<String>,
    // Double Option allows the existing value to be cleared.
    pub spending_limit_cents: Option<Option<i64>>,
    pub savings_target_cents: Option<Option<i64>>,
}

impl Record for BudgetMonth {
    open spec fn spec_id(&self) -> Option<i32> {
        self.id
    }

    fn id(&self) -> (r: Option<i32>) {
        self.id
    }

    fn duplicate(&self) -> (r: Self) {
        BudgetMonth {
            id: self.id,
            month: self.month.clone(),
            currency: self.currency.clone(),
            spending_limit_cents: self.spending_limit_cents,
            savings_target_cents: self.savings_target_cents,
            created_at: self.created_at,
            updated_at: self.updated_at,
        }
    }
}

impl NewBudgetMonth {
    /// The row stored for this request under `id` at time `now`.
    pub open spec fn spec_row(self, id: i32, now: i64) -> BudgetMonth {
        BudgetMonth {
            id: Some(id),
            month: self.month,
            currency: self.currency,
            spending_limit_cents: self.spending_limit_cents,
            savings_target_cents: self.savings_target_cents,
            created_at: now,
            updated_at: now,
        }
    }

    pub fn to_row(&self, id: i32, now: i64) -> (r: BudgetMonth)
        ensures
            r == self.spec_row(id, now),
    {
        BudgetMonth {
            id: Some(id),
            month: self.month.clone(),
            currency: self.currency.clone(),
            spending_limit_cents: self.spending_limit_cents,
            savings_target_cents: self.savings_target_cents,
            created_at: now,
            updated_at: now,
        }
    }
}

impl UpdateBudgetMonth {
    /// The row after this change set has been applied to `row` at time `now`.
    pub open spec fn spec_apply(self, row: BudgetMonth, now: i64) -> BudgetMonth {
        BudgetMonth {
            id: row.id,
            month: changed(self.month, row.month),
            currency: changed(self.currency, row.currency),
            spending_limit_cents: changed(self.spending_limit_cents, row.spending_limit_cents),
            savings_target_cents: changed(self.savings_target_cents, row.savings_target_cents),
            created_at: row.created_at,
            updated_at: now,
        }
    }

    pub fn apply_to(&self, row: &BudgetMonth, now: i64) -> (r: BudgetMonth)
        ensures
            r == self.spec_apply(*row, now),
    {
        BudgetMonth {
            id: row.id,
            month: change_text(&self.month, &row.month),
            currency: change_text(&self.currency, &row.currency),
            spending_limit_cents: change_copy(self.spending_limit_cents, row.spending_limit_cents),
            savings_target_cents: change_copy(self.savings_target_cents, row.savings_target_cents),
            created_at: row.created_at,
            updated_at: now,
        }
    }
}

impl Default for UpdateBudgetMonth {
    /// The change set that changes no column.
    fn default() -> (r: Self)
        ensures
            r.month is None,
            r.currency is None,
            r.spending_limit_cents is None,
            r.savings_target_cents is None,
    {
        UpdateBudgetMonth {
            month: None,
            currency: None,
            spending_limit_cents: None,
            savings_target_cents: None,
        }
    }
}

} // verus!
