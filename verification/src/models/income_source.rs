//! A source of income, such as a salary.

use vstd::prelude::*;
use crate::models::changes::{changed, change_copy, change_text};
use crate::table::Record;

verus! {

/// A stored income source.
#[derive(Debug, Clone, PartialEq)]
pub struct IncomeSource {
    pub id: Option<i32>,
    pub name: String,
    pub is_active: bool,
    pub created_at: i64,
    pub updated_at: i64,
}

/// The columns a caller supplies to create an income source.
#[derive(Debug, Clone)]
pub struct NewIncomeSource {
    pub name: String,
    pub is_active: bool,
}

/// A change set for an income source: each `None` leaves its column alone.
#[derive(Debug, Clone)]
pub struct UpdateIncomeSource {
    pub name: Option<String>,
    pub is_active: Option<bool>,
}

impl Record for IncomeSource {
    open spec fn spec_id(&self) -> Option<i32> {
        self.id
    }

    fn id(&self) -> (r: Option<i32>) {
        self.id
    }

    fn duplicate(&self) -> (r: Self) {
        IncomeSource {
            id: self.id,
            name: self.name.clone(),
            is_active: self.is_active,
            created_at: self.created_at,
            updated_at: self.updated_at,
        }
    }
}

impl NewIncomeSource {
    /// The row stored for this request under `id` at time `now`.
    pub open spec fn spec_row(self, id: i32, now: i64) -> IncomeSource {
        IncomeSource {
            id: Some(id),
            name: self.name,
            is_active: self.is_active,
            created_at: now,
            updated_at: now,
        }
    }

    pub fn to_row(&self, id: i32, now: i64) -> (r: IncomeSource)
        ensures
            r == self.spec_row(id, now),
    {
        IncomeSource {
            id: Some(id),
            name: self.name.clone(),
            is_active: self.is_active,
            created_at: now,
            updated_at: now,
        }
    }
}

impl UpdateIncomeSource {
    /// The row after this change set has been applied to `row` at time `now`.
    pub open spec fn spec_apply(self, row: IncomeSource, now: i64) -> IncomeSource {
        IncomeSource {
            id: row.id,
            name: changed(self.name, row.name),
            is_active: changed(self.is_active, row.is_active),
            created_at: row.created_at,
            updated_at: now,
        }
    }

    pub fn apply_to(&self, row: &IncomeSource, now: i64) -> (r: IncomeSource)
        ensures
            r == self.spec_apply(*row, now),
    {
        IncomeSource {
            id: row.id,
            name: change_text(&self.name, &row.name),
            is_active: change_copy(self.is_active, row.is_active),
            created_at: row.created_at,
            updated_at: now,
        }
    }
}

impl Default for UpdateIncomeSource {
    /// The change set that changes no column.
    fn default() -> (r: Self)
        ensures
            r.name is None,
            r.is_active is None,
    {
        UpdateIncomeSource { name: None, is_active: None }
    }
}

} // verus!
