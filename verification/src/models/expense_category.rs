//! A category that expenses are booked against.

use vstd::prelude::*;
use crate::models::changes::{changed, change_copy, change_text, change_text_opt, copy_text_opt};
use crate::table::Record;

verus! {

/// A stored expense category.
#[derive(Debug, Clone, PartialEq)]
pub struct ExpenseCategory {
    pub id: Option<i32>,
    pub name: String,
    pub icon: Option<String>,
    pub color: Option<String>,
    pub is_default: bool,
    pub is_active: bool,
    pub created_at: i64,
    pub updated_at: i64,
}

/// The columns a caller supplies to create an expense category.
#[derive(Debug, Clone)]
pub struct NewExpenseCategory {
    pub name: String,
    pub icon: Option<String>,
    pub color: Option<String>,
    pub is_default: bool,
    pub is_active: bool,
}

/// A change set for an expense category: each `None` leaves its column
/// alone.
#[derive(Debug, Clone)]
pub struct UpdateExpenseCategory {
    pub name: Option<String>,
    // None                 = do not update
    // Some(None)           = set the value to NULL
    // Some(Some("icon"))   = update the value
    pub icon: Option<Option<String>>,
    pub color: Option<Option<String>>,
    pub is_default: Option<bool>,
    pub is_active: Option<bool>,
}

impl Record for ExpenseCategory {
    open spec fn spec_id(&self) -> Option<i32> {
        self.id
    }

    fn id(&self) -> (r: Option<i32>) {
        self.id
    }

    fn duplicate(&self) -> (r: Self) {
        ExpenseCategory {
            id: self.id,
            name: self.name.clone(),
            icon: copy_text_opt(&self.icon),
            color: copy_text_opt(&self.color),
            is_default: self.is_default,
            is_active: self.is_active,
            created_at: self.created_at,
            updated_at: self.updated_at,
        }
    }
}

impl NewExpenseCategory {
    /// The row stored for this request under `id` at time `now`.
    pub open spec fn spec_row(self, id: i32, now: i64) -> ExpenseCategory {
        ExpenseCategory {
            id: Some(id),
            name: self.name,
            icon: self.icon,
            color: self.color,
            is_default: self.is_default,
            is_active: self.is_active,
            created_at: now,
            updated_at: now,
        }
    }

    pub fn to_row(&self, id: i32, now: i64) -> (r: ExpenseCategory)
        ensures
            r == self.spec_row(id, now),
    {
        ExpenseCategory {
            id: Some(id),
            name: self.name.clone(),
            icon: copy_text_opt(&self.icon),
            color: copy_text_opt(&self.color),
            is_default: self.is_default,
            is_active: self.is_active,
            created_at: now,
            updated_at: now,
        }
    }
}

impl UpdateExpenseCategory {
    /// The row after this change set has been applied to `row` at time `now`.
    pub open spec fn spec_apply(self, row: ExpenseCategory, now: i64) -> ExpenseCategory {
        ExpenseCategory {
            id: row.id,
            name: changed(self.name, row.name),
            icon: changed(self.icon, row.icon),
            color: changed(self.color, row.color),
            is_default: changed(self.is_default, row.is_default),
            is_active: changed(self.is_active, row.is_active),
            created_at: row.created_at,
            updated_at: now,
        }
    }

    pub fn apply_to(&self, row: &ExpenseCategory, now: i64) -> (r: ExpenseCategory)
        ensures
            r == self.spec_apply(*row, now),
    {
        ExpenseCategory {
            id: row.id,
            name: change_text(&self.name, &row.name),
            icon: change_text_opt(&self.icon, &row.icon),
            color: change_text_opt(&self.color, &row.color),
            is_default: change_copy(self.is_default, row.is_default),
            is_active: change_copy(self.is_active, row.is_active),
            created_at: row.created_at,
            updated_at: now,
        }
    }
}

impl Default for UpdateExpenseCategory {
    /// The change set that changes no column.
    fn default() -> (r: Self)
        ensures
            r.name is None,
            r.icon is None,
            r.color is None,
            r.is_default is None,
            r.is_active is None,
    {
        UpdateExpenseCategory { name: None, icon: None, color: None, is_default: None, is_active: None }
    }
}

} // verus!
