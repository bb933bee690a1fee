//! How a single column of a change set acts on a stored value: `None`
//! leaves the column as it is, `Some(v)` writes `v`. For a nullable column
//! the written value is itself optional, so `Some(None)` clears it.

use vstd::prelude::*;

verus! {

/// The value of a column after a change set entry has been applied to it.
pub open spec fn changed<T>(change: Option<T>, current: T) -> T {
    match change {
        Some(v) => v,
        None => current,
    }
}

/// Applies a change to a column of a plain copyable type.
pub fn change_copy<T: Copy>(change: Option<T>, current: T) -> (r: T)
    ensures
        r == changed(change, current),
{
    match change {
        Some(v) => v,
        None => current,
    }
}

/// A copy of an optional text value.
pub fn copy_text_opt(value: &Option<String>) -> (r: Option<String>)
    ensures
        r == *value,
{
    match value {
        Some(s) => Some(s.clone()),
        None => None,
    }
}

/// Applies a change to a text column.
pub fn change_text(change: &Option<String>, current: &String) -> (r: String)
    ensures
        r == changed(*change, *current),
{
    match change {
        Some(v) => v.clone(),
        None => current.clone(),
    }
}

/// Applies a change to a nullable text column.
pub fn change_text_opt(change: &Option<Option<String>>, current: &Option<String>) -> (r: Option<String>)
    ensures
        r == changed(*change, *current),
{
    match change {
        Some(v) => copy_text_opt(v),
        None => copy_text_opt(current),
    }
}

} // verus!
