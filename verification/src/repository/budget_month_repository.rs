//! Creating, reading, changing and deleting monthly budgets.

use vstd::prelude::*;
use crate::clock::unix_now;
use crate::db::database::{Database, Tables};
use crate::error::{QueryResult, RepoError};
use crate::models::budget_month::{BudgetMonth, NewBudgetMonth, UpdateBudgetMonth};
use crate::table::Record;

verus! {

/// What inserting `source` at time `now` answers and leaves behind: the
/// row gets the next id and both timestamps `now`, and is placed after
/// every other row; when no id is left, nothing changes.
pub open spec fn inserted(
    before: Tables,
    after: Tables,
    source: NewBudgetMonth,
    now: i64,
    r: QueryResult<BudgetMonth>,
) -> bool {
    let t = before.budget_months;
    if t.has_room() {
        let row = source.spec_row(t.next_id() as i32, now);
        &&& r == Ok::<BudgetMonth, RepoError>(row)
        &&& after.budget_months.rows() == t.rows().push(row)
        &&& after.budget_months.next_id() == t.next_id() + 1
        &&& after.same_besides_budget_months(before)
    } else {
        &&& r == Err::<BudgetMonth, RepoError>(RepoError::IdsExhausted)
        &&& after == before
    }
}

/// What applying `changes` to row `source_id` at time `now` answers and
/// leaves behind: `None` and no change when there is no such row.
pub open spec fn updated(
    before: Tables,
    after: Tables,
    source_id: i32,
    changes: UpdateBudgetMonth,
    now: i64,
    r: QueryResult<Option<BudgetMonth>>,
) -> bool {
    let t = before.budget_months;
    match t.find(source_id) {
        None => {
            &&& r == Ok::<Option<BudgetMonth>, RepoError>(None)
            &&& after == before
        },
        Some(row) => {
            let new_row = changes.spec_apply(row, now);
            &&& r == Ok::<Option<BudgetMonth>, RepoError>(Some(new_row))
            &&& after.budget_months.rows() == t.rows().update(t.index_of(source_id), new_row)
            &&& after.budget_months.next_id() == t.next_id()
            &&& after.same_besides_budget_months(before)
        },
    }
}

/// What deleting row `source_id` answers and leaves behind.
pub open spec fn deleted(before: Tables, after: Tables, source_id: i32, r: QueryResult<bool>) -> bool {
    let t = before.budget_months;
    if t.has_id(source_id) {
        &&& r == Ok::<bool, RepoError>(true)
        &&& after.budget_months.rows() == t.rows().remove(t.index_of(source_id))
        &&& after.budget_months.next_id() == t.next_id()
        &&& after.same_besides_budget_months(before)
    } else {
        &&& r == Ok::<bool, RepoError>(false)
        &&& after == before
    }
}

/// Inserts `source` with `now` as its creation time.
fn insert_into(connection: &mut Tables, source: &NewBudgetMonth, now: i64) -> (r: QueryResult<BudgetMonth>)
    requires
        old(connection).wf(),
    ensures
        final(connection).wf(),
        old(connection).integrity() ==> final(connection).integrity(),
        inserted(*old(connection), *final(connection), *source, now, r),
{
    match connection.budget_months.next_free_id() {
        None => Err(RepoError::IdsExhausted),
        Some(id) => {
            let row = source.to_row(id, now);
            let out = row.duplicate();
            connection.budget_months.append(row);
            Ok(out)
        },
    }
}

/// Inserts `source` with `now` as its creation time.
pub fn insert_at(connection: &mut Database, source: &NewBudgetMonth, now: i64) -> (r: QueryResult<BudgetMonth>)
    ensures
        old(connection)@.integrity() ==> final(connection)@.integrity(),
        inserted(old(connection)@, final(connection)@, *source, now, r),
{
    let mut t = connection.take();
    let r = insert_into(&mut t, source, now);
    connection.put(t);
    r
}

/// Inserts `source`, stamped with the current time, and returns the stored
/// row.
pub fn insert(connection: &mut Database, source: &NewBudgetMonth) -> (r: QueryResult<BudgetMonth>)
    ensures
        old(connection)@.integrity() ==> final(connection)@.integrity(),
        exists|now: i64| inserted(old(connection)@, final(connection)@, *source, now, r),
{
    let now = unix_now();
    insert_at(connection, source, now)
}

/// Every monthly budget, in ascending id order.
pub fn get_all(connection: &mut Database) -> (r: QueryResult<Vec<BudgetMonth>>)
    ensures
        *final(connection) == *old(connection),
        r matches Ok(rows) && rows@ == old(connection)@.budget_months.rows(),
{
    Ok(connection.tables().budget_months.all())
}

/// The monthly budget stored under `source_id`, if any.
pub fn get_id(connection: &mut Database, source_id: i32) -> (r: QueryResult<Option<BudgetMonth>>)
    ensures
        *final(connection) == *old(connection),
        r == Ok::<Option<BudgetMonth>, RepoError>(old(connection)@.budget_months.find(source_id)),
{
    Ok(connection.tables().budget_months.get(source_id))
}

/// Applies `changes` to row `source_id` with `now` as its update time.
fn update_in(
    connection: &mut Tables,
    source_id: i32,
    changes: &UpdateBudgetMonth,
    now: i64,
) -> (r: QueryResult<Option<BudgetMonth>>)
    requires
        old(connection).wf(),
    ensures
        final(connection).wf(),
        old(connection).integrity() ==> final(connection).integrity(),
        updated(*old(connection), *final(connection), source_id, *changes, now, r),
{
    match connection.budget_months.position(source_id) {
        None => Ok(None),
        Some(p) => {
            let new_row = changes.apply_to(&connection.budget_months.as_slice()[p], now);
            let out = new_row.duplicate();
            connection.budget_months.replace_at(p, new_row);
            Ok(Some(out))
        },
    }
}

/// Applies `changes` to row `source_id` with `now` as its update time.
pub fn update_at(
    connection: &mut Database,
    source_id: i32,
    changes: &UpdateBudgetMonth,
    now: i64,
) -> (r: QueryResult<Option<BudgetMonth>>)
    ensures
        old(connection)@.integrity() ==> final(connection)@.integrity(),
        updated(old(connection)@, final(connection)@, source_id, *changes, now, r),
{
    let mut t = connection.take();
    let r = update_in(&mut t, source_id, changes, now);
    connection.put(t);
    r
}

/// Applies `changes` to row `source_id`, stamping the current time, and
/// returns the changed row; `None` when there is no such row.
pub fn update(connection: &mut Database, source_id: i32, changes: &UpdateBudgetMonth) -> (r: QueryResult<
    Option<BudgetMonth>,
>)
    ensures
        old(connection)@.integrity() ==> final(connection)@.integrity(),
        exists|now: i64| updated(old(connection)@, final(connection)@, source_id, *changes, now, r),
{
    let now = unix_now();
    update_at(connection, source_id, changes, now)
}

/// Deletes row `source_id`; answers whether there was one.
fn delete_from(connection: &mut Tables, source_id: i32) -> (r: QueryResult<bool>)
    requires
        old(connection).wf(),
    ensures
        final(connection).wf(),
        old(connection).integrity() ==> final(connection).integrity(),
        deleted(*old(connection), *final(connection), source_id, r),
{
    match connection.budget_months.position(source_id) {
        None => Ok(false),
        Some(p) => {
            connection.budget_months.remove_at(p);
            Ok(true)
        },
    }
}

/// Deletes row `source_id`; answers whether there was one.
pub fn delete(connection: &mut Database, source_id: i32) -> (r: QueryResult<bool>)
    ensures
        old(connection)@.integrity() ==> final(connection)@.integrity(),
        deleted(old(connection)@, final(connection)@, source_id, r),
{
    let mut t = connection.take();
    let r = delete_from(&mut t, source_id);
    connection.put(t);
    r
}

} // verus!
