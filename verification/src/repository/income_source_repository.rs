//! Creating, reading, changing and deleting income sources.

use vstd::prelude::*;
use crate::clock::unix_now;
use crate::db::database::{Database, Tables};
use crate::error::{QueryResult, RepoError};
use crate::models::income_source::{IncomeSource, NewIncomeSource, UpdateIncomeSource};
use crate::table::{Record, Table};

verus! {

/// What inserting `source` at time `now` answers and leaves behind: the
/// row gets the next id and both timestamps `now`, and is placed after
/// every other row; when no id is left, nothing changes.
pub open spec fn inserted(
    before: Tables,
    after: Tables,
    source: NewIncomeSource,
    now: i64,
    r: QueryResult<IncomeSource>,
) -> bool {
    let t = before.income_sources;
    if t.has_room() {
        let row = source.spec_row(t.next_id() as i32, now);
        &&& r == Ok::<IncomeSource, RepoError>(row)
        &&& after.income_sources.rows() == t.rows().push(row)
        &&& after.income_sources.next_id() == t.next_id() + 1
        &&& after.same_besides_income_sources(before)
    } else {
        &&& r == Err::<IncomeSource, RepoError>(RepoError::IdsExhausted)
        &&& after == before
    }
}

/// What applying `changes` to row `id` at time `now` answers and leaves
/// behind: `None` and no change when there is no such row.
pub open spec fn updated(
    before: Tables,
    after: Tables,
    id: i32,
    changes: UpdateIncomeSource,
    now: i64,
    r: QueryResult<Option<IncomeSource>>,
) -> bool {
    let t = before.income_sources;
    match t.find(id) {
        None => {
            &&& r == Ok::<Option<IncomeSource>, RepoError>(None)
            &&& after == before
        },
        Some(row) => {
            let new_row = changes.spec_apply(row, now);
            &&& r == Ok::<Option<IncomeSource>, RepoError>(Some(new_row))
            &&& after.income_sources.rows() == t.rows().update(t.index_of(id), new_row)
            &&& after.income_sources.next_id() == t.next_id()
            &&& after.same_besides_income_sources(before)
        },
    }
}

/// What deleting row `id` answers and leaves behind: a row that some
/// transaction still names is kept and the deletion refused.
pub open spec fn deleted(before: Tables, after: Tables, id: i32, r: QueryResult<bool>) -> bool {
    let t = before.income_sources;
    if !t.has_id(id) {
        &&& r == Ok::<bool, RepoError>(false)
        &&& after == before
    } else if before.income_source_in_use(id) {
        &&& r == Err::<bool, RepoError>(RepoError::ForeignKeyViolation)
        &&& after == before
    } else {
        &&& r == Ok::<bool, RepoError>(true)
        &&& after.income_sources.rows() == t.rows().remove(t.index_of(id))
        &&& after.income_sources.next_id() == t.next_id()
        &&& after.same_besides_income_sources(before)
    }
}

/// Inserts `source` with `now` as its creation time.
fn insert_into(connection: &mut Tables, source: &NewIncomeSource, now: i64) -> (r: QueryResult<IncomeSource>)
    requires
        old(connection).wf(),
    ensures
        final(connection).wf(),
        old(connection).integrity() ==> final(connection).integrity(),
        inserted(*old(connection), *final(connection), *source, now, r),
{
    match connection.income_sources.next_free_id() {
        None => Err(RepoError::IdsExhausted),
        Some(id) => {
            let row = source.to_row(id, now);
            let out = row.duplicate();
            connection.income_sources.append(row);
            proof {
                let b = *old(connection);
                let a = *connection;
                Table::lemma_push_keeps_ids(b.income_sources, a.income_sources, out);
                if b.integrity() {
                    Tables::lemma_income_sources_kept(b, a);
                }
            }
            Ok(out)
        },
    }
}

/// Inserts `source` with `now` as its creation time.
pub fn insert_at(connection: &mut Database, source: &NewIncomeSource, now: i64) -> (r: QueryResult<IncomeSource>)
    ensures
        old(connection)@.integrity() ==> final(connection)@.integrity(),
        inserted(old(connection)@, final(connection)@, *source, now, r),
{
    let mut t = connection.take();
    let r = insert_into(&mut t, source, now);
    connection.put(t);
    r
}

/// Inserts `source`, stamped with the current time, and returns the stored
/// row.
pub fn insert(connection: &mut Database, source: &NewIncomeSource) -> (r: QueryResult<IncomeSource>)
    ensures
        old(connection)@.integrity() ==> final(connection)@.integrity(),
        exists|now: i64| inserted(old(connection)@, final(connection)@, *source, now, r),
{
    let now = unix_now();
    insert_at(connection, source, now)
}

/// Every income source, in ascending id order.
pub fn get_all(connection: &mut Database) -> (r: QueryResult<Vec<IncomeSource>>)
    ensures
        *final(connection) == *old(connection),
        r matches Ok(rows) && rows@ == old(connection)@.income_sources.rows(),
{
    Ok(connection.tables().income_sources.all())
}

/// The income source stored under `id`, if any.
pub fn get_by_id(connection: &mut Database, id: i32) -> (r: QueryResult<Option<IncomeSource>>)
    ensures
        *final(connection) == *old(connection),
        r == Ok::<Option<IncomeSource>, RepoError>(old(connection)@.income_sources.find(id)),
{
    Ok(connection.tables().income_sources.get(id))
}

/// Applies `changes` to row `source_id` with `now` as its update time.
fn update_in(
    connection: &mut Tables,
    source_id: i32,
    changes: &UpdateIncomeSource,
    now: i64,
) -> (r: QueryResult<Option<IncomeSource>>)
    requires
        old(connection).wf(),
    ensures
        final(connection).wf(),
        old(connection).integrity() ==> final(connection).integrity(),
        updated(*old(connection), *final(connection), source_id, *changes, now, r),
{
    match connection.income_sources.position(source_id) {
        None => Ok(None),
        Some(p) => {
            let new_row = changes.apply_to(&connection.income_sources.as_slice()[p], now);
            let out = new_row.duplicate();
            connection.income_sources.replace_at(p, new_row);
            proof {
                let b = *old(connection);
                let a = *connection;
                Table::lemma_update_keeps_ids(b.income_sources, a.income_sources, p as int, out);
                if b.integrity() {
                    Tables::lemma_income_sources_kept(b, a);
                }
            }
            Ok(Some(out))
        },
    }
}

/// Applies `changes` to row `source_id` with `now` as its update time.
pub fn update_at(
    connection: &mut Database,
    source_id: i32,
    changes: &UpdateIncomeSource,
    now: i64,
) -> (r: QueryResult<Option<IncomeSource>>)
    ensures
        old(connection)@.integrity() ==> final(connection)@.integrity(),
        updated(old(connection)@, final(connection)@, source_id, *changes, now, r),
{
    let mut t = connection.take();
    let r = update_in(&mut t, source_id, changes, now);
    connection.put(t);
    r
}

/// Applies `changes` to row `source_id`, stamping the current time, and
/// returns the changed row; `None` when there is no such row.
pub fn update(connection: &mut Database, source_id: i32, changes: &UpdateIncomeSource) -> (r: QueryResult<
    Option<IncomeSource>,
>)
    ensures
        old(connection)@.integrity() ==> final(connection)@.integrity(),
        exists|now: i64| updated(old(connection)@, final(connection)@, source_id, *changes, now, r),
{
    let now = unix_now();
    update_at(connection, source_id, changes, now)
}

/// Deletes row `source_id`; answers whether there was one. A row that a
/// transaction still names is not deleted.
fn delete_from(connection: &mut Tables, source_id: i32) -> (r: QueryResult<bool>)
    requires
        old(connection).wf(),
    ensures
        final(connection).wf(),
        old(connection).integrity() ==> final(connection).integrity(),
        deleted(*old(connection), *final(connection), source_id, r),
{
    match connection.income_sources.position(source_id) {
        None => Ok(false),
        Some(p) => {
            if connection.income_source_is_used(source_id) {
                return Err(RepoError::ForeignKeyViolation);
            }
            connection.income_sources.remove_at(p);
            proof {
                let b = *old(connection);
                let a = *connection;
                Table::lemma_remove_keeps_ids(b.income_sources, a.income_sources, p as int);
                if b.integrity() {
                    Tables::lemma_income_source_dropped(b, a, source_id);
                }
            }
            Ok(true)
        },
    }
}

/// Deletes row `source_id`; answers whether there was one. A row that a
/// transaction still names is not deleted.
pub fn delete(connection: &mut Database, source_id: i32) -> (r: QueryResult<bool>)
    ensures
        old(connection)@.integrity() ==> final(connection)@.integrity(),
        deleted(old(connection)@, final(connection)@, source_id, r),
{
    let mut t = connection.take();
    let r = delete_from(&mut t, source_id);
    connection.put(t);
    r
}

} // verus!
