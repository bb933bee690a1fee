//! Creating, reading, changing and deleting transactions.

use vstd::prelude::*;
use crate::clock::unix_now;
use crate::db::database::{Database, Tables};
use crate::error::{QueryResult, RepoError};
use crate::models::transaction::{NewTransaction, Transaction, UpdateTransaction};
use crate::table::Record;

verus! {

/// What inserting `source` at time `now` answers and leaves behind: the
/// row gets the next id and both timestamps `now`, and is placed after
/// every other row. Nothing changes when no id is left, or when the row
/// names an income source, expense category or bank account that is not
/// stored.
pub open spec fn inserted(
    before: Tables,
    after: Tables,
    source: NewTransaction,
    now: i64,
    r: QueryResult<Transaction>,
) -> bool {
    let t = before.transactions;
    let row = source.spec_row(t.next_id() as i32, now);
    if !t.has_room() {
        &&& r == Err::<Transaction, RepoError>(RepoError::IdsExhausted)
        &&& after == before
    } else if !before.transaction_refs_ok(row) {
        &&& r == Err::<Transaction, RepoError>(RepoError::ForeignKeyViolation)
        &&& after == before
    } else {
        &&& r == Ok::<Transaction, RepoError>(row)
        &&& after.transactions.rows() == t.rows().push(row)
        &&& after.transactions.next_id() == t.next_id() + 1
        &&& after.same_besides_transactions(before)
    }
}

/// What applying `changes` to row `id` at time `now` answers and leaves
/// behind: `None` and no change when there is no such row; a refusal and
/// no change when a reference column the change set sets names a row that
/// is not stored. Reference columns the change set leaves alone are not
/// checked.
pub open spec fn updated(
    before: Tables,
    after: Tables,
    id: i32,
    changes: UpdateTransaction,
    now: i64,
    r: QueryResult<Option<Transaction>>,
) -> bool {
    let t = before.transactions;
    match t.find(id) {
        None => {
            &&& r == Ok::<Option<Transaction>, RepoError>(None)
            &&& after == before
        },
        Some(row) => {
            let new_row = changes.spec_apply(row, now);
            if before.changed_refs_ok(changes) {
                &&& r == Ok::<Option<Transaction>, RepoError>(Some(new_row))
                &&& after.transactions.rows() == t.rows().update(t.index_of(id), new_row)
                &&& after.transactions.next_id() == t.next_id()
                &&& after.same_besides_transactions(before)
            } else {
                &&& r == Err::<Option<Transaction>, RepoError>(RepoError::ForeignKeyViolation)
                &&& after == before
            }
        },
    }
}

/// What deleting row `id` answers and leaves behind.
pub open spec fn deleted(before: Tables, after: Tables, id: i32, r: QueryResult<bool>) -> bool {
    let t = before.transactions;
    if t.has_id(id) {
        &&& r == Ok::<bool, RepoError>(true)
        &&& after.transactions.rows() == t.rows().remove(t.index_of(id))
        &&& after.transactions.next_id() == t.next_id()
        &&& after.same_besides_transactions(before)
    } else {
        &&& r == Ok::<bool, RepoError>(false)
        &&& after == before
    }
}

/// Inserts `source` with `now` as its creation time.
fn insert_into(connection: &mut Tables, source: &NewTransaction, now: i64) -> (r: QueryResult<Transaction>)
    requires
        old(connection).wf(),
    ensures
        final(connection).wf(),
        old(connection).integrity() ==> final(connection).integrity(),
        inserted(*old(connection), *final(connection), *source, now, r),
{
    match connection.transactions.next_free_id() {
        None => Err(RepoError::IdsExhausted),
        Some(id) => {
            let row = source.to_row(id, now);
            if !connection.transaction_refs_valid(&row) {
                return Err(RepoError::ForeignKeyViolation);
            }
            let out = row.duplicate();
            connection.transactions.append(row);
            proof {
                let b = *old(connection);
                let a = *connection;
                if b.integrity() {
                    assert forall|i: int| 0 <= i < a.transactions.rows().len() implies b.transaction_refs_ok(
                        #[trigger] a.transactions.rows()[i],
                    ) by {
                        if i < b.transactions.rows().len() {
                            assert(a.transactions.rows()[i] == b.transactions.rows()[i]);
                        }
                    }
                    Tables::lemma_transactions_resolve(b, a);
                }
            }
            Ok(out)
        },
    }
}

/// Inserts `source` with `now` as its creation time.
pub fn insert_at(connection: &mut Database, source: &NewTransaction, now: i64) -> (r: QueryResult<Transaction>)
    ensures
        old(connection)@.integrity() ==> final(connection)@.integrity(),
        inserted(old(connection)@, final(connection)@, *source, now, r),
{
    let mut t = connection.take();
    let r = insert_into(&mut t, source, now);
    connection.put(t);
    r
}

/// Inserts `source`, stamped with the current time, and returns the stored
/// row.
pub fn insert(connection: &mut Database, source: &NewTransaction) -> (r: QueryResult<Transaction>)
    ensures
        old(connection)@.integrity() ==> final(connection)@.integrity(),
        exists|now: i64| inserted(old(connection)@, final(connection)@, *source, now, r),
{
    let now = unix_now();
    insert_at(connection, source, now)
}

/// Every transaction, in ascending id order.
pub fn get_all(connection: &mut Database) -> (r: QueryResult<Vec<Transaction>>)
    ensures
        *final(connection) == *old(connection),
        r matches Ok(rows) && rows@ == old(connection)@.transactions.rows(),
{
    Ok(connection.tables().transactions.all())
}

/// The transaction stored under `source_id`, if any.
pub fn get_by_id(connection: &mut Database, source_id: i32) -> (r: QueryResult<Option<Transaction>>)
    ensures
        *final(connection) == *old(connection),
        r == Ok::<Option<Transaction>, RepoError>(old(connection)@.transactions.find(source_id)),
{
    Ok(connection.tables().transactions.get(source_id))
}

/// Applies `changes` to row `source_id` with `now` as its update time.
fn update_in(
    connection: &mut Tables,
    changes: &UpdateTransaction,
    source_id: i32,
    now: i64,
) -> (r: QueryResult<Option<Transaction>>)
    requires
        old(connection).wf(),
    ensures
        final(connection).wf(),
        old(connection).integrity() ==> final(connection).integrity(),
        updated(*old(connection), *final(connection), source_id, *changes, now, r),
{
    match connection.transactions.position(source_id) {
        None => Ok(None),
        Some(p) => {
            let new_row = changes.apply_to(&connection.transactions.as_slice()[p], now);
            if !connection.changed_refs_valid(changes) {
                return Err(RepoError::ForeignKeyViolation);
            }
            let out = new_row.duplicate();
            connection.transactions.replace_at(p, new_row);
            proof {
                let b = *old(connection);
                let a = *connection;
                if b.integrity() {
                    // Columns the change set leaves alone keep references
                    // that resolved; the columns it sets were checked.
                    assert(b.transaction_refs_ok(b.transactions.rows()[p as int]));
                    assert(b.transaction_refs_ok(out));
                    assert forall|i: int| 0 <= i < a.transactions.rows().len() implies b.transaction_refs_ok(
                        #[trigger] a.transactions.rows()[i],
                    ) by {
                        if i != p {
                            assert(a.transactions.rows()[i] == b.transactions.rows()[i]);
                        }
                    }
                    Tables::lemma_transactions_resolve(b, a);
                }
            }
            Ok(Some(out))
        },
    }
}

/// Applies `changes` to row `source_id` with `now` as its update time.
pub fn update_at(
    connection: &mut Database,
    changes: &UpdateTransaction,
    source_id: i32,
    now: i64,
) -> (r: QueryResult<Option<Transaction>>)
    ensures
        old(connection)@.integrity() ==> final(connection)@.integrity(),
        updated(old(connection)@, final(connection)@, source_id, *changes, now, r),
{
    let mut t = connection.take();
    let r = update_in(&mut t, changes, source_id, now);
    connection.put(t);
    r
}

/// Applies `changes` to row `source_id`, stamping the current time, and
/// returns the changed row; `None` when there is no such row.
pub fn update(connection: &mut Database, changes: &UpdateTransaction, source_id: i32) -> (r: QueryResult<
    Option<Transaction>,
>)
    ensures
        old(connection)@.integrity() ==> final(connection)@.integrity(),
        exists|now: i64| updated(old(connection)@, final(connection)@, source_id, *changes, now, r),
{
    let now = unix_now();
    update_at(connection, changes, source_id, now)
}

/// Deletes row `source_id`; answers whether there was one.
fn delete_from(connection: &mut Tables, source_id: i32) -> (r: QueryResult<bool>)
    requires
        old(connection).wf(),
    ensures
        final(connection).wf(),
        old(connection).integrity() ==> final(connection).integrity(),
        deleted(*old(connection), *final(connection), source_id, r),
{
    match connection.transactions.position(source_id) {
        None => Ok(false),
        Some(p) => {
            connection.transactions.remove_at(p);
            proof {
                let b = *old(connection);
                let a = *connection;
                if b.integrity() {
                    assert forall|i: int| 0 <= i < a.transactions.rows().len() implies b.transaction_refs_ok(
                        #[trigger] a.transactions.rows()[i],
                    ) by {
                        if i < p {
                            assert(a.transactions.rows()[i] == b.transactions.rows()[i]);
                        } else {
                            assert(a.transactions.rows()[i] == b.transactions.rows()[i + 1]);
                        }
                    }
                    Tables::lemma_transactions_resolve(b, a);
                }
            }
            Ok(true)
        },
    }
}

/// Deletes row `source_id`; answers whether there was one.
pub fn delete(connection: &mut Database, source_id: i32) -> (r: QueryResult<bool>)
    ensures
        old(connection)@.integrity() ==> final(connection)@.integrity(),
        deleted(old(connection)@, final(connection)@, source_id, r),
{
    let mut t = connection.take();
    let r = delete_from(&mut t, source_id);
    connection.put(t);
    r
}

} // verus!
