//! The four tables of the budget store and the references between them.
//!
//! A transaction may name an income source, an expense category and a bank
//! account. A name that a transaction is given, on insertion or by a change
//! set, must resolve to a stored row, and a row that is still named cannot
//! be deleted, so every operation keeps a store whose references all
//! resolve that way. Rows read back from storage are taken as they are,
//! with any reference that no longer resolves. The store also keeps the ids
//! of two tables it does not manage itself: the bank accounts that
//! transactions may name, and the expense categories named by
//! auto-categorisation rules.

use vstd::prelude::*;
use crate::error::{QueryResult, RepoError};
use crate::models::budget_month::BudgetMonth;
use crate::models::expense_category::ExpenseCategory;
use crate::models::income_source::IncomeSource;
use crate::models::transaction::{Transaction, UpdateTransaction};
use crate::table::{max_id, next_after, rows_well_ordered, seq_has_id, Record, Table};

verus! {

/// The largest id storage records as handed out for each table, 0 where
/// it records none.
pub struct IssuedIds {
    pub income_sources: i64,
    pub expense_categories: i64,
    pub budget_months: i64,
    pub transactions: i64,
}

impl IssuedIds {
    /// Every recorded id lies in `0..=max_id()`.
    pub open spec fn all_in_range(self) -> bool {
        &&& 0 <= self.income_sources <= max_id()
        &&& 0 <= self.expense_categories <= max_id()
        &&& 0 <= self.budget_months <= max_id()
        &&& 0 <= self.transactions <= max_id()
    }
}

/// `None`, or the id of a row of `rows`.
pub open spec fn refers_to<R: Record>(reference: Option<i32>, rows: Seq<R>) -> bool {
    match reference {
        None => true,
        Some(k) => seq_has_id(rows, k),
    }
}

/// Every reference held by transaction `t` resolves.
pub open spec fn transaction_refs_resolve(
    t: Transaction,
    income_sources: Seq<IncomeSource>,
    expense_categories: Seq<ExpenseCategory>,
    revolut_account_ids: Seq<i32>,
) -> bool {
    &&& refers_to(t.income_source_id, income_sources)
    &&& refers_to(t.expense_category_id, expense_categories)
    &&& match t.revolut_account_id {
        None => true,
        Some(k) => revolut_account_ids.contains(k),
    }
}

/// Every reference in the store resolves.
pub open spec fn references_resolve(
    income_sources: Seq<IncomeSource>,
    expense_categories: Seq<ExpenseCategory>,
    transactions: Seq<Transaction>,
    revolut_account_ids: Seq<i32>,
    rule_category_ids: Seq<i32>,
) -> bool {
    &&& forall|i: int|
        0 <= i < transactions.len() ==> transaction_refs_resolve(
            #[trigger] transactions[i],
            income_sources,
            expense_categories,
            revolut_account_ids,
        )
    &&& forall|i: int| 0 <= i < rule_category_ids.len() ==> seq_has_id(expense_categories, #[trigger] rule_category_ids[i])
}

/// Rows read back from storage that a store can be built from.
pub open spec fn stored_rows_valid(
    income_sources: Seq<IncomeSource>,
    expense_categories: Seq<ExpenseCategory>,
    budget_months: Seq<BudgetMonth>,
    transactions: Seq<Transaction>,
    issued: IssuedIds,
) -> bool {
    &&& issued.all_in_range()
    &&& rows_well_ordered(income_sources, max_id() + 1)
    &&& rows_well_ordered(expense_categories, max_id() + 1)
    &&& rows_well_ordered(budget_months, max_id() + 1)
    &&& rows_well_ordered(transactions, max_id() + 1)
}

/// The contents of a store: its four tables and the outside ids it keeps
/// references to.
pub struct Tables {
    pub income_sources: Table<IncomeSource>,
    pub expense_categories: Table<ExpenseCategory>,
    pub budget_months: Table<BudgetMonth>,
    pub transactions: Table<Transaction>,
    /// Ids of the bank accounts that transactions may name.
    pub revolut_account_ids: Vec<i32>,
    /// Ids of the expense categories named by auto-categorisation rules.
    pub rule_category_ids: Vec<i32>,
}

impl Tables {
    /// Every reference held by `t` resolves in this store.
    pub open spec fn transaction_refs_ok(&self, t: Transaction) -> bool {
        transaction_refs_resolve(
            t,
            self.income_sources.rows(),
            self.expense_categories.rows(),
            self.revolut_account_ids@,
        )
    }

    /// Referential integrity: every reference in the store resolves.
    pub open spec fn integrity(&self) -> bool {
        references_resolve(
            self.income_sources.rows(),
            self.expense_categories.rows(),
            self.transactions.rows(),
            self.revolut_account_ids@,
            self.rule_category_ids@,
        )
    }

    /// Each table keeps its rows in ascending id order below its counter.
    /// References are not part of it: storage may hold a reference that no
    /// longer resolves, and reads and unrelated changes still work on it.
    pub open spec fn wf(&self) -> bool {
        &&& self.income_sources.wf()
        &&& self.expense_categories.wf()
        &&& self.budget_months.wf()
        &&& self.transactions.wf()
    }

    /// Some transaction or rule names expense category `id`.
    pub open spec fn category_in_use(&self, id: i32) -> bool {
        ||| exists|i: int|
            0 <= i < self.transactions.rows().len()
                && (#[trigger] self.transactions.rows()[i]).expense_category_id == Some(id)
        ||| self.rule_category_ids@.contains(id)
    }

    /// Some transaction names income source `id`.
    pub open spec fn income_source_in_use(&self, id: i32) -> bool {
        exists|i: int|
            0 <= i < self.transactions.rows().len()
                && (#[trigger] self.transactions.rows()[i]).income_source_id == Some(id)
    }

    /// Every part of the store but the income sources is as in `other`.
    pub open spec fn same_besides_income_sources(&self, other: Tables) -> bool {
        &&& self.expense_categories == other.expense_categories
        &&& self.budget_months == other.budget_months
        &&& self.transactions == other.transactions
        &&& self.revolut_account_ids@ == other.revolut_account_ids@
        &&& self.rule_category_ids@ == other.rule_category_ids@
    }

    /// Every part of the store but the expense categories is as in `other`.
    pub open spec fn same_besides_expense_categories(&self, other: Tables) -> bool {
        &&& self.income_sources == other.income_sources
        &&& self.budget_months == other.budget_months
        &&& self.transactions == other.transactions
        &&& self.revolut_account_ids@ == other.revolut_account_ids@
        &&& self.rule_category_ids@ == other.rule_category_ids@
    }

    /// Every part of the store but the monthly budgets is as in `other`.
    pub open spec fn same_besides_budget_months(&self, other: Tables) -> bool {
        &&& self.income_sources == other.income_sources
        &&& self.expense_categories == other.expense_categories
        &&& self.transactions == other.transactions
        &&& self.revolut_account_ids@ == other.revolut_account_ids@
        &&& self.rule_category_ids@ == other.rule_category_ids@
    }

    /// Every part of the store but the transactions is as in `other`.
    pub open spec fn same_besides_transactions(&self, other: Tables) -> bool {
        &&& self.income_sources == other.income_sources
        &&& self.expense_categories == other.expense_categories
        &&& self.budget_months == other.budget_months
        &&& self.revolut_account_ids@ == other.revolut_account_ids@
        &&& self.rule_category_ids@ == other.rule_category_ids@
    }

    /// Integrity survives a change of the income sources alone that keeps
    /// every id that was present.
    pub proof fn lemma_income_sources_kept(before: Tables, after: Tables)
        requires
            before.integrity(),
            after.same_besides_income_sources(before),
            forall|k: i32|
                seq_has_id(before.income_sources.rows(), k) ==> #[trigger] seq_has_id(after.income_sources.rows(), k),
        ensures
            after.integrity(),
    {
        let tx = after.transactions.rows();
        assert forall|i: int| 0 <= i < tx.len() implies #[trigger] after.transaction_refs_ok(tx[i]) by {
            assert(before.transaction_refs_ok(before.transactions.rows()[i]));
            if let Some(k) = tx[i].income_source_id {
                assert(seq_has_id(after.income_sources.rows(), k));
            }
        }
    }

    /// Integrity survives dropping an income source that nothing names.
    pub proof fn lemma_income_source_dropped(before: Tables, after: Tables, id: i32)
        requires
            before.integrity(),
            !before.income_source_in_use(id),
            after.same_besides_income_sources(before),
            forall|k: i32|
                k != id && seq_has_id(before.income_sources.rows(), k) ==> #[trigger] seq_has_id(
                    after.income_sources.rows(),
                    k,
                ),
        ensures
            after.integrity(),
    {
        let tx = after.transactions.rows();
        assert forall|i: int| 0 <= i < tx.len() implies #[trigger] after.transaction_refs_ok(tx[i]) by {
            assert(before.transaction_refs_ok(before.transactions.rows()[i]));
            if let Some(k) = tx[i].income_source_id {
                assert(before.transactions.rows()[i].income_source_id == Some(k));
                assert(k != id);
                assert(seq_has_id(after.income_sources.rows(), k));
            }
        }
    }

    /// Integrity survives a change of the expense categories alone that
    /// keeps every id that was present.
    pub proof fn lemma_expense_categories_kept(before: Tables, after: Tables)
        requires
            before.integrity(),
            after.same_besides_expense_categories(before),
            forall|k: i32|
                seq_has_id(before.expense_categories.rows(), k) ==> #[trigger] seq_has_id(
                    after.expense_categories.rows(),
                    k,
                ),
        ensures
            after.integrity(),
    {
        let tx = after.transactions.rows();
        assert forall|i: int| 0 <= i < tx.len() implies #[trigger] after.transaction_refs_ok(tx[i]) by {
            assert(before.transaction_refs_ok(before.transactions.rows()[i]));
            if let Some(k) = tx[i].expense_category_id {
                assert(seq_has_id(after.expense_categories.rows(), k));
            }
        }
        let rules = after.rule_category_ids@;
        assert forall|i: int| 0 <= i < rules.len() implies seq_has_id(after.expense_categories.rows(), #[trigger] rules[i]) by {
            assert(seq_has_id(before.expense_categories.rows(), before.rule_category_ids@[i]));
        }
    }

    /// Integrity survives dropping an expense category that nothing names.
    pub proof fn lemma_expense_category_dropped(before: Tables, after: Tables, id: i32)
        requires
            before.integrity(),
            !before.category_in_use(id),
            after.same_besides_expense_categories(before),
            forall|k: i32|
                k != id && seq_has_id(before.expense_categories.rows(), k) ==> #[trigger] seq_has_id(
                    after.expense_categories.rows(),
                    k,
                ),
        ensures
            after.integrity(),
    {
        let tx = after.transactions.rows();
        assert forall|i: int| 0 <= i < tx.len() implies #[trigger] after.transaction_refs_ok(tx[i]) by {
            assert(before.transaction_refs_ok(before.transactions.rows()[i]));
            if let Some(k) = tx[i].expense_category_id {
                assert(before.transactions.rows()[i].expense_category_id == Some(k));
                assert(k != id);
                assert(seq_has_id(after.expense_categories.rows(), k));
            }
        }
        let rules = after.rule_category_ids@;
        assert forall|i: int| 0 <= i < rules.len() implies seq_has_id(after.expense_categories.rows(), #[trigger] rules[i]) by {
            assert(seq_has_id(before.expense_categories.rows(), before.rule_category_ids@[i]));
            assert(rules.contains(rules[i]));
        }
    }

    /// Integrity survives a change of the transactions alone after which
    /// every transaction's references resolve.
    pub proof fn lemma_transactions_resolve(before: Tables, after: Tables)
        requires
            before.integrity(),
            after.same_besides_transactions(before),
            forall|i: int|
                0 <= i < after.transactions.rows().len() ==> before.transaction_refs_ok(
                    #[trigger] after.transactions.rows()[i],
                ),
        ensures
            after.integrity(),
    {
        let tx = after.transactions.rows();
        assert forall|i: int| 0 <= i < tx.len() implies #[trigger] after.transaction_refs_ok(tx[i]) by {
            assert(before.transaction_refs_ok(tx[i]));
        }
    }

    /// No rows and no outside ids.
    pub fn new() -> (db: Self)
        ensures
            db.wf(),
            db.integrity(),
            db.income_sources.rows().len() == 0,
            db.income_sources.next_id() == 1,
            db.expense_categories.rows().len() == 0,
            db.expense_categories.next_id() == 1,
            db.budget_months.rows().len() == 0,
            db.budget_months.next_id() == 1,
            db.transactions.rows().len() == 0,
            db.transactions.next_id() == 1,
            db.revolut_account_ids@.len() == 0,
            db.rule_category_ids@.len() == 0,
    {
        Tables {
            income_sources: Table::new(),
            expense_categories: Table::new(),
            budget_months: Table::new(),
            transactions: Table::new(),
            revolut_account_ids: Vec::new(),
            rule_category_ids: Vec::new(),
        }
    }

    /// Every reference column that `changes` names with a value names a
    /// stored row. Columns the change set leaves alone, or clears, are not
    /// looked at.
    pub open spec fn changed_refs_ok(&self, changes: UpdateTransaction) -> bool {
        &&& match changes.income_source_id {
            Some(Some(k)) => seq_has_id(self.income_sources.rows(), k),
            _ => true,
        }
        &&& match changes.expense_category_id {
            Some(Some(k)) => seq_has_id(self.expense_categories.rows(), k),
            _ => true,
        }
        &&& match changes.revolut_account_id {
            Some(Some(k)) => self.revolut_account_ids@.contains(k),
            _ => true,
        }
    }

    /// Whether every reference column that `changes` sets names a stored row.
    pub fn changed_refs_valid(&self, changes: &UpdateTransaction) -> (r: bool)
        requires
            self.wf(),
        ensures
            r == self.changed_refs_ok(*changes),
    {
        let source_ok = match changes.income_source_id {
            Some(Some(k)) => self.income_sources.position(k).is_some(),
            _ => true,
        };
        let category_ok = match changes.expense_category_id {
            Some(Some(k)) => self.expense_categories.position(k).is_some(),
            _ => true,
        };
        let account_ok = match changes.revolut_account_id {
            Some(Some(k)) => Self::ids_contain(&self.revolut_account_ids, k),
            _ => true,
        };
        source_ok && category_ok && account_ok
    }

    /// Whether `ids` holds `k`.
    fn ids_contain(ids: &Vec<i32>, k: i32) -> (r: bool)
        ensures
            r == ids@.contains(k),
    {
        let n = ids.len();
        for i in 0..n
            invariant
                n == ids@.len(),
                forall|j: int| 0 <= j < i ==> ids@[j] != k,
        {
            if ids[i] == k {
                assert(ids@[i as int] == k);
                return true;
            }
        }
        false
    }

    /// Whether every reference held by `t` resolves in this store.
    pub fn transaction_refs_valid(&self, t: &Transaction) -> (r: bool)
        requires
            self.wf(),
        ensures
            r == self.transaction_refs_ok(*t),
    {
        let source_ok = match t.income_source_id {
            None => true,
            Some(k) => self.income_sources.position(k).is_some(),
        };
        let category_ok = match t.expense_category_id {
            None => true,
            Some(k) => self.expense_categories.position(k).is_some(),
        };
        let account_ok = match t.revolut_account_id {
            None => true,
            Some(k) => Self::ids_contain(&self.revolut_account_ids, k),
        };
        source_ok && category_ok && account_ok
    }

    /// Whether some transaction or rule names expense category `id`.
    pub fn category_is_used(&self, id: i32) -> (r: bool)
        requires
            self.wf(),
        ensures
            r == self.category_in_use(id),
    {
        let rows = self.transactions.as_slice();
        let n = rows.len();
        for i in 0..n
            invariant
                n == rows@.len(),
                rows@ == self.transactions.rows(),
                forall|j: int| 0 <= j < i ==> (#[trigger] rows@[j]).expense_category_id != Some(id),
        {
            if rows[i].expense_category_id == Some(id) {
                assert(self.transactions.rows()[i as int].expense_category_id == Some(id));
                return true;
            }
        }
        Self::ids_contain(&self.rule_category_ids, id)
    }

    /// Whether some transaction names income source `id`.
    pub fn income_source_is_used(&self, id: i32) -> (r: bool)
        requires
            self.wf(),
        ensures
            r == self.income_source_in_use(id),
    {
        let rows = self.transactions.as_slice();
        let n = rows.len();
        for i in 0..n
            invariant
                n == rows@.len(),
                rows@ == self.transactions.rows(),
                forall|j: int| 0 <= j < i ==> (#[trigger] rows@[j]).income_source_id != Some(id),
        {
            if rows[i].income_source_id == Some(id) {
                assert(self.transactions.rows()[i as int].income_source_id == Some(id));
                return true;
            }
        }
        false
    }
}

/// A store whose contents are always well formed: every table keeps its
/// rows in ascending id order and every reference resolves.
pub struct Database {
    tables: Tables,
}

impl View for Database {
    type V = Tables;

    closed spec fn view(&self) -> Tables {
        self.tables
    }
}

impl Database {
    #[verifier::type_invariant]
    spec fn inv(self) -> bool {
        self.tables.wf()
    }

    /// A store with no rows and no outside ids.
    pub fn new() -> (db: Self)
        ensures
            db@.wf(),
            db@.integrity(),
            db@.income_sources.rows().len() == 0,
            db@.income_sources.next_id() == 1,
            db@.expense_categories.rows().len() == 0,
            db@.expense_categories.next_id() == 1,
            db@.budget_months.rows().len() == 0,
            db@.budget_months.next_id() == 1,
            db@.transactions.rows().len() == 0,
            db@.transactions.next_id() == 1,
            db@.revolut_account_ids@.len() == 0,
            db@.rule_category_ids@.len() == 0,
    {
        Database { tables: Tables::new() }
    }

    /// The contents, for reading.
    pub(crate) fn tables(&self) -> (t: &Tables)
        ensures
            *t == self@,
            t.wf(),
    {
        proof {
            use_type_invariant(self);
        }
        &self.tables
    }

    /// Takes the contents out, leaving an empty store behind until they are
    /// put back.
    pub(crate) fn take(&mut self) -> (t: Tables)
        ensures
            t == old(self)@,
            t.wf(),
    {
        proof {
            use_type_invariant(&*self);
        }
        let mut t = Tables::new();
        core::mem::swap(&mut self.tables, &mut t);
        t
    }

    /// Puts well-formed contents in.
    pub(crate) fn put(&mut self, t: Tables)
        requires
            t.wf(),
        ensures
            final(self)@ == t,
    {
        self.tables = t;
    }

    /// Builds a store from rows read back from storage, together with the
    /// ids of the bank accounts and of the categories named by rules, and
    /// the largest id storage records as handed out for each table. Each
    /// table's rows must carry ids in ascending order and every recorded id
    /// must lie in `0..=max_id()`; otherwise the rows are refused. A
    /// reference that does not resolve is kept as it is. Each table's
    /// counter continues after the larger of its recorded id and its
    /// largest stored id.
    pub fn from_stored_rows(
        income_sources: Vec<IncomeSource>,
        expense_categories: Vec<ExpenseCategory>,
        budget_months: Vec<BudgetMonth>,
        transactions: Vec<Transaction>,
        revolut_account_ids: Vec<i32>,
        rule_category_ids: Vec<i32>,
        issued: IssuedIds,
    ) -> (r: QueryResult<Database>)
        ensures
            r is Ok <==> stored_rows_valid(
                income_sources@,
                expense_categories@,
                budget_months@,
                transactions@,
                issued,
            ),
            r matches Err(e) ==> e == RepoError::CorruptRows,
            r matches Ok(db) ==> {
                &&& db@.income_sources.rows() == income_sources@
                &&& db@.expense_categories.rows() == expense_categories@
                &&& db@.budget_months.rows() == budget_months@
                &&& db@.transactions.rows() == transactions@
                &&& db@.revolut_account_ids@ == revolut_account_ids@
                &&& db@.rule_category_ids@ == rule_category_ids@
                &&& db@.income_sources.next_id() == next_after(income_sources@, issued.income_sources as int)
                &&& db@.expense_categories.next_id() == next_after(expense_categories@, issued.expense_categories as int)
                &&& db@.budget_months.next_id() == next_after(budget_months@, issued.budget_months as int)
                &&& db@.transactions.next_id() == next_after(transactions@, issued.transactions as int)
            },
    {
        let sources = match Table::from_rows(income_sources, issued.income_sources) {
            Some(t) => t,
            None => return Err(RepoError::CorruptRows),
        };
        let categories = match Table::from_rows(expense_categories, issued.expense_categories) {
            Some(t) => t,
            None => return Err(RepoError::CorruptRows),
        };
        let budgets = match Table::from_rows(budget_months, issued.budget_months) {
            Some(t) => t,
            None => return Err(RepoError::CorruptRows),
        };
        let txs = match Table::from_rows(transactions, issued.transactions) {
            Some(t) => t,
            None => return Err(RepoError::CorruptRows),
        };
        let tables = Tables {
            income_sources: sources,
            expense_categories: categories,
            budget_months: budgets,
            transactions: txs,
            revolut_account_ids,
            rule_category_ids,
        };
        Ok(Database { tables })
    }

}

} // verus!
