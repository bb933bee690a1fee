use vise_core::clock::{saturate_seconds, seconds_of_reading, unix_now};
use vise_core::db::connection::establish_connection_test;
use vise_core::db::database::{Database, IssuedIds};
use vise_core::error::RepoError;
use vise_core::models::budget_month::{BudgetMonth, NewBudgetMonth, UpdateBudgetMonth};
use vise_core::models::changes::{change_copy, change_text, change_text_opt};
use vise_core::models::expense_category::{ExpenseCategory, NewExpenseCategory};
use vise_core::models::income_source::{IncomeSource, NewIncomeSource, UpdateIncomeSource};
use vise_core::models::transaction::{NewTransaction, Transaction, UpdateTransaction};
use vise_core::repository::{
    budget_month_repository, expense_category_repository, income_source_repository,
    transaction_repository,
};

const NONE_RECORDED: IssuedIds =
    IssuedIds { income_sources: 0, expense_categories: 0, budget_months: 0, transactions: 0 };

fn recorded_budget_months(last: i64) -> IssuedIds {
    IssuedIds { income_sources: 0, expense_categories: 0, budget_months: last, transactions: 0 }
}

fn budget(month: &str) -> NewBudgetMonth {
    NewBudgetMonth {
        month: month.to_string(),
        currency: "EUR".to_string(),
        spending_limit_cents: Some(1000),
        savings_target_cents: None,
    }
}

fn category(name: &str) -> NewExpenseCategory {
    NewExpenseCategory { name: name.to_string(), icon: None, color: None, is_default: false, is_active: true }
}

fn expense(description: &str, category_id: Option<i32>) -> NewTransaction {
    NewTransaction {
        source_type: "manual".to_string(),
        transaction_type: "expense".to_string(),
        amount_cents: 1250,
        currency: "EUR".to_string(),
        description: description.to_string(),
        occurred_at: 1_700_000_000,
        income_source_id: None,
        expense_category_id: category_id,
        external_id: None,
        revolut_account_id: None,
        merchant_name: None,
        raw_description: None,
        revolut_category: None,
        status: "completed".to_string(),
        completed_at: None,
        exclude_from_totals: false,
    }
}

fn stored_budget(id: i32, month: &str) -> BudgetMonth {
    BudgetMonth {
        id: Some(id),
        month: month.to_string(),
        currency: "EUR".to_string(),
        spending_limit_cents: None,
        savings_target_cents: None,
        created_at: 10,
        updated_at: 10,
    }
}

#[test]
fn ids_start_at_one_and_count_up() {
    let mut db = establish_connection_test().unwrap();
    let a = budget_month_repository::insert(&mut db, &budget("2026-01")).unwrap();
    let b = budget_month_repository::insert(&mut db, &budget("2026-02")).unwrap();
    assert_eq!(a.id, Some(1));
    assert_eq!(b.id, Some(2));
}

#[test]
fn deleted_ids_are_not_handed_out_again() {
    let mut db = establish_connection_test().unwrap();
    budget_month_repository::insert(&mut db, &budget("2026-01")).unwrap();
    let b = budget_month_repository::insert(&mut db, &budget("2026-02")).unwrap();
    assert!(budget_month_repository::delete(&mut db, b.id.unwrap()).unwrap());
    let c = budget_month_repository::insert(&mut db, &budget("2026-03")).unwrap();
    assert_eq!(c.id, Some(3));
    let all = budget_month_repository::get_all(&mut db).unwrap();
    assert_eq!(all.len(), 2);
    assert_eq!(all[0].id, Some(1));
    assert_eq!(all[1].id, Some(3));
}

#[test]
fn insert_at_stamps_both_times() {
    let mut db = establish_connection_test().unwrap();
    let row = budget_month_repository::insert_at(&mut db, &budget("2026-01"), 42).unwrap();
    assert_eq!(row.created_at, 42);
    assert_eq!(row.updated_at, 42);
    assert_eq!(budget_month_repository::get_id(&mut db, 1).unwrap(), Some(row));
}

#[test]
fn update_at_keeps_creation_time_and_id() {
    let mut db = establish_connection_test().unwrap();
    income_source_repository::insert_at(&mut db, &NewIncomeSource { name: "Salary".to_string(), is_active: true }, 5).unwrap();
    let changes = UpdateIncomeSource { name: None, is_active: Some(false) };
    let row = income_source_repository::update_at(&mut db, 1, &changes, 9).unwrap().unwrap();
    assert_eq!(
        row,
        IncomeSource { id: Some(1), name: "Salary".to_string(), is_active: false, created_at: 5, updated_at: 9 }
    );
    assert_eq!(income_source_repository::get_by_id(&mut db, 1).unwrap(), Some(row));
}

#[test]
fn empty_change_set_moves_only_the_update_time() {
    let mut db = establish_connection_test().unwrap();
    let before = budget_month_repository::insert_at(&mut db, &budget("2026-01"), 5).unwrap();
    let after = budget_month_repository::update_at(&mut db, 1, &UpdateBudgetMonth::default(), 7).unwrap().unwrap();
    assert_eq!(after, BudgetMonth { updated_at: 7, ..before });
}

#[test]
fn transaction_must_name_a_stored_category() {
    let mut db = establish_connection_test().unwrap();
    let refused = transaction_repository::insert(&mut db, &expense("Coffee", Some(7)));
    assert_eq!(refused, Err(RepoError::ForeignKeyViolation));
    assert_eq!(transaction_repository::get_all(&mut db).unwrap().len(), 0);

    let cat = expense_category_repository::insert(&mut db, &category("Food")).unwrap();
    let ok = transaction_repository::insert(&mut db, &expense("Coffee", cat.id)).unwrap();
    assert_eq!(ok.expense_category_id, cat.id);
    // The refused insertion used no id.
    assert_eq!(ok.id, Some(1));
}

#[test]
fn transaction_must_name_a_known_bank_account() {
    let mut db = establish_connection_test().unwrap();
    let mut source = expense("Card payment", None);
    source.revolut_account_id = Some(3);
    assert_eq!(transaction_repository::insert(&mut db, &source), Err(RepoError::ForeignKeyViolation));

    let mut db = Database::from_stored_rows(Vec::new(), Vec::new(), Vec::new(), Vec::new(), vec![3], Vec::new(), NONE_RECORDED).unwrap();
    let row = transaction_repository::insert(&mut db, &source).unwrap();
    assert_eq!(row.revolut_account_id, Some(3));
}

#[test]
fn category_in_use_cannot_be_deleted() {
    let mut db = establish_connection_test().unwrap();
    let cat = expense_category_repository::insert(&mut db, &category("Food")).unwrap();
    let tx = transaction_repository::insert(&mut db, &expense("Coffee", cat.id)).unwrap();

    assert_eq!(expense_category_repository::delete(&mut db, cat.id.unwrap()), Err(RepoError::ForeignKeyViolation));
    assert!(expense_category_repository::get_by_id(&mut db, cat.id.unwrap()).unwrap().is_some());

    assert!(transaction_repository::delete(&mut db, tx.id.unwrap()).unwrap());
    assert_eq!(expense_category_repository::delete(&mut db, cat.id.unwrap()), Ok(true));
}

#[test]
fn category_named_by_a_rule_cannot_be_deleted() {
    let cats = vec![ExpenseCategory {
        id: Some(4),
        name: "Rent".to_string(),
        icon: None,
        color: None,
        is_default: true,
        is_active: true,
        created_at: 1,
        updated_at: 1,
    }];
    let mut db = Database::from_stored_rows(Vec::new(), cats, Vec::new(), Vec::new(), Vec::new(), vec![4], NONE_RECORDED).unwrap();
    assert_eq!(expense_category_repository::delete(&mut db, 4), Err(RepoError::ForeignKeyViolation));
    // Ids continue after the largest stored one.
    let next = expense_category_repository::insert(&mut db, &category("Fun")).unwrap();
    assert_eq!(next.id, Some(5));
}

#[test]
fn income_source_in_use_cannot_be_deleted() {
    let mut db = establish_connection_test().unwrap();
    let src = income_source_repository::insert(&mut db, &NewIncomeSource { name: "Salary".to_string(), is_active: true }).unwrap();
    let mut pay = expense("Pay day", None);
    pay.transaction_type = "income".to_string();
    pay.income_source_id = src.id;
    transaction_repository::insert(&mut db, &pay).unwrap();
    assert_eq!(income_source_repository::delete(&mut db, src.id.unwrap()), Err(RepoError::ForeignKeyViolation));
}

#[test]
fn update_refused_when_it_would_dangle() {
    let mut db = establish_connection_test().unwrap();
    let tx = transaction_repository::insert_at(&mut db, &expense("Coffee", None), 3).unwrap();
    let changes = UpdateTransaction { expense_category_id: Some(Some(99)), ..Default::default() };
    assert_eq!(transaction_repository::update(&mut db, &changes, 1), Err(RepoError::ForeignKeyViolation));
    assert_eq!(transaction_repository::get_by_id(&mut db, 1).unwrap(), Some(tx));
}

#[test]
fn stored_rows_out_of_order_are_refused() {
    let rows = vec![stored_budget(2, "2026-02"), stored_budget(1, "2026-01")];
    let r = Database::from_stored_rows(Vec::new(), Vec::new(), rows, Vec::new(), Vec::new(), Vec::new(), NONE_RECORDED);
    assert!(matches!(r, Err(RepoError::CorruptRows)));

    let mut missing = stored_budget(1, "2026-01");
    missing.id = None;
    let r = Database::from_stored_rows(Vec::new(), Vec::new(), vec![missing], Vec::new(), Vec::new(), Vec::new(), NONE_RECORDED);
    assert!(matches!(r, Err(RepoError::CorruptRows)));
}

#[test]
fn stored_rows_with_dangling_reference_are_kept() {
    let mut t = expense("Coffee", Some(8));
    t.income_source_id = None;
    let row = Transaction {
        id: Some(1),
        source_type: t.source_type,
        transaction_type: t.transaction_type,
        amount_cents: t.amount_cents,
        currency: t.currency,
        description: t.description,
        occurred_at: t.occurred_at,
        income_source_id: None,
        expense_category_id: Some(8),
        external_id: None,
        revolut_account_id: None,
        merchant_name: None,
        raw_description: None,
        revolut_category: None,
        status: t.status,
        completed_at: None,
        exclude_from_totals: false,
        created_at: 1,
        updated_at: 1,
    };
    let mut db =
        Database::from_stored_rows(Vec::new(), Vec::new(), Vec::new(), vec![row.clone()], Vec::new(), Vec::new(), NONE_RECORDED)
            .unwrap();
    // Reads answer as stored.
    assert_eq!(transaction_repository::get_by_id(&mut db, 1).unwrap(), Some(row));
    // A change that leaves the category column alone goes through.
    let rename = UpdateTransaction { description: Some("Tea".to_string()), ..Default::default() };
    let renamed = transaction_repository::update_at(&mut db, &rename, 1, 2).unwrap().unwrap();
    assert_eq!(renamed.description, "Tea");
    assert_eq!(renamed.expense_category_id, Some(8));
    // Setting the dangling category again is checked and refused.
    let again = UpdateTransaction { expense_category_id: Some(Some(8)), ..Default::default() };
    assert_eq!(transaction_repository::update(&mut db, &again, 1), Err(RepoError::ForeignKeyViolation));
    // Clearing it goes through.
    let clear = UpdateTransaction { expense_category_id: Some(None), ..Default::default() };
    let cleared = transaction_repository::update(&mut db, &clear, 1).unwrap().unwrap();
    assert_eq!(cleared.expense_category_id, None);

    // A rule naming a missing category is kept too.
    let db = Database::from_stored_rows(Vec::new(), Vec::new(), Vec::new(), Vec::new(), Vec::new(), vec![1], NONE_RECORDED);
    assert!(db.is_ok());
}

#[test]
fn stored_ids_below_one_are_kept() {
    let rows = vec![stored_budget(-5, "2025-12"), stored_budget(0, "2026-01")];
    let mut db = Database::from_stored_rows(Vec::new(), Vec::new(), rows, Vec::new(), Vec::new(), Vec::new(), NONE_RECORDED).unwrap();
    assert_eq!(budget_month_repository::get_id(&mut db, -5).unwrap(), Some(stored_budget(-5, "2025-12")));
    let next = budget_month_repository::insert(&mut db, &budget("2026-02")).unwrap();
    assert_eq!(next.id, Some(1));
    assert_eq!(budget_month_repository::get_all(&mut db).unwrap().len(), 3);
}

#[test]
fn stored_rows_are_read_back_in_order() {
    let rows = vec![stored_budget(3, "2026-01"), stored_budget(8, "2026-02")];
    let mut db = Database::from_stored_rows(Vec::new(), Vec::new(), rows, Vec::new(), Vec::new(), Vec::new(), NONE_RECORDED).unwrap();
    let all = budget_month_repository::get_all(&mut db).unwrap();
    assert_eq!(all, vec![stored_budget(3, "2026-01"), stored_budget(8, "2026-02")]);
    let next = budget_month_repository::insert(&mut db, &budget("2026-03")).unwrap();
    assert_eq!(next.id, Some(9));
}

#[test]
fn table_refuses_insert_once_ids_run_out() {
    let rows = vec![stored_budget(i32::MAX, "2026-01")];
    let mut db = Database::from_stored_rows(Vec::new(), Vec::new(), rows, Vec::new(), Vec::new(), Vec::new(), NONE_RECORDED).unwrap();
    assert_eq!(budget_month_repository::insert(&mut db, &budget("2026-02")), Err(RepoError::IdsExhausted));
    assert_eq!(budget_month_repository::get_all(&mut db).unwrap().len(), 1);
    // Other operations still work.
    assert!(budget_month_repository::delete(&mut db, i32::MAX).unwrap());
    assert_eq!(budget_month_repository::insert(&mut db, &budget("2026-02")), Err(RepoError::IdsExhausted));
}

#[test]
fn change_helpers_follow_the_change_set() {
    assert_eq!(change_copy(Some(3), 1), 3);
    assert_eq!(change_copy(None, 1), 1);
    assert_eq!(change_text(&Some("b".to_string()), &"a".to_string()), "b");
    assert_eq!(change_text(&None, &"a".to_string()), "a");
    assert_eq!(change_text_opt(&Some(None), &Some("a".to_string())), None);
    assert_eq!(change_text_opt(&None, &Some("a".to_string())), Some("a".to_string()));
    assert_eq!(change_text_opt(&Some(Some("c".to_string())), &None), Some("c".to_string()));
}

#[test]
fn seconds_saturate_at_the_signed_maximum() {
    assert_eq!(saturate_seconds(0), 0);
    assert_eq!(saturate_seconds(1_700_000_000), 1_700_000_000);
    assert_eq!(saturate_seconds(u64::MAX), i64::MAX);
}

#[test]
fn clock_reads_a_time_after_2020() {
    assert!(unix_now() > 1_577_836_800);
}

#[test]
fn category_delete_of_missing_id_changes_nothing() {
    let mut db = establish_connection_test().unwrap();
    expense_category_repository::insert(&mut db, &category("Food")).unwrap();
    assert_eq!(expense_category_repository::delete(&mut db, 2), Ok(false));
    assert_eq!(expense_category_repository::get_all(&mut db).unwrap().len(), 1);
}

#[test]
fn transaction_update_sets_reference_to_stored_source() {
    let mut db = establish_connection_test().unwrap();
    let src = income_source_repository::insert(&mut db, &NewIncomeSource { name: "Gift".to_string(), is_active: true }).unwrap();
    transaction_repository::insert(&mut db, &expense("Present", None)).unwrap();
    let changes = UpdateTransaction { income_source_id: Some(src.id), ..Default::default() };
    let row = transaction_repository::update(&mut db, &changes, 1).unwrap().unwrap();
    assert_eq!(row.income_source_id, src.id);
}

#[test]
fn clock_readings_before_the_epoch_are_negative() {
    assert_eq!(seconds_of_reading(Ok(1_700_000_000)), 1_700_000_000);
    assert_eq!(seconds_of_reading(Err(60)), -60);
    assert_eq!(seconds_of_reading(Ok(u64::MAX)), i64::MAX);
    assert_eq!(seconds_of_reading(Err(u64::MAX)), -i64::MAX);
}

#[test]
fn recorded_counter_keeps_deleted_ids_retired_across_reloads() {
    let mut db = establish_connection_test().unwrap();
    budget_month_repository::insert(&mut db, &budget("2026-01")).unwrap();
    let b = budget_month_repository::insert(&mut db, &budget("2026-02")).unwrap();
    assert!(budget_month_repository::delete(&mut db, b.id.unwrap()).unwrap());
    let kept = budget_month_repository::get_all(&mut db).unwrap();

    // Storage recorded id 2 as handed out: it is not handed out again.
    let mut reloaded =
        Database::from_stored_rows(Vec::new(), Vec::new(), kept.clone(), Vec::new(), Vec::new(), Vec::new(), recorded_budget_months(2))
            .unwrap();
    let c = budget_month_repository::insert(&mut reloaded, &budget("2026-03")).unwrap();
    assert_eq!(c.id, Some(3));

    // Storage that records no counter continues after the largest stored id.
    let mut plain =
        Database::from_stored_rows(Vec::new(), Vec::new(), kept, Vec::new(), Vec::new(), Vec::new(), NONE_RECORDED).unwrap();
    let d = budget_month_repository::insert(&mut plain, &budget("2026-03")).unwrap();
    assert_eq!(d.id, Some(2));
}

#[test]
fn negative_recorded_counter_is_refused() {
    let r = Database::from_stored_rows(Vec::new(), Vec::new(), Vec::new(), Vec::new(), Vec::new(), Vec::new(), recorded_budget_months(-1));
    assert!(matches!(r, Err(RepoError::CorruptRows)));
}

#[test]
fn recorded_counter_beyond_the_id_range_is_refused() {
    let r = Database::from_stored_rows(
        Vec::new(),
        Vec::new(),
        Vec::new(),
        Vec::new(),
        Vec::new(),
        Vec::new(),
        recorded_budget_months(i32::MAX as i64 + 1),
    );
    assert!(matches!(r, Err(RepoError::CorruptRows)));
    let mut full =
        Database::from_stored_rows(Vec::new(), Vec::new(), Vec::new(), Vec::new(), Vec::new(), Vec::new(), recorded_budget_months(i32::MAX as i64))
            .unwrap();
    assert_eq!(budget_month_repository::insert(&mut full, &budget("2026-01")), Err(RepoError::IdsExhausted));
}
