use vise_core::db::connection::establish_connection_test;
use vise_core::models::income_source::{NewIncomeSource, UpdateIncomeSource};
use vise_core::repository::income_source_repository::{delete, get_all, get_by_id, insert, update};

fn sample_income_source(name: String) -> NewIncomeSource {
    NewIncomeSource { name, is_active: true }
}

#[test]
fn insert_create_income_source_test() {
    let mut connection = establish_connection_test().unwrap();

    let source = sample_income_source("Salary".to_string());

    let created = insert(&mut connection, &source).unwrap();

    assert!(created.id.unwrap() > 0);
    assert_eq!(created.name, "Salary");
    assert!(created.is_active);
    assert!(created.created_at > 0);
    assert!(created.updated_at > 0);
}

#[test]
fn get_all_income_source_test() {
    let mut connection = establish_connection_test().unwrap();

    insert(&mut connection, &sample_income_source("Salary".to_string())).unwrap();

    insert(&mut connection, &sample_income_source("Freelance".to_string())).unwrap();

    let sources = get_all(&mut connection).unwrap();

    assert_eq!(sources.len(), 2);
    assert_eq!(sources[0].name, "Salary");
    assert_eq!(sources[1].name, "Freelance");
}

#[test]
fn get_by_id_returns_matching_income_source() {
    let mut connection = establish_connection_test().unwrap();

    let created = insert(&mut connection, &sample_income_source("Salary".to_string())).unwrap();

    let found = get_by_id(&mut connection, created.id.unwrap()).unwrap().unwrap();

    assert_eq!(found.id, created.id);
    assert_eq!(found.name, "Salary");
}

#[test]
fn income_source_repository_get_by_id_returns_none_for_missing_id() {
    let mut connection = establish_connection_test().unwrap();

    let found = get_by_id(&mut connection, 999).unwrap();

    assert_eq!(found, None);
}

#[test]
fn update_changes_income_source() {
    let mut connection = establish_connection_test().unwrap();

    let created = insert(&mut connection, &sample_income_source("Salary".to_string())).unwrap();

    let changes = UpdateIncomeSource {
        name: Some("Monthly Salary".to_string()),
        is_active: Some(false),
    };

    let updated = update(&mut connection, created.id.unwrap(), &changes).unwrap().unwrap();

    assert_eq!(updated.id, created.id);
    assert_eq!(updated.name, "Monthly Salary");
    assert!(!updated.is_active);
}

#[test]
fn income_source_repository_update_returns_none_for_missing_id() {
    let mut connection = establish_connection_test().unwrap();

    let changes = UpdateIncomeSource {
        name: Some("Missing".to_string()),
        is_active: None,
    };

    let result = update(&mut connection, 999, &changes).unwrap();

    assert_eq!(result, None);
}

#[test]
fn delete_removes_income_source() {
    let mut connection = establish_connection_test().unwrap();

    let created = insert(&mut connection, &sample_income_source("Salary".to_string())).unwrap();

    let deleted = delete(&mut connection, created.id.unwrap()).unwrap();
    assert!(deleted);

    let found = get_by_id(&mut connection, created.id.unwrap()).unwrap();
    assert_eq!(found, None);
}

#[test]
fn income_source_repository_delete_returns_false_for_missing_id() {
    let mut connection = establish_connection_test().unwrap();

    let deleted = delete(&mut connection, 999).unwrap();

    assert!(!deleted);
}
