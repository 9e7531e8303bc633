use user_service::row::{user_from_row, users_from_rows, Column, RowError};
use user_service::service::{create_user, get_users, user_from_outcome, users_from_outcome, ServiceError};
use user_service::table::{StoreError, UserTable};
use user_service::timestamp::Timestamp;
use user_service::user::{BodyError, NewUser};

fn s(x: &str) -> Option<String> {
    Some(x.to_string())
}

fn user_row(id: i64, name: &str, email: &str, micros: i64) -> Vec<Column> {
    vec![
        Column::Int(id),
        Column::Text(name.to_string()),
        Column::Text(email.to_string()),
        Column::Time(Timestamp::from_micros(micros)),
    ]
}

#[test]
fn create_then_list_contains_user() {
    let start = Timestamp::from_micros(1_700_000_000_000_000);
    let mut t = UserTable::new();
    let now = Timestamp::from_micros(1_700_000_000_000_123);
    let u = create_user(&mut t, s("Grace"), s("grace@example.com"), now).unwrap();
    let all = get_users(&t);
    let found: Vec<_> = all.iter().filter(|r| r.id == u.id).collect();
    assert_eq!(found.len(), 1);
    assert_eq!(found[0].name, "Grace");
    assert_eq!(found[0].email, "grace@example.com");
    assert!(found[0].created_at.is_not_before(&start));
}

#[test]
fn empty_table_lists_nothing() {
    let t = UserTable::new();
    assert!(get_users(&t).is_empty());
    assert_eq!(t.len(), 0);
}

#[test]
fn missing_name_is_rejected_without_a_row() {
    let mut t = UserTable::new();
    let r = create_user(&mut t, None, s("a@b.c"), Timestamp::from_micros(1));
    assert_eq!(r.unwrap_err(), ServiceError::Body(BodyError::MissingName));
    assert_eq!(t.len(), 0);
}

#[test]
fn missing_email_is_rejected_without_a_row() {
    let mut t = UserTable::new();
    let r = create_user(&mut t, s("Ada"), None, Timestamp::from_micros(1));
    assert_eq!(r.unwrap_err(), ServiceError::Body(BodyError::MissingEmail));
    assert!(get_users(&t).is_empty());
}

#[test]
fn empty_strings_are_accepted() {
    let mut t = UserTable::new();
    let u = create_user(&mut t, s(""), s(""), Timestamp::from_micros(1)).unwrap();
    assert_eq!(u.name, "");
    assert_eq!(u.email, "");
    assert_eq!(t.len(), 1);
}

#[test]
fn identical_requests_get_distinct_ids() {
    let mut t = UserTable::new();
    let a = create_user(&mut t, s("Ada"), s("ada@example.com"), Timestamp::from_micros(1)).unwrap();
    let b = create_user(&mut t, s("Ada"), s("ada@example.com"), Timestamp::from_micros(2)).unwrap();
    assert_ne!(a.id, b.id);
    assert_eq!(get_users(&t).len(), 2);
}

#[test]
fn fifty_creations_give_fifty_distinct_ids() {
    let mut t = UserTable::new();
    let mut ids = Vec::new();
    for i in 0..50i64 {
        let name = format!("user{}", i);
        let u = create_user(&mut t, Some(name), s("x@example.com"), Timestamp::from_micros(i)).unwrap();
        ids.push(u.id);
    }
    let mut sorted = ids.clone();
    sorted.sort();
    sorted.dedup();
    assert_eq!(sorted.len(), 50);
    let all = get_users(&t);
    assert_eq!(all.len(), 50);
    for (i, u) in all.iter().enumerate() {
        assert_eq!(u.name, format!("user{}", i));
        assert_eq!(u.id, ids[i]);
    }
}

#[test]
fn ada_end_to_end() {
    let mut t = UserTable::new();
    let now = Timestamp::from_micros(1_718_000_000_000_000);
    let u = create_user(&mut t, s("Ada"), s("ada@example.com"), now).unwrap();
    assert_eq!(u.id, 1);
    assert_eq!(u.name, "Ada");
    assert_eq!(u.email, "ada@example.com");
    assert_eq!(u.created_at, now);
    let all = get_users(&t);
    assert_eq!(all.len(), 1);
    assert_eq!(all[0].id, 1);
    assert_eq!(all[0].name, "Ada");
    assert_eq!(all[0].email, "ada@example.com");
    assert_eq!(all[0].created_at, now);
}

#[test]
fn ids_count_up_from_one() {
    let mut t = UserTable::new();
    let nu = NewUser::new("A".to_string(), "a@x".to_string());
    assert_eq!(t.insert(nu, Timestamp::from_micros(0)).unwrap().id, 1);
    let nu = NewUser::new("B".to_string(), "b@x".to_string());
    assert_eq!(t.insert(nu, Timestamp::from_micros(0)).unwrap().id, 2);
    assert_eq!(t.load().len(), 2);
}

#[test]
fn body_fields_build_new_user() {
    let nu = NewUser::from_fields(s("Ada"), s("ada@example.com")).unwrap();
    assert_eq!(nu.name, "Ada");
    assert_eq!(nu.email, "ada@example.com");
    assert_eq!(NewUser::from_fields(None, None).unwrap_err(), BodyError::MissingName);
    assert_eq!(NewUser::from_fields(s("Ada"), None).unwrap_err(), BodyError::MissingEmail);
}

#[test]
fn row_reads_as_user() {
    let u = user_from_row(&user_row(7, "Ada", "ada@example.com", 42)).unwrap();
    assert_eq!(u.id, 7);
    assert_eq!(u.name, "Ada");
    assert_eq!(u.email, "ada@example.com");
    assert_eq!(u.created_at.micros(), 42);
}

#[test]
fn row_with_wrong_arity_is_refused() {
    let mut row = user_row(1, "a", "b", 0);
    row.pop();
    assert_eq!(user_from_row(&row).unwrap_err(), RowError::Arity { found: 3 });
    assert_eq!(user_from_row(&Vec::new()).unwrap_err(), RowError::Arity { found: 0 });
}

#[test]
fn row_with_mismatched_column_is_refused() {
    let mut row = user_row(1, "a", "b", 0);
    row[2] = Column::Null;
    assert_eq!(user_from_row(&row).unwrap_err(), RowError::Mismatch { index: 2 });
    let mut row = user_row(1, "a", "b", 0);
    row[3] = Column::Text("now".to_string());
    row[1] = Column::Int(3);
    assert_eq!(user_from_row(&row).unwrap_err(), RowError::Mismatch { index: 1 });
}

#[test]
fn row_id_outside_i32_is_refused() {
    let row = user_row(i32::MAX as i64 + 1, "a", "b", 0);
    assert_eq!(user_from_row(&row).unwrap_err(), RowError::Mismatch { index: 0 });
    let row = user_row(i32::MIN as i64, "a", "b", 0);
    assert_eq!(user_from_row(&row).unwrap().id, i32::MIN);
}

#[test]
fn rows_read_in_order() {
    let rows = vec![user_row(2, "B", "b@x", 5), user_row(1, "A", "a@x", 3)];
    let users = users_from_rows(&rows).unwrap();
    assert_eq!(users.len(), 2);
    assert_eq!(users[0].id, 2);
    assert_eq!(users[1].name, "A");
    assert!(users_from_rows(&Vec::new()).unwrap().is_empty());
}

#[test]
fn first_bad_row_is_reported() {
    let rows = vec![user_row(1, "A", "a@x", 3), vec![Column::Null], user_row(-1, "C", "c", 0)];
    assert_eq!(users_from_rows(&rows).unwrap_err(), (1, RowError::Arity { found: 1 }));
}

#[test]
fn store_outcomes_map_to_results() {
    assert_eq!(
        users_from_outcome(Err(StoreError::Connection)).unwrap_err(),
        ServiceError::Store(StoreError::Connection)
    );
    assert!(users_from_outcome(Ok(Vec::new())).unwrap().is_empty());
    let listed = users_from_outcome(Ok(vec![user_row(1, "Ada", "ada@example.com", 9)])).unwrap();
    assert_eq!(listed[0].email, "ada@example.com");
    assert_eq!(
        users_from_outcome(Ok(vec![vec![Column::Null, Column::Null, Column::Null, Column::Null]])).unwrap_err(),
        ServiceError::Row(RowError::Mismatch { index: 0 })
    );
    assert_eq!(
        user_from_outcome(Err(StoreError::Query)).unwrap_err(),
        ServiceError::Store(StoreError::Query)
    );
    assert_eq!(user_from_outcome(Ok(user_row(1, "Ada", "a", 0))).unwrap().id, 1);
    assert_eq!(
        user_from_outcome(Ok(vec![Column::Int(1)])).unwrap_err(),
        ServiceError::Row(RowError::Arity { found: 1 })
    );
}

#[test]
fn status_codes() {
    assert_eq!(ServiceError::Body(BodyError::MissingName).status_code(), 422);
    assert_eq!(ServiceError::Body(BodyError::MissingEmail).status_code(), 422);
    assert_eq!(ServiceError::Store(StoreError::Connection).status_code(), 500);
    assert_eq!(ServiceError::Store(StoreError::Query).status_code(), 500);
    assert_eq!(ServiceError::Store(StoreError::IdsExhausted).status_code(), 500);
    assert_eq!(ServiceError::Row(RowError::Arity { found: 2 }).status_code(), 500);
}

#[test]
fn timestamps_compare() {
    let a = Timestamp::from_micros(10);
    let b = Timestamp::from_micros(11);
    assert!(b.is_not_before(&a));
    assert!(a.is_not_before(&a));
    assert!(!a.is_not_before(&b));
}
