//! End-to-end scenarios over the handlers and the store.

use user_service::handlers::{
    body_text, create_user, delete_user, get_user, list_users, status_code, update_user, Response,
    StorageOp,
};
use user_service::store::UserStore;
use user_service::CreateUser;

fn payload(name: &str, email: &str) -> CreateUser {
    CreateUser { name: name.to_string(), email: email.to_string() }
}

fn expect_created(r: Response) -> user_service::user::User {
    assert_eq!(status_code(&r), 201);
    match r {
        Response::Created(u) => u,
        other => panic!("expected a created record, got {:?}", other),
    }
}

fn expect_ok_user(r: Response) -> user_service::user::User {
    assert_eq!(status_code(&r), 200);
    match r {
        Response::OkUser(u) => u,
        other => panic!("expected a record, got {:?}", other),
    }
}

#[test]
fn create_then_get_roundtrip() {
    let mut st = UserStore::new();
    let created = expect_created(create_user(&mut st, &payload("Ada", "ada@example.com")));
    assert!(created.id > 0);
    assert_eq!(created.name, "Ada");
    assert_eq!(created.email, "ada@example.com");

    let fetched = expect_ok_user(get_user(&st, created.id));
    assert_eq!(fetched.id, created.id);
    assert_eq!(fetched.name, "Ada");
    assert_eq!(fetched.email, "ada@example.com");
}

#[test]
fn full_crud_scenario() {
    let mut st = UserStore::new();

    let created = expect_created(create_user(&mut st, &payload("Ada", "ada@example.com")));
    assert!(created.id > 0);
    assert_eq!(created.name, "Ada");
    assert_eq!(created.email, "ada@example.com");
    let id = created.id;

    let fetched = expect_ok_user(get_user(&st, id));
    assert_eq!(fetched.id, id);
    assert_eq!(fetched.name, "Ada");
    assert_eq!(fetched.email, "ada@example.com");

    let updated = expect_ok_user(update_user(&mut st, id, &payload("Ada L.", "ada@example.com")));
    assert_eq!(updated.id, id);
    assert_eq!(updated.name, "Ada L.");
    assert_eq!(updated.email, "ada@example.com");

    let deleted = delete_user(&mut st, id);
    assert_eq!(status_code(&deleted), 200);
    assert_eq!(body_text(&deleted).as_deref(), Some("User deleted"));

    let gone = get_user(&st, id);
    assert_eq!(status_code(&gone), 404);
    assert_eq!(body_text(&gone).as_deref(), Some("User not found"));
}

#[test]
fn ids_are_stable_and_distinct() {
    let mut st = UserStore::new();
    let a = expect_created(create_user(&mut st, &payload("Ada", "ada@example.com")));
    let b = expect_created(create_user(&mut st, &payload("Bob", "bob@example.com")));
    let c = expect_created(create_user(&mut st, &payload("Cyd", "cyd@example.com")));
    assert_eq!((a.id, b.id, c.id), (1, 2, 3));

    let fetched = expect_ok_user(get_user(&st, b.id));
    assert_eq!(fetched.name, "Bob");
}

#[test]
fn get_update_delete_on_unknown_id_not_found() {
    let mut st = UserStore::new();
    expect_created(create_user(&mut st, &payload("Ada", "ada@example.com")));

    for id in [0, -1, 2, 999] {
        let g = get_user(&st, id);
        assert_eq!(status_code(&g), 404);

        let u = update_user(&mut st, id, &payload("New", "new@example.com"));
        assert_eq!(status_code(&u), 404);
        assert_eq!(body_text(&u).as_deref(), Some("User not found"));

        let d = delete_user(&mut st, id);
        assert_eq!(status_code(&d), 404);
    }

    let survivor = expect_ok_user(get_user(&st, 1));
    assert_eq!(survivor.name, "Ada");
}

#[test]
fn delete_then_get_not_found() {
    let mut st = UserStore::new();
    let a = expect_created(create_user(&mut st, &payload("Ada", "ada@example.com")));
    let b = expect_created(create_user(&mut st, &payload("Bob", "bob@example.com")));

    let d = delete_user(&mut st, a.id);
    assert_eq!(status_code(&d), 200);
    assert_eq!(status_code(&get_user(&st, a.id)), 404);

    let still_there = expect_ok_user(get_user(&st, b.id));
    assert_eq!(still_there.name, "Bob");
}

#[test]
fn update_changes_exactly_name_and_email() {
    let mut st = UserStore::new();
    let a = expect_created(create_user(&mut st, &payload("Ada", "ada@example.com")));
    let b = expect_created(create_user(&mut st, &payload("Bob", "bob@example.com")));

    let updated = expect_ok_user(update_user(&mut st, a.id, &payload("Ada L.", "lovelace@example.com")));
    assert_eq!(updated.id, a.id);
    assert_eq!(updated.name, "Ada L.");
    assert_eq!(updated.email, "lovelace@example.com");

    let refetched = expect_ok_user(get_user(&st, a.id));
    assert_eq!(refetched.name, "Ada L.");
    assert_eq!(refetched.email, "lovelace@example.com");

    let untouched = expect_ok_user(get_user(&st, b.id));
    assert_eq!(untouched.name, "Bob");
    assert_eq!(untouched.email, "bob@example.com");
}

#[test]
fn list_returns_exactly_the_created_records() {
    let mut st = UserStore::new();
    match list_users(&st) {
        Response::OkUsers(users) => assert!(users.is_empty()),
        other => panic!("expected a listing, got {:?}", other),
    }

    let names = ["Ada", "Bob", "Cyd"];
    for name in names {
        let email = format!("{}@example.com", name.to_lowercase());
        expect_created(create_user(&mut st, &payload(name, &email)));
    }

    let r = list_users(&st);
    assert_eq!(status_code(&r), 200);
    match r {
        Response::OkUsers(users) => {
            assert_eq!(users.len(), 3);
            // insertion order, ids as assigned
            for (i, name) in names.iter().enumerate() {
                assert_eq!(users[i].id, (i + 1) as i32);
                assert_eq!(&users[i].name, name);
            }
        }
        other => panic!("expected a listing, got {:?}", other),
    }
}

#[test]
fn storage_failure_mapping() {
    for (op, code, text) in [
        (StorageOp::InsertUser, 400, "Error creating user"),
        (StorageOp::RefetchCreated, 500, "Error retrieving created user"),
        (StorageOp::FetchUser, 500, "Error retrieving user"),
        (StorageOp::ListUsers, 500, "Error listing users"),
        (StorageOp::UpdateUser, 500, "Error updating user"),
        (StorageOp::DeleteUser, 400, "Error deleting user"),
    ] {
        let r = Response::StorageFailed(op);
        assert_eq!(status_code(&r), code);
        assert_eq!(body_text(&r).as_deref(), Some(text));
    }
}
