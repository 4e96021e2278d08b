use user_service::health::{liveness, readiness};
use user_service::model::{User, UserError};
use user_service::user_routes::{
    create_user, delete_user, get_user, list_users, update_user, Body,
};

fn sample_user() -> User {
    User {
        id: Some("0123456789abcdef01234567".to_owned()),
        name: "Ada".to_owned(),
        email: "ada@example.com".to_owned(),
        created_at: Some(1700000000000),
    }
}

fn error_message(body: Body) -> String {
    match body {
        Body::ErrorMessage(m) => m,
        other => panic!("expected an error body, got {:?}", body_kind(&other)),
    }
}

fn body_kind(body: &Body) -> &'static str {
    match body {
        Body::UserJson(_) => "user",
        Body::UsersJson(_) => "users",
        Body::ErrorMessage(_) => "error",
        Body::StatusMessage(_) => "status",
        Body::Health(_, _) => "health",
    }
}

#[test]
fn create_reply_carries_the_user() {
    let reply = create_user(Ok(sample_user()));
    assert_eq!(reply.status, 200);
    match reply.body {
        Body::UserJson(u) => {
            assert_eq!(u.name, "Ada");
            assert_eq!(u.email, "ada@example.com");
        },
        other => panic!("expected a user body, got {}", body_kind(&other)),
    }
}

#[test]
fn create_reply_folds_the_fault_message() {
    let reply = create_user(Err(UserError::StorageError("connection reset".to_owned())));
    assert_eq!(reply.status, 200);
    assert_eq!(error_message(reply.body), "connection reset");
}

#[test]
fn error_messages_per_variant() {
    let invalid = create_user(Err(UserError::InvalidIdentifier));
    assert_eq!(error_message(invalid.body), "Invalid ID");
    let missing = create_user(Err(UserError::NotFound));
    assert_eq!(error_message(missing.body), "User not found");
}

#[test]
fn list_reply_carries_all_users() {
    let reply = list_users(Ok(vec![sample_user(), sample_user()]));
    assert_eq!(reply.status, 200);
    match reply.body {
        Body::UsersJson(users) => assert_eq!(users.len(), 2),
        other => panic!("expected a list body, got {}", body_kind(&other)),
    }
    let failed = list_users(Err(UserError::StorageError("down".to_owned())));
    assert_eq!(failed.status, 200);
    assert_eq!(error_message(failed.body), "down");
}

#[test]
fn get_reply_distinguishes_found_missing_and_error() {
    let found = get_user(Ok(Some(sample_user())));
    assert_eq!(found.status, 200);
    assert!(matches!(found.body, Body::UserJson(_)));

    let missing = get_user(Ok(None));
    assert_eq!(missing.status, 200);
    assert_eq!(error_message(missing.body), "User not found");

    let invalid = get_user(Err(UserError::InvalidIdentifier));
    assert_eq!(invalid.status, 200);
    assert_eq!(error_message(invalid.body), "Invalid ID");

    let fault = get_user(Err(UserError::StorageError("down".to_owned())));
    assert_eq!(fault.status, 200);
    assert_eq!(error_message(fault.body), "Invalid ID");
}

#[test]
fn update_reply_is_updated_or_update_failed() {
    let ok = update_user(Ok(()));
    assert_eq!(ok.status, 200);
    match ok.body {
        Body::StatusMessage(m) => assert_eq!(m, "updated"),
        other => panic!("expected a status body, got {}", body_kind(&other)),
    }
    let failed = update_user(Err(UserError::InvalidIdentifier));
    assert_eq!(failed.status, 200);
    assert_eq!(error_message(failed.body), "Update failed");
}

#[test]
fn delete_reply_is_deleted_or_delete_failed() {
    let ok = delete_user(Ok(()));
    assert_eq!(ok.status, 200);
    match ok.body {
        Body::StatusMessage(m) => assert_eq!(m, "deleted"),
        other => panic!("expected a status body, got {}", body_kind(&other)),
    }
    let failed = delete_user(Err(UserError::StorageError("down".to_owned())));
    assert_eq!(failed.status, 200);
    assert_eq!(error_message(failed.body), "Delete failed");
}

#[test]
fn liveness_is_always_alive() {
    let reply = liveness();
    assert_eq!(reply.status, 200);
    match reply.body {
        Body::Health(status, db) => {
            assert_eq!(status, "alive");
            assert!(db.is_none());
        },
        other => panic!("expected a health body, got {}", body_kind(&other)),
    }
}

#[test]
fn readiness_reports_the_store_state() {
    let up = readiness(true);
    assert_eq!(up.status, 200);
    match up.body {
        Body::Health(status, db) => {
            assert_eq!(status, "ready");
            assert_eq!(db.as_deref(), Some("connected"));
        },
        other => panic!("expected a health body, got {}", body_kind(&other)),
    }
    let down = readiness(false);
    assert_eq!(down.status, 503);
    match down.body {
        Body::Health(status, db) => {
            assert_eq!(status, "not_ready");
            assert_eq!(db.as_deref(), Some("down"));
        },
        other => panic!("expected a health body, got {}", body_kind(&other)),
    }
}
