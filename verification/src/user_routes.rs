//! The handler layer: each handler folds a repository outcome into an HTTP
//! reply. Every user operation answers with status 200, success and failure
//! alike; only the payload shape tells them apart.

use vstd::prelude::*;

use crate::model::{spec_message, User, UserError};

verus! {

/// Body of an HTTP reply: a user rendered as JSON, a list of users, an
/// error object `{"error": message}`, a status object `{"status": message}`,
/// or a health object `{"status": .., "db": ..}` whose `db` field is
/// omitted when absent.
pub enum Body {
    UserJson(User),
    UsersJson(Vec<User>),
    ErrorMessage(String),
    StatusMessage(String),
    Health(String, Option<String>),
}

/// An HTTP reply: the status code and the body to render as JSON.
pub struct Reply {
    pub status: u16,
    pub body: Body,
}

/// Reply to a creation request: the created user, or the store fault's own
/// message as an error object. Either way the status is 200.
pub fn create_user(outcome: Result<User, UserError>) -> (r: Reply)
    ensures
        r.status == 200,
        match outcome {
            Ok(u) => r.body matches Body::UserJson(v) && v == u,
            Err(e) => r.body matches Body::ErrorMessage(m) && m@ == spec_message(e),
        },
{
    match outcome {
        Ok(u) => Reply { status: 200, body: Body::UserJson(u) },
        Err(e) => Reply { status: 200, body: Body::ErrorMessage(e.message()) },
    }
}

/// Reply to a listing request: every user fetched, in store order, or the
/// fault's message as an error object.
pub fn list_users(outcome: Result<Vec<User>, UserError>) -> (r: Reply)
    ensures
        r.status == 200,
        match outcome {
            Ok(users) => r.body matches Body::UsersJson(v) && v == users,
            Err(e) => r.body matches Body::ErrorMessage(m) && m@ == spec_message(e),
        },
{
    match outcome {
        Ok(users) => Reply { status: 200, body: Body::UsersJson(users) },
        Err(e) => Reply { status: 200, body: Body::ErrorMessage(e.message()) },
    }
}

/// Reply to a single-user fetch: the user when one was found, the fixed
/// "User not found" error object when none was, and the fixed "Invalid ID"
/// error object on any repository error.
pub fn get_user(outcome: Result<Option<User>, UserError>) -> (r: Reply)
    ensures
        r.status == 200,
        match outcome {
            Ok(found) => match found {
                Some(u) => r.body matches Body::UserJson(v) && v == u,
                None => r.body matches Body::ErrorMessage(m) && m@ == "User not found"@,
            },
            Err(e) => r.body matches Body::ErrorMessage(m) && m@ == "Invalid ID"@,
        },
{
    match outcome {
        Ok(Some(u)) => Reply { status: 200, body: Body::UserJson(u) },
        Ok(None) => Reply { status: 200, body: Body::ErrorMessage("User not found".to_owned()) },
        Err(_) => Reply { status: 200, body: Body::ErrorMessage("Invalid ID".to_owned()) },
    }
}

/// Reply to an update request: the fixed "updated" status object on
/// success, the fixed "Update failed" error object on any repository error.
pub fn update_user(outcome: Result<(), UserError>) -> (r: Reply)
    ensures
        r.status == 200,
        match outcome {
            Ok(u) => r.body matches Body::StatusMessage(m) && m@ == "updated"@,
            Err(e) => r.body matches Body::ErrorMessage(m) && m@ == "Update failed"@,
        },
{
    match outcome {
        Ok(_) => Reply { status: 200, body: Body::StatusMessage("updated".to_owned()) },
        Err(_) => Reply { status: 200, body: Body::ErrorMessage("Update failed".to_owned()) },
    }
}

/// Reply to a removal request: the fixed "deleted" status object on
/// success, the fixed "Delete failed" error object on any repository error.
pub fn delete_user(outcome: Result<(), UserError>) -> (r: Reply)
    ensures
        r.status == 200,
        match outcome {
            Ok(u) => r.body matches Body::StatusMessage(m) && m@ == "deleted"@,
            Err(e) => r.body matches Body::ErrorMessage(m) && m@ == "Delete failed"@,
        },
{
    match outcome {
        Ok(_) => Reply { status: 200, body: Body::StatusMessage("deleted".to_owned()) },
        Err(_) => Reply { status: 200, body: Body::ErrorMessage("Delete failed".to_owned()) },
    }
}

} // verus!
