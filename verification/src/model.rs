//! The user resource and the outcome taxonomy of the repository operations.

use vstd::prelude::*;

verus! {

/// Mathematical model of a user record: the identifier as the sequence of
/// its hex digits, the two text fields as character sequences, and the
/// creation time in milliseconds since the epoch.
pub struct UserView {
    pub id: Option<Seq<char>>,
    pub name: Seq<char>,
    pub email: Seq<char>,
    pub created_at: Option<i64>,
}

/// A user resource. The identifier is assigned by the repository exactly
/// once, at creation, and the creation timestamp is set then and never
/// changed.
#[derive(Debug)]
pub struct User {
    pub id: Option<String>,
    pub name: String,
    pub email: String,
    pub created_at: Option<i64>,
}

impl View for User {
    type V = UserView;

    open spec fn view(&self) -> UserView {
        UserView {
            id: self.id.deep_view(),
            name: self.name@,
            email: self.email@,
            created_at: self.created_at,
        }
    }
}

impl DeepView for User {
    type V = UserView;

    open spec fn deep_view(&self) -> UserView {
        self.view()
    }
}

impl User {
    /// An owned copy of this user, equal to the original.
    pub fn duplicate(&self) -> (r: User)
        ensures
            r == *self,
    {
        User {
            id: match &self.id {
                Some(s) => Some(s.clone()),
                None => None,
            },
            name: self.name.clone(),
            email: self.email.clone(),
            created_at: self.created_at,
        }
    }
}

/// Payload of a creation request: both fields are required.
#[derive(Debug)]
pub struct CreateUserRequest {
    pub name: String,
    pub email: String,
}

/// Payload of an update request: a partial patch. A field left unset is
/// left untouched on the stored user.
#[derive(Debug)]
pub struct UpdateUserRequest {
    pub name: Option<String>,
    pub email: Option<String>,
}

/// Outcome taxonomy of the repository: a malformed identifier (rejected
/// before any store access), a well-formed identifier with no matching
/// user, or a fault of the store itself, carrying its message.
#[derive(Debug)]
pub enum UserError {
    InvalidIdentifier,
    NotFound,
    StorageError(String),
}

/// The transport-level message of each error.
pub open spec fn spec_message(e: UserError) -> Seq<char> {
    match e {
        UserError::InvalidIdentifier => "Invalid ID"@,
        UserError::NotFound => "User not found"@,
        UserError::StorageError(m) => m@,
    }
}

impl UserError {
    /// The message a handler folds into an error reply.
    pub fn message(&self) -> (r: String)
        ensures
            r@ == spec_message(*self),
    {
        match self {
            UserError::InvalidIdentifier => "Invalid ID".to_owned(),
            UserError::NotFound => "User not found".to_owned(),
            UserError::StorageError(m) => m.clone(),
        }
    }
}

} // verus!
