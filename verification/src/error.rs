//! The failures that cross the layers: those of a store, and what each
//! service makes of them.

use vstd::prelude::*;
use vstd::std_specs::convert::FromSpecImpl;
use vstd::string::StringExecFns;

verus! {

/// What a store reports when it cannot do what it was asked.
#[derive(Debug)]
pub enum ModelError {
    /// No record answers the query.
    NotFound,
    /// The store itself failed; the text is for the server's log.
    Database(String),
    /// A record with the same unique value is already there.
    Conflict,
}

/// A store failure without its text.
#[derive(Debug, Clone, Copy, PartialEq, Eq, Structural)]
pub enum ModelErrorKind {
    NotFound,
    Database,
    Conflict,
}

impl ModelError {
    /// Which failure this is; the text of a database failure is left out.
    pub open spec fn kind(self) -> ModelErrorKind {
        match self {
            ModelError::NotFound => ModelErrorKind::NotFound,
            ModelError::Database(_) => ModelErrorKind::Database,
            ModelError::Conflict => ModelErrorKind::Conflict,
        }
    }

    /// The text of the failure, as a log line shows it.
    pub open spec fn message_text(self) -> Seq<char> {
        match self {
            ModelError::NotFound => "Not Found"@,
            ModelError::Database(detail) => "Database error: "@ + detail@,
            ModelError::Conflict => "Data already exist"@,
        }
    }

    /// Renders the failure for a log line.
    pub fn message(&self) -> (r: String)
        ensures
            r@ == self.message_text(),
    {
        match self {
            ModelError::NotFound => String::from_str("Not Found"),
            ModelError::Database(detail) => String::from_str("Database error: ").concat(
                detail.as_str(),
            ),
            ModelError::Conflict => String::from_str("Data already exist"),
        }
    }
}

/// How the session service fails.
#[derive(Debug, Clone, Copy, PartialEq, Eq, Structural)]
pub enum AuthError {
    /// No account, or no session, answers the request.
    NotFound,
    /// The address is already registered.
    Conflict,
    /// The password does not match the account.
    InvalidCredentials,
    /// The refresh token does not match the stored session.
    TokenExpired,
    /// Hashing, signing or the store failed; the cause stays on the server.
    GeneralError,
}

impl AuthError {
    /// The failure of the session layer that stands for a store failure of
    /// the same kind: a missing record, a conflict, and a general error for
    /// the rest. Each operation of the session service decides for itself
    /// which of these it lets through.
    pub open spec fn of_kind(kind: ModelErrorKind) -> AuthError {
        match kind {
            ModelErrorKind::NotFound => AuthError::NotFound,
            ModelErrorKind::Conflict => AuthError::Conflict,
            ModelErrorKind::Database => AuthError::GeneralError,
        }
    }
}

impl From<ModelError> for AuthError {
    fn from(err: ModelError) -> (r: AuthError) {
        match err {
            ModelError::NotFound => AuthError::NotFound,
            ModelError::Conflict => AuthError::Conflict,
            _ => AuthError::GeneralError,
        }
    }
}

impl FromSpecImpl<ModelError> for AuthError {
    open spec fn obeys_from_spec() -> bool {
        true
    }

    open spec fn from_spec(err: ModelError) -> AuthError {
        AuthError::of_kind(err.kind())
    }
}

/// How the account administration fails.
#[derive(Debug, Clone, Copy, PartialEq, Eq, Structural)]
pub enum UserError {
    NotFound,
    BussinerError,
    GeneralError,
}

impl UserError {
    /// What the account administration reports for a store failure.
    pub open spec fn of_kind(kind: ModelErrorKind) -> UserError {
        match kind {
            ModelErrorKind::NotFound => UserError::NotFound,
            ModelErrorKind::Database => UserError::GeneralError,
            ModelErrorKind::Conflict => UserError::BussinerError,
        }
    }
}

impl From<ModelError> for UserError {
    fn from(err: ModelError) -> (r: UserError) {
        match err {
            ModelError::NotFound => UserError::NotFound,
            ModelError::Database(_) => UserError::GeneralError,
            _ => UserError::BussinerError,
        }
    }
}

impl FromSpecImpl<ModelError> for UserError {
    open spec fn obeys_from_spec() -> bool {
        true
    }

    open spec fn from_spec(err: ModelError) -> UserError {
        UserError::of_kind(err.kind())
    }
}

/// How the to-do service fails.
#[derive(Debug, Clone, Copy, PartialEq, Eq, Structural)]
pub enum TodoError {
    NotFound,
    BussinerError,
    GeneralError,
}

impl TodoError {
    /// What the to-do service reports for a store failure.
    pub open spec fn of_kind(kind: ModelErrorKind) -> TodoError {
        match kind {
            ModelErrorKind::NotFound => TodoError::NotFound,
            ModelErrorKind::Database => TodoError::GeneralError,
            ModelErrorKind::Conflict => TodoError::BussinerError,
        }
    }
}

impl From<ModelError> for TodoError {
    fn from(err: ModelError) -> (r: TodoError) {
        match err {
            ModelError::NotFound => TodoError::NotFound,
            ModelError::Database(_) => TodoError::GeneralError,
            _ => TodoError::BussinerError,
        }
    }
}

impl FromSpecImpl<ModelError> for TodoError {
    open spec fn obeys_from_spec() -> bool {
        true
    }

    open spec fn from_spec(err: ModelError) -> TodoError {
        TodoError::of_kind(err.kind())
    }
}

} // verus!
