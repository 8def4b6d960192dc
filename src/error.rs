//! The error taxonomy of the identity core and its mapping to HTTP.

use vstd::prelude::*;

use crate::text::str_eq;

verus! {

/// Consistent error payload for the API.
#[derive(Debug)]
pub struct ApiErrorBody {
    pub error: String,
    pub code: Option<String>,
}

/// The unique field whose value is already taken by another user.
#[derive(Debug, Clone, Copy, PartialEq, Eq, Structural)]
pub enum ConflictField {
    Email,
    GovIdentification,
    /// A uniqueness constraint other than the two known ones.
    Other,
}

/// What the relational store reported when a statement or a commit failed.
#[derive(Debug)]
pub struct StoreFailure {
    /// The SQLSTATE code, where the failure came from the database itself.
    pub code: Option<String>,
    /// The violated constraint, where the database named one.
    pub constraint: Option<String>,
}

#[derive(Debug)]
pub enum ApiError {
    InvalidRole(String),
    Unauthorized,
    Forbidden,
    NotFound,
    BadRequest(String),
    Conflict(ConflictField),
    MissingDatabaseUrl,
    MissingJwtSecret,
    Db(StoreFailure),
    Hashing,
    Internal,
}

/// The HTTP status of each error.
pub open spec fn status_of(e: ApiError) -> u16 {
    match e {
        ApiError::InvalidRole(_) => 400,
        ApiError::Unauthorized => 401,
        ApiError::Forbidden => 403,
        ApiError::NotFound => 404,
        ApiError::BadRequest(_) => 400,
        ApiError::Conflict(_) => 409,
        ApiError::MissingDatabaseUrl => 500,
        ApiError::MissingJwtSecret => 500,
        ApiError::Db(_) => 500,
        ApiError::Hashing => 500,
        ApiError::Internal => 500,
    }
}

/// The stable machine-readable code of each error.
pub open spec fn code_of(e: ApiError) -> Seq<char> {
    match e {
        ApiError::InvalidRole(_) => "invalid_role"@,
        ApiError::Unauthorized => "unauthorized"@,
        ApiError::Forbidden => "forbidden"@,
        ApiError::NotFound => "not_found"@,
        ApiError::BadRequest(_) => "bad_request"@,
        ApiError::Conflict(_) => "conflict"@,
        ApiError::MissingDatabaseUrl => "missing_database_url"@,
        ApiError::MissingJwtSecret => "missing_jwt_secret"@,
        ApiError::Db(_) => "db_error"@,
        ApiError::Hashing => "hashing_error"@,
        ApiError::Internal => "internal"@,
    }
}

/// The name of a conflicting field as shown to the caller.
pub open spec fn field_name(f: ConflictField) -> Seq<char> {
    match f {
        ConflictField::Email => "email"@,
        ConflictField::GovIdentification => "gov_identification"@,
        ConflictField::Other => "unique field"@,
    }
}

/// The message shown to the caller. Server-side failures get a generic text
/// that reveals nothing of their cause.
pub open spec fn message_of(e: ApiError) -> Seq<char> {
    match e {
        ApiError::InvalidRole(s) => "invalid role: "@ + s@,
        ApiError::Unauthorized => "unauthorized"@,
        ApiError::Forbidden => "forbidden"@,
        ApiError::NotFound => "not found"@,
        ApiError::BadRequest(s) => "bad request: "@ + s@,
        ApiError::Conflict(f) => "conflict: "@ + field_name(f) + " already in use"@,
        ApiError::MissingDatabaseUrl => "internal server error"@,
        ApiError::MissingJwtSecret => "internal server error"@,
        ApiError::Db(_) => "database error"@,
        ApiError::Hashing => "internal server error"@,
        ApiError::Internal => "internal server error"@,
    }
}

impl ConflictField {
    pub fn as_str(&self) -> (r: &'static str)
        ensures
            r@ == field_name(*self),
    {
        proof {
            reveal_strlit("email");
            reveal_strlit("gov_identification");
            reveal_strlit("unique field");
        }
        match self {
            ConflictField::Email => "email",
            ConflictField::GovIdentification => "gov_identification",
            ConflictField::Other => "unique field",
        }
    }
}

impl ApiError {
    pub fn status(&self) -> (r: u16)
        ensures
            r == status_of(*self),
    {
        match self {
            ApiError::InvalidRole(_) => 400,
            ApiError::Unauthorized => 401,
            ApiError::Forbidden => 403,
            ApiError::NotFound => 404,
            ApiError::BadRequest(_) => 400,
            ApiError::Conflict(_) => 409,
            ApiError::MissingDatabaseUrl => 500,
            ApiError::MissingJwtSecret => 500,
            ApiError::Db(_) => 500,
            ApiError::Hashing => 500,
            ApiError::Internal => 500,
        }
    }

    /// Whether the error is a failure of the server rather than of the request.
    pub fn is_server_error(&self) -> (r: bool)
        ensures
            r == (status_of(*self) >= 500),
    {
        self.status() >= 500
    }

    pub fn code(&self) -> (r: Option<&'static str>)
        ensures
            r is Some,
            r.unwrap()@ == code_of(*self),
    {
        proof {
            reveal_strlit("invalid_role");
            reveal_strlit("unauthorized");
            reveal_strlit("forbidden");
            reveal_strlit("not_found");
            reveal_strlit("bad_request");
            reveal_strlit("conflict");
            reveal_strlit("missing_database_url");
            reveal_strlit("missing_jwt_secret");
            reveal_strlit("db_error");
            reveal_strlit("hashing_error");
            reveal_strlit("internal");
        }
        match self {
            ApiError::InvalidRole(_) => Some("invalid_role"),
            ApiError::Unauthorized => Some("unauthorized"),
            ApiError::Forbidden => Some("forbidden"),
            ApiError::NotFound => Some("not_found"),
            ApiError::BadRequest(_) => Some("bad_request"),
            ApiError::Conflict(_) => Some("conflict"),
            ApiError::MissingDatabaseUrl => Some("missing_database_url"),
            ApiError::MissingJwtSecret => Some("missing_jwt_secret"),
            ApiError::Db(_) => Some("db_error"),
            ApiError::Hashing => Some("hashing_error"),
            ApiError::Internal => Some("internal"),
        }
    }

    /// The caller-facing message of the error.
    pub fn message(&self) -> (r: String)
        ensures
            r@ == message_of(*self),
    {
        proof {
            reveal_strlit("invalid role: ");
            reveal_strlit("unauthorized");
            reveal_strlit("forbidden");
            reveal_strlit("not found");
            reveal_strlit("bad request: ");
            reveal_strlit("conflict: ");
            reveal_strlit(" already in use");
            reveal_strlit("internal server error");
            reveal_strlit("database error");
        }
        match self {
            ApiError::InvalidRole(s) => String::from_str("invalid role: ").concat(s.as_str()),
            ApiError::Unauthorized => String::from_str("unauthorized"),
            ApiError::Forbidden => String::from_str("forbidden"),
            ApiError::NotFound => String::from_str("not found"),
            ApiError::BadRequest(s) => String::from_str("bad request: ").concat(s.as_str()),
            ApiError::Conflict(f) => String::from_str("conflict: ").concat(f.as_str()).concat(
                " already in use",
            ),
            ApiError::MissingDatabaseUrl => String::from_str("internal server error"),
            ApiError::MissingJwtSecret => String::from_str("internal server error"),
            ApiError::Db(_) => String::from_str("database error"),
            ApiError::Hashing => String::from_str("internal server error"),
            ApiError::Internal => String::from_str("internal server error"),
        }
    }

    /// The JSON body sent to the caller for this error.
    pub fn body(&self) -> (r: ApiErrorBody)
        ensures
            r.error@ == message_of(*self),
            r.code is Some,
            r.code.unwrap()@ == code_of(*self),
    {
        let code = match self.code() {
            Some(c) => Some(String::from_str(c)),
            None => None,
        };
        ApiErrorBody { error: self.message(), code }
    }
}

/// The SQLSTATE that the database reports for a unique-constraint violation.
pub open spec fn unique_violation_code() -> Seq<char> {
    "23505"@
}

/// The unique field that a constraint guards, by the constraint's name.
pub open spec fn constraint_field(name: Seq<char>) -> ConflictField {
    if name == "users_email_key"@ {
        ConflictField::Email
    } else if name == "users_gov_identification_key"@ {
        ConflictField::GovIdentification
    } else {
        ConflictField::Other
    }
}

/// How a failure of the store surfaces: a uniqueness violation is a conflict
/// on the field that it guards, anything else a storage error.
pub open spec fn store_error(f: StoreFailure) -> ApiError {
    if f.code is Some && f.code.unwrap()@ == unique_violation_code() {
        ApiError::Conflict(
            if f.constraint is Some {
                constraint_field(f.constraint.unwrap()@)
            } else {
                ConflictField::Other
            },
        )
    } else {
        ApiError::Db(f)
    }
}

/// Translates a failure of the store into the error that the caller sees.
pub fn classify_store_failure(f: StoreFailure) -> (r: ApiError)
    ensures
        r == store_error(f),
{
    let is_unique = match &f.code {
        Some(c) => str_eq(c.as_str(), "23505"),
        None => false,
    };
    if is_unique {
        proof {
            reveal_strlit("23505");
        }
        let field = match &f.constraint {
            Some(name) => {
                if str_eq(name.as_str(), "users_email_key") {
                    ConflictField::Email
                } else if str_eq(name.as_str(), "users_gov_identification_key") {
                    ConflictField::GovIdentification
                } else {
                    ConflictField::Other
                }
            },
            None => ConflictField::Other,
        };
        ApiError::Conflict(field)
    } else {
        ApiError::Db(f)
    }
}

} // verus!
