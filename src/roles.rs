//! The closed set of user roles and their textual names.

use vstd::prelude::*;

use crate::error::ApiError;
use crate::text::str_eq;

verus! {

/// Roles supported by the system.
#[derive(Debug, Clone, Copy, PartialEq, Eq, Structural)]
pub enum UserRole {
    Organizer,
    Attendee,
    Admin,
    Promoter,
    Colaborator,
}

/// The lower-case name under which a role is stored and shown.
pub open spec fn role_name(r: UserRole) -> Seq<char> {
    match r {
        UserRole::Organizer => "organizer"@,
        UserRole::Attendee => "attendee"@,
        UserRole::Admin => "admin"@,
        UserRole::Promoter => "promoter"@,
        UserRole::Colaborator => "colaborator"@,
    }
}

/// The role whose name is exactly `s`, if any.
pub open spec fn role_named(s: Seq<char>) -> Option<UserRole> {
    if s == "organizer"@ {
        Some(UserRole::Organizer)
    } else if s == "attendee"@ {
        Some(UserRole::Attendee)
    } else if s == "admin"@ {
        Some(UserRole::Admin)
    } else if s == "promoter"@ {
        Some(UserRole::Promoter)
    } else if s == "colaborator"@ {
        Some(UserRole::Colaborator)
    } else {
        None
    }
}

/// What `str::to_lowercase` returns for a string.
pub uninterp spec fn lowercase_of(s: Seq<char>) -> Seq<char>;

/// Relies on `str::to_lowercase` (Unicode lower-case mapping); the result
/// depends on the characters of `s` alone.
#[verifier::external_body]
fn to_lowercase(s: &str) -> (r: String)
    ensures
        r@ == lowercase_of(s@),
{
    s.to_lowercase()
}

impl UserRole {
    pub fn as_str(&self) -> (r: &'static str)
        ensures
            r@ == role_name(*self),
    {
        proof {
            reveal_strlit("organizer");
            reveal_strlit("attendee");
            reveal_strlit("admin");
            reveal_strlit("promoter");
            reveal_strlit("colaborator");
        }
        match self {
            UserRole::Organizer => "organizer",
            UserRole::Attendee => "attendee",
            UserRole::Admin => "admin",
            UserRole::Promoter => "promoter",
            UserRole::Colaborator => "colaborator",
        }
    }

    /// The role whose name is exactly `s` (already lower-case).
    pub fn from_lowercase(s: &str) -> (r: Option<UserRole>)
        ensures
            r == role_named(s@),
    {
        if str_eq(s, "organizer") {
            Some(UserRole::Organizer)
        } else if str_eq(s, "attendee") {
            Some(UserRole::Attendee)
        } else if str_eq(s, "admin") {
            Some(UserRole::Admin)
        } else if str_eq(s, "promoter") {
            Some(UserRole::Promoter)
        } else if str_eq(s, "colaborator") {
            Some(UserRole::Colaborator)
        } else {
            None
        }
    }

    /// Parses a role name, ignoring case.
    pub fn from_str(s: &str) -> (r: Result<UserRole, ApiError>)
        ensures
            role_named(lowercase_of(s@)) is Some ==> r == Ok::<UserRole, ApiError>(
                role_named(lowercase_of(s@)).unwrap(),
            ),
            role_named(lowercase_of(s@)) is None ==> (r matches Err(ApiError::InvalidRole(t))
                && t@ == s@),
    {
        let lower = to_lowercase(s);
        match UserRole::from_lowercase(lower.as_str()) {
            Some(role) => Ok(role),
            None => Err(ApiError::InvalidRole(String::from_str(s))),
        }
    }
}

impl Default for UserRole {
    fn default() -> (r: UserRole)
        ensures
            r == UserRole::Attendee,
    {
        UserRole::Attendee
    }
}

/// Coarse access classes: organizers and admins keep their own, every other
/// role counts as an attendee.
#[derive(Debug, Clone, Copy, PartialEq, Eq, Structural)]
pub enum Role {
    Organizer,
    Attendee,
    Admin,
}

/// The lower-case name of an access class.
pub open spec fn access_name(r: Role) -> Seq<char> {
    match r {
        Role::Organizer => "organizer"@,
        Role::Attendee => "attendee"@,
        Role::Admin => "admin"@,
    }
}

/// The access class of a role.
pub open spec fn access_class(r: UserRole) -> Role {
    match r {
        UserRole::Organizer => Role::Organizer,
        UserRole::Admin => Role::Admin,
        _ => Role::Attendee,
    }
}

impl Role {
    pub fn of(role: UserRole) -> (r: Role)
        ensures
            r == access_class(role),
    {
        match role {
            UserRole::Organizer => Role::Organizer,
            UserRole::Admin => Role::Admin,
            _ => Role::Attendee,
        }
    }

    pub fn as_str(&self) -> (r: &'static str)
        ensures
            r@ == access_name(*self),
    {
        proof {
            reveal_strlit("organizer");
            reveal_strlit("attendee");
            reveal_strlit("admin");
        }
        match self {
            Role::Organizer => "organizer",
            Role::Attendee => "attendee",
            Role::Admin => "admin",
        }
    }
}

} // verus!
