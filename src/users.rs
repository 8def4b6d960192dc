//! Users and their role-specific profiles, as the store holds them.

use vstd::prelude::*;

use crate::date::Date;
use crate::roles::{lowercase_of, role_named, UserRole};

verus! {

/// An identity record. The credential hash stays in the store and is never
/// part of this value.
#[derive(Debug, Clone)]
pub struct User {
    /// The user's identifier (a UUID, as its 128-bit value).
    pub id: u128,
    pub full_name: String,
    pub role: UserRole,
    pub email: String,
    pub gov_identification: i64,
}

/// A user row as the store returns it, with the role still in text form.
#[derive(Debug)]
pub struct UserRow {
    pub id: u128,
    pub full_name: String,
    pub role: String,
    pub email: String,
    pub gov_identification: i64,
}

/// Organizer-specific data (1:1 with users whose role is organizer).
#[derive(Debug, Clone)]
pub struct OrganizerData {
    pub id: u128,
    pub user_id: u128,
    /// Creation time, in microseconds since the Unix epoch (UTC).
    pub created_at: i64,
}

/// Attendee-specific data (1:1 with users whose role is attendee).
#[derive(Debug, Clone)]
pub struct AttendeeData {
    pub id: u128,
    pub user_id: u128,
    pub phone: String,
    pub birth_date: Date,
    /// Creation time, in microseconds since the Unix epoch (UTC).
    pub created_at: i64,
}

/// The role-specific profile of a user.
#[derive(Debug, Clone)]
pub enum RelatedData {
    Organizer(OrganizerData),
    Attendee(AttendeeData),
}

/// A user together with its profile, where its role has one.
#[derive(Debug)]
pub struct UserWithRelatedData {
    pub user: User,
    pub related_data: Option<RelatedData>,
}

/// The answer to a successful signup.
#[derive(Debug)]
pub struct SignupResponse {
    pub token: String,
    pub user: User,
}

/// The role that a stored role name stands for; a name that is no role reads
/// as the default role.
pub open spec fn stored_role(name: Seq<char>) -> UserRole {
    match role_named(lowercase_of(name)) {
        Some(r) => r,
        None => UserRole::Attendee,
    }
}

impl User {
    /// A copy of the user.
    pub fn snapshot(&self) -> (r: User)
        ensures
            r == *self,
    {
        User {
            id: self.id,
            full_name: self.full_name.clone(),
            role: self.role,
            email: self.email.clone(),
            gov_identification: self.gov_identification,
        }
    }
}

impl UserRow {
    pub fn into_user(self) -> (r: User)
        ensures
            r.id == self.id,
            r.full_name == self.full_name,
            r.role == stored_role(self.role@),
            r.email == self.email,
            r.gov_identification == self.gov_identification,
    {
        let role = match UserRole::from_str(self.role.as_str()) {
            Ok(role) => role,
            Err(_) => UserRole::Attendee,
        };
        User {
            id: self.id,
            full_name: self.full_name,
            role,
            email: self.email,
            gov_identification: self.gov_identification,
        }
    }
}

impl OrganizerData {
    pub fn snapshot(&self) -> (r: OrganizerData)
        ensures
            r == *self,
    {
        OrganizerData { id: self.id, user_id: self.user_id, created_at: self.created_at }
    }
}

impl AttendeeData {
    pub fn snapshot(&self) -> (r: AttendeeData)
        ensures
            r == *self,
    {
        AttendeeData {
            id: self.id,
            user_id: self.user_id,
            phone: self.phone.clone(),
            birth_date: self.birth_date,
            created_at: self.created_at,
        }
    }
}

impl RelatedData {
    /// The id of the user whom the profile belongs to.
    pub open spec fn owner(self) -> u128 {
        match self {
            RelatedData::Organizer(o) => o.user_id,
            RelatedData::Attendee(a) => a.user_id,
        }
    }
}

} // verus!
