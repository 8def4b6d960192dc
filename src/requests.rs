//! Signup payloads: one variant per role that can sign up, all sharing one
//! set of accessors.

use vstd::prelude::*;

use crate::date::Date;
use crate::roles::UserRole;

verus! {

/// A postal address (Brazilian layout).
#[derive(Debug)]
pub struct UserAddressRequest {
    /// CEP (postal code).
    pub cep: String,
    pub logradouro: String,
    pub numero: String,
    pub complemento: Option<String>,
    pub bairro: Option<String>,
    pub cidade: String,
    /// State abbreviation (e.g. SP).
    pub estado: String,
}

/// Request body of the organizer signup.
#[derive(Debug)]
pub struct SignupOrganizerRequest {
    pub full_name: String,
    pub password: String,
    pub email: String,
    /// CPF (11 digits) or CNPJ (14 digits).
    pub gov_identification: i64,
    pub address: UserAddressRequest,
}

/// Request body of the attendee signup.
#[derive(Debug)]
pub struct SignupAttendeeRequest {
    pub full_name: String,
    pub password: String,
    pub phone: String,
    pub email: String,
    /// CPF (11 digits) or CNPJ (14 digits).
    pub gov_identification: i64,
    pub birth_date: Date,
    pub address: UserAddressRequest,
}

/// The accessors that every signup payload offers.
pub trait SignupRequestLike {
    spec fn spec_full_name(&self) -> Seq<char>;

    spec fn spec_password(&self) -> Seq<char>;

    spec fn spec_email(&self) -> Seq<char>;

    spec fn spec_gov_identification(&self) -> i64;

    fn full_name(&self) -> (r: &str)
        ensures
            r@ == self.spec_full_name(),
    ;

    fn password(&self) -> (r: &str)
        ensures
            r@ == self.spec_password(),
    ;

    fn email(&self) -> (r: &str)
        ensures
            r@ == self.spec_email(),
    ;

    fn gov_identification(&self) -> (r: i64)
        ensures
            r == self.spec_gov_identification(),
    ;
}

impl SignupRequestLike for SignupOrganizerRequest {
    open spec fn spec_full_name(&self) -> Seq<char> {
        self.full_name@
    }

    open spec fn spec_password(&self) -> Seq<char> {
        self.password@
    }

    open spec fn spec_email(&self) -> Seq<char> {
        self.email@
    }

    open spec fn spec_gov_identification(&self) -> i64 {
        self.gov_identification
    }

    fn full_name(&self) -> (r: &str) {
        self.full_name.as_str()
    }

    fn password(&self) -> (r: &str) {
        self.password.as_str()
    }

    fn email(&self) -> (r: &str) {
        self.email.as_str()
    }

    fn gov_identification(&self) -> (r: i64) {
        self.gov_identification
    }
}

impl SignupRequestLike for SignupAttendeeRequest {
    open spec fn spec_full_name(&self) -> Seq<char> {
        self.full_name@
    }

    open spec fn spec_password(&self) -> Seq<char> {
        self.password@
    }

    open spec fn spec_email(&self) -> Seq<char> {
        self.email@
    }

    open spec fn spec_gov_identification(&self) -> i64 {
        self.gov_identification
    }

    fn full_name(&self) -> (r: &str) {
        self.full_name.as_str()
    }

    fn password(&self) -> (r: &str) {
        self.password.as_str()
    }

    fn email(&self) -> (r: &str) {
        self.email.as_str()
    }

    fn gov_identification(&self) -> (r: i64) {
        self.gov_identification
    }
}

/// A signup payload of either role.
#[derive(Debug)]
pub enum SignupRequest {
    Organizer(SignupOrganizerRequest),
    Attendee(SignupAttendeeRequest),
}

/// The role that a signup payload creates.
pub open spec fn requested_role(req: SignupRequest) -> UserRole {
    match req {
        SignupRequest::Organizer(_) => UserRole::Organizer,
        SignupRequest::Attendee(_) => UserRole::Attendee,
    }
}

impl SignupRequest {
    pub fn role(&self) -> (r: UserRole)
        ensures
            r == requested_role(*self),
    {
        match self {
            SignupRequest::Organizer(_) => UserRole::Organizer,
            SignupRequest::Attendee(_) => UserRole::Attendee,
        }
    }
}

} // verus!
