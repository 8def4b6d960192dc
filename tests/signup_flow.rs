use noxel::credentials::{hash_password, verify_password};
use noxel::date::Date;
use noxel::error::{ApiError, ConflictField, StoreFailure};
use noxel::requests::{
    SignupAttendeeRequest, SignupOrganizerRequest, SignupRequest, UserAddressRequest,
};
use noxel::roles::UserRole;
use noxel::signup::{Progress, SignupFlow, StoreAction, StoreReply};
use noxel::users::{AttendeeData, OrganizerData, RelatedData, UserRow};

fn address() -> UserAddressRequest {
    UserAddressRequest {
        cep: "01001-000".to_string(),
        logradouro: "Avenida Paulista".to_string(),
        numero: "123".to_string(),
        complemento: None,
        bairro: Some("Centro".to_string()),
        cidade: "Sao Paulo".to_string(),
        estado: "SP".to_string(),
    }
}

fn organizer_request() -> SignupRequest {
    SignupRequest::Organizer(SignupOrganizerRequest {
        full_name: "Johnson Smith".to_string(),
        password: "123456".to_string(),
        email: "johnson@noxel.com".to_string(),
        gov_identification: 12345678901,
        address: address(),
    })
}

fn attendee_request() -> SignupRequest {
    SignupRequest::Attendee(SignupAttendeeRequest {
        full_name: "Robert Smith".to_string(),
        password: "pw123456".to_string(),
        phone: "+5511999999999".to_string(),
        email: "robert@x.com".to_string(),
        gov_identification: 12345678901,
        birth_date: Date::from_ymd(1990, 1, 31).unwrap(),
        address: address(),
    })
}

fn organizer_row(id: u128) -> UserRow {
    UserRow {
        id,
        full_name: "Johnson Smith".to_string(),
        role: "organizer".to_string(),
        email: "johnson@noxel.com".to_string(),
        gov_identification: 12345678901,
    }
}

fn next(p: Progress) -> (SignupFlow, StoreAction) {
    match p {
        Progress::Next(f, a) => (f, a),
        Progress::Done(r) => panic!("ended early: {:?}", r),
    }
}

#[test]
fn hashes_are_salted_argon2id() {
    let a = hash_password("secret-pw").unwrap();
    let b = hash_password("secret-pw").unwrap();
    assert!(a.starts_with("$argon2id$v=19$"));
    assert!(b.starts_with("$argon2id$v=19$"));
    assert_ne!(a, b);
    assert_ne!(a, "secret-pw");
}

#[test]
fn hashes_verify_only_their_password() {
    let h = hash_password("secret-pw").unwrap();
    assert!(verify_password("secret-pw", &h));
    assert!(!verify_password("secret-px", &h));
    assert!(!verify_password("secret-pw", "not a phc string"));
}

#[test]
fn start_hashes_then_begins() {
    assert_eq!(organizer_request().role(), UserRole::Organizer);
    assert_eq!(attendee_request().role(), UserRole::Attendee);
    let (flow, action) = next(SignupFlow::start(organizer_request()));
    assert!(matches!(action, StoreAction::Begin));
    assert!(flow.new_user.password_hash.starts_with("$argon2id$"));
    assert!(verify_password("123456", &flow.new_user.password_hash));
    assert_eq!(flow.new_user.full_name, "Johnson Smith");
    assert_eq!(flow.new_user.role, UserRole::Organizer);
}

#[test]
fn organizer_signup_inserts_user_then_profile_then_commits() {
    let flow = SignupFlow::begin(organizer_request(), "$argon2id$v=19$h".to_string());
    let (flow, action) = next(flow.step(StoreReply::Begun));
    match action {
        StoreAction::InsertUser(nu) => {
            assert_eq!(nu.full_name, "Johnson Smith");
            assert_eq!(nu.email, "johnson@noxel.com");
            assert_eq!(nu.gov_identification, 12345678901);
            assert_eq!(nu.role, UserRole::Organizer);
            assert_eq!(nu.password_hash, "$argon2id$v=19$h");
        }
        other => panic!("unexpected {:?}", other),
    }
    let (flow, action) = next(flow.step(StoreReply::UserInserted(organizer_row(42))));
    assert!(matches!(action, StoreAction::InsertOrganizerData { user_id: 42 }));
    let profile = OrganizerData { id: 9, user_id: 42, created_at: 0 };
    let (flow, action) = next(flow.step(StoreReply::OrganizerInserted(profile)));
    assert!(matches!(action, StoreAction::Commit));
    match flow.step(StoreReply::Committed) {
        Progress::Done(Ok((user, RelatedData::Organizer(o)))) => {
            assert_eq!(user.id, 42);
            assert_eq!(o.user_id, user.id);
            assert_eq!(user.role, UserRole::Organizer);
        }
        other => panic!("unexpected {:?}", other),
    }
}

#[test]
fn duplicate_email_is_a_conflict_and_rolls_back() {
    let flow = SignupFlow::begin(organizer_request(), "h".to_string());
    let (flow, _) = next(flow.step(StoreReply::Begun));
    let failure = StoreFailure {
        code: Some("23505".to_string()),
        constraint: Some("users_email_key".to_string()),
    };
    let (flow, action) = next(flow.step(StoreReply::Failed(failure)));
    assert!(matches!(action, StoreAction::Rollback));
    match flow.step(StoreReply::RolledBack) {
        Progress::Done(Err(e)) => {
            assert!(matches!(e, ApiError::Conflict(ConflictField::Email)));
            assert_eq!(e.status(), 409);
        }
        other => panic!("unexpected {:?}", other),
    }
}

#[test]
fn duplicate_gov_id_is_a_conflict() {
    let flow = SignupFlow::begin(attendee_request(), "h".to_string());
    let (flow, _) = next(flow.step(StoreReply::Begun));
    let failure = StoreFailure {
        code: Some("23505".to_string()),
        constraint: Some("users_gov_identification_key".to_string()),
    };
    let (flow, action) = next(flow.step(StoreReply::Failed(failure)));
    assert!(matches!(action, StoreAction::Rollback));
    let out = flow.step(StoreReply::RolledBack);
    assert!(matches!(
        out,
        Progress::Done(Err(ApiError::Conflict(ConflictField::GovIdentification)))
    ));
}

#[test]
fn failed_profile_insert_rolls_back_user() {
    let flow = SignupFlow::begin(organizer_request(), "h".to_string());
    let (flow, _) = next(flow.step(StoreReply::Begun));
    let (flow, _) = next(flow.step(StoreReply::UserInserted(organizer_row(5))));
    let failure = StoreFailure { code: Some("42P01".to_string()), constraint: None };
    let (flow, action) = next(flow.step(StoreReply::Failed(failure)));
    assert!(matches!(action, StoreAction::Rollback));
    assert!(matches!(flow.step(StoreReply::RolledBack), Progress::Done(Err(ApiError::Db(_)))));
}

#[test]
fn profile_of_another_user_is_rolled_back() {
    let flow = SignupFlow::begin(organizer_request(), "h".to_string());
    let (flow, _) = next(flow.step(StoreReply::Begun));
    let (flow, _) = next(flow.step(StoreReply::UserInserted(organizer_row(5))));
    let profile = OrganizerData { id: 1, user_id: 6, created_at: 0 };
    let (flow, action) = next(flow.step(StoreReply::OrganizerInserted(profile)));
    assert!(matches!(action, StoreAction::Rollback));
    assert!(matches!(flow.step(StoreReply::RolledBack), Progress::Done(Err(ApiError::Internal))));
}

#[test]
fn user_row_that_disagrees_is_rolled_back() {
    let flow = SignupFlow::begin(organizer_request(), "h".to_string());
    let (flow, _) = next(flow.step(StoreReply::Begun));
    let mut row = organizer_row(5);
    row.email = "someone@else.com".to_string();
    let (_, action) = next(flow.step(StoreReply::UserInserted(row)));
    assert!(matches!(action, StoreAction::Rollback));
}

#[test]
fn failed_begin_needs_no_rollback() {
    let flow = SignupFlow::begin(organizer_request(), "h".to_string());
    let failure = StoreFailure { code: None, constraint: None };
    let out = flow.step(StoreReply::Failed(failure));
    match out {
        Progress::Done(Err(e)) => assert_eq!(e.status(), 500),
        other => panic!("unexpected {:?}", other),
    }
}

#[test]
fn failed_commit_is_a_storage_error() {
    let flow = SignupFlow::begin(organizer_request(), "h".to_string());
    let (flow, _) = next(flow.step(StoreReply::Begun));
    let (flow, _) = next(flow.step(StoreReply::UserInserted(organizer_row(5))));
    let profile = OrganizerData { id: 1, user_id: 5, created_at: 0 };
    let (flow, _) = next(flow.step(StoreReply::OrganizerInserted(profile)));
    let failure = StoreFailure { code: Some("40001".to_string()), constraint: None };
    assert!(matches!(
        flow.step(StoreReply::Failed(failure)),
        Progress::Done(Err(ApiError::Db(_)))
    ));
}

#[test]
fn attendee_profile_must_keep_phone_and_birth_date() {
    let flow = SignupFlow::begin(attendee_request(), "h".to_string());
    let (flow, _) = next(flow.step(StoreReply::Begun));
    let row = UserRow {
        id: 3,
        full_name: "Robert Smith".to_string(),
        role: "attendee".to_string(),
        email: "robert@x.com".to_string(),
        gov_identification: 12345678901,
    };
    let (flow, action) = next(flow.step(StoreReply::UserInserted(row)));
    match &action {
        StoreAction::InsertAttendeeData { user_id, phone, birth_date } => {
            assert_eq!(*user_id, 3);
            assert_eq!(phone, "+5511999999999");
            assert_eq!(*birth_date, Date::from_ymd(1990, 1, 31).unwrap());
        }
        other => panic!("unexpected {:?}", other),
    }
    let changed = AttendeeData {
        id: 1,
        user_id: 3,
        phone: "+5511000000000".to_string(),
        birth_date: Date::from_ymd(1990, 1, 31).unwrap(),
        created_at: 0,
    };
    let (_, action) = next(flow.step(StoreReply::AttendeeInserted(changed)));
    assert!(matches!(action, StoreAction::Rollback));
}
