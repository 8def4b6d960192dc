use noxel::auth::{extract_bearer, me_response, profile_lookup, require_role, ProfileLookup};
use noxel::date::Date;
use noxel::error::ApiError;
use noxel::roles::UserRole;
use noxel::token::{
    issue_claims, issue_claims_now, validate_claims, validate_claims_now, AuthContext, Claims,
    DEFAULT_TOKEN_TTL_SECS,
};
use noxel::users::{AttendeeData, OrganizerData, RelatedData, User};

fn user(role: UserRole) -> User {
    User {
        id: 77,
        full_name: "Ana".to_string(),
        role,
        email: "ana@x.com".to_string(),
        gov_identification: 123,
    }
}

#[test]
fn claims_carry_user_and_window() {
    let c = issue_claims(&user(UserRole::Organizer), Some("s3cret"), 3600, 1_000).unwrap();
    assert_eq!(c.iat, 1_000);
    assert_eq!(c.exp, 4_600);
    assert_eq!(c.user.id, 77);
    assert_eq!(c.user.role, UserRole::Organizer);
    assert_eq!(DEFAULT_TOKEN_TTL_SECS, 86_400);
}

#[test]
fn issuing_without_secret_fails() {
    let u = user(UserRole::Attendee);
    assert!(matches!(issue_claims(&u, None, 60, 0), Err(ApiError::MissingJwtSecret)));
    assert!(matches!(issue_claims(&u, Some(""), 60, 0), Err(ApiError::MissingJwtSecret)));
    assert!(matches!(issue_claims_now(&u, None, 60), Err(ApiError::MissingJwtSecret)));
    assert_eq!(ApiError::MissingJwtSecret.status(), 500);
}

#[test]
fn issuing_past_the_clock_range_fails() {
    let u = user(UserRole::Attendee);
    assert!(matches!(issue_claims(&u, Some("k"), u64::MAX, 1), Err(ApiError::Internal)));
    assert!(issue_claims(&u, Some("k"), u64::MAX - 1, 1).is_ok());
}

#[test]
fn issued_now_is_valid_now() {
    let c = issue_claims_now(&user(UserRole::Admin), Some("k"), DEFAULT_TOKEN_TTL_SECS).unwrap();
    assert_eq!(c.exp - c.iat, DEFAULT_TOKEN_TTL_SECS);
    let ctx = validate_claims_now(Some(c)).unwrap();
    assert_eq!(ctx.user.id, 77);
    assert_eq!(ctx.user.role, UserRole::Admin);
}

#[test]
fn claims_before_expiry_admit_same_user() {
    let c = issue_claims(&user(UserRole::Attendee), Some("k"), 100, 1_000).unwrap();
    let ctx = validate_claims(Some(c), 1_099).unwrap();
    assert_eq!(ctx.user.id, 77);
    assert_eq!(ctx.user.role, UserRole::Attendee);
    let c = issue_claims(&user(UserRole::Attendee), Some("k"), 100, 1_000).unwrap();
    assert!(validate_claims(Some(c), 1_100).is_ok());
}

#[test]
fn claims_after_expiry_are_unauthorized() {
    let c = issue_claims(&user(UserRole::Attendee), Some("k"), 100, 1_000).unwrap();
    assert!(matches!(validate_claims(Some(c), 1_101), Err(ApiError::Unauthorized)));
    let old = Claims { user: user(UserRole::Organizer), exp: 10, iat: 0 };
    assert!(matches!(validate_claims_now(Some(old)), Err(ApiError::Unauthorized)));
}

#[test]
fn undecodable_token_is_unauthorized() {
    assert!(matches!(validate_claims(None, 0), Err(ApiError::Unauthorized)));
}

#[test]
fn bearer_extraction() {
    assert!(matches!(extract_bearer(None), Err(ApiError::Unauthorized)));
    assert!(matches!(extract_bearer(Some("")), Err(ApiError::Unauthorized)));
    assert!(matches!(extract_bearer(Some("Basic abc")), Err(ApiError::Unauthorized)));
    assert!(matches!(extract_bearer(Some("bearer abc")), Err(ApiError::Unauthorized)));
    assert!(matches!(extract_bearer(Some("Bearer")), Err(ApiError::Unauthorized)));
    assert!(matches!(extract_bearer(Some("Bearer ")), Err(ApiError::Unauthorized)));
    assert!(matches!(extract_bearer(Some("Bearer  \t ")), Err(ApiError::Unauthorized)));
    assert_eq!(extract_bearer(Some("Bearer abc.def.ghi")).unwrap(), "abc.def.ghi");
    assert_eq!(extract_bearer(Some("Bearer é")).unwrap(), "é");
}

#[test]
fn profile_dispatch_by_role() {
    assert_eq!(profile_lookup(UserRole::Organizer), ProfileLookup::Organizer);
    assert_eq!(profile_lookup(UserRole::Attendee), ProfileLookup::Attendee);
    assert_eq!(profile_lookup(UserRole::Admin), ProfileLookup::NoProfile);
    assert_eq!(profile_lookup(UserRole::Promoter), ProfileLookup::NoProfile);
    assert_eq!(profile_lookup(UserRole::Colaborator), ProfileLookup::NoProfile);
}

#[test]
fn me_without_profile_role() {
    let ctx = AuthContext { user: user(UserRole::Promoter) };
    let r = me_response(ctx, None).unwrap();
    assert_eq!(r.user.id, 77);
    assert!(r.related_data.is_none());
}

#[test]
fn me_with_matching_profile() {
    let ctx = AuthContext { user: user(UserRole::Organizer) };
    let data = RelatedData::Organizer(OrganizerData { id: 1, user_id: 77, created_at: 5 });
    let r = me_response(ctx, Some(data)).unwrap();
    assert!(matches!(r.related_data, Some(RelatedData::Organizer(ref o)) if o.user_id == 77));
}

#[test]
fn me_with_wrong_or_missing_profile() {
    let ctx = AuthContext { user: user(UserRole::Organizer) };
    assert!(matches!(me_response(ctx, None), Err(ApiError::Internal)));
    let ctx = AuthContext { user: user(UserRole::Organizer) };
    let other = RelatedData::Organizer(OrganizerData { id: 1, user_id: 78, created_at: 5 });
    assert!(matches!(me_response(ctx, Some(other)), Err(ApiError::Internal)));
    let ctx = AuthContext { user: user(UserRole::Organizer) };
    let kind = RelatedData::Attendee(AttendeeData {
        id: 1,
        user_id: 77,
        phone: "1".to_string(),
        birth_date: Date::from_ymd(2000, 1, 1).unwrap(),
        created_at: 5,
    });
    assert!(matches!(me_response(ctx, Some(kind)), Err(ApiError::Internal)));
}

#[test]
fn role_restricted_operations() {
    let ctx = AuthContext { user: user(UserRole::Promoter) };
    assert!(require_role(&ctx, &[UserRole::Promoter, UserRole::Admin]).is_ok());
    let r = require_role(&ctx, &[UserRole::Admin]);
    assert!(matches!(r, Err(ApiError::Forbidden)));
    assert_eq!(r.unwrap_err().status(), 403);
    assert!(matches!(require_role(&ctx, &[]), Err(ApiError::Forbidden)));
}
