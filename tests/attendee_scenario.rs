use noxel::auth::{extract_bearer, me_response, profile_lookup, ProfileLookup};
use noxel::date::Date;
use noxel::requests::{SignupAttendeeRequest, SignupRequest, UserAddressRequest};
use noxel::roles::UserRole;
use noxel::signup::{Progress, SignupFlow, StoreAction, StoreReply};
use noxel::token::{issue_claims, validate_claims, DEFAULT_TOKEN_TTL_SECS};
use noxel::users::{AttendeeData, RelatedData, UserRow};

#[test]
fn attendee_signup_then_me() {
    let request = SignupRequest::Attendee(SignupAttendeeRequest {
        full_name: "Robert Smith".to_string(),
        password: "pw123456".to_string(),
        phone: "+5511999999999".to_string(),
        email: "robert@x.com".to_string(),
        gov_identification: 12345678901,
        birth_date: Date::from_ymd(1990, 1, 31).unwrap(),
        address: UserAddressRequest {
            cep: "01001-000".to_string(),
            logradouro: "Avenida Paulista".to_string(),
            numero: "123".to_string(),
            complemento: None,
            bairro: None,
            cidade: "Sao Paulo".to_string(),
            estado: "SP".to_string(),
        },
    });
    // The store answers each action as a healthy database would.
    let mut progress = SignupFlow::start(request);
    let mut stored: Option<AttendeeData> = None;
    let outcome = loop {
        match progress {
            Progress::Done(r) => break r,
            Progress::Next(flow, action) => {
                let reply = match action {
                    StoreAction::Begin => StoreReply::Begun,
                    StoreAction::InsertUser(nu) => StoreReply::UserInserted(UserRow {
                        id: 0x1234,
                        full_name: nu.full_name,
                        role: nu.role.as_str().to_string(),
                        email: nu.email,
                        gov_identification: nu.gov_identification,
                    }),
                    StoreAction::InsertAttendeeData { user_id, phone, birth_date } => {
                        let row = AttendeeData { id: 1, user_id, phone, birth_date, created_at: 0 };
                        stored = Some(row.snapshot());
                        StoreReply::AttendeeInserted(row)
                    }
                    StoreAction::Commit => StoreReply::Committed,
                    other => panic!("unexpected {:?}", other),
                };
                progress = flow.step(reply);
            }
        }
    };
    let (user, _profile) = outcome.unwrap();
    assert_eq!(user.role.as_str(), "attendee");
    let claims = issue_claims(&user, Some("secret"), DEFAULT_TOKEN_TTL_SECS, 1_700_000_000).unwrap();

    // A request without the header is refused.
    assert_eq!(extract_bearer(None).unwrap_err().status(), 401);
    assert_eq!(extract_bearer(Some("Bearer t0k3n")).unwrap(), "t0k3n");

    // With the token's claims, the caller is the new attendee.
    let ctx = validate_claims(Some(claims), 1_700_000_100).unwrap();
    assert_eq!(ctx.user.id, 0x1234);
    assert_eq!(profile_lookup(ctx.user.role), ProfileLookup::Attendee);
    let fetched = stored.unwrap();
    let me = me_response(ctx, Some(RelatedData::Attendee(fetched))).unwrap();
    assert_eq!(me.user.role, UserRole::Attendee);
    match me.related_data {
        Some(RelatedData::Attendee(a)) => {
            assert_eq!(a.phone, "+5511999999999");
            assert_eq!(a.birth_date, Date::from_ymd(1990, 1, 31).unwrap());
            assert_eq!(a.user_id, 0x1234);
        }
        other => panic!("unexpected {:?}", other),
    }
}
