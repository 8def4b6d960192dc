//! The request gate: bearer-token extraction and role-based dispatch of the
//! self-profile endpoint.

use vstd::prelude::*;

use crate::error::ApiError;
use crate::roles::UserRole;
use crate::token::{gate_outcome, AuthContext, Claims};
use crate::users::{RelatedData, User, UserWithRelatedData};

verus! {

/// The scheme that the `Authorization` header must name, with its separator.
pub open spec fn bearer_prefix() -> Seq<char> {
    "Bearer "@
}

/// Whether a text holds nothing but blanks (it may be empty).
pub open spec fn is_blank(t: Seq<char>) -> bool {
    forall|i: int| 0 <= i < t.len() ==> (t[i] == ' ' || t[i] == '\t')
}

/// The token that an `Authorization` header value presents, if it presents
/// one: the text after `Bearer `, which must not be blank.
pub open spec fn bearer_token(header: Seq<char>) -> Option<Seq<char>> {
    if bearer_prefix().is_prefix_of(header) && !is_blank(header.skip(7)) {
        Some(header.skip(7))
    } else {
        None
    }
}

/// Takes the bearer token out of an `Authorization` header value. A missing
/// header, another scheme or an empty token is refused before any
/// cryptographic check.
pub fn extract_bearer<'a>(header: Option<&'a str>) -> (r: Result<&'a str, ApiError>)
    ensures
        header is None ==> r == Err::<&str, ApiError>(ApiError::Unauthorized),
        header is Some ==> match bearer_token(header->Some_0@) {
            Some(t) => r is Ok && r->Ok_0@ == t,
            None => r == Err::<&str, ApiError>(ApiError::Unauthorized),
        },
{
    let h = match header {
        Some(h) => h,
        None => return Err(ApiError::Unauthorized),
    };
    proof {
        reveal_strlit("Bearer ");
    }
    let prefix = "Bearer ";
    let n = h.unicode_len();
    if n < 7 {
        return Err(ApiError::Unauthorized);
    }
    let mut i: usize = 0;
    while i < 7
        invariant
            header == Some(h),
            n == h@.len(),
            7 <= n,
            prefix@ == bearer_prefix(),
            prefix@.len() == 7,
            i <= 7,
            forall|j: int| 0 <= j < i ==> h@[j] == prefix@[j],
        decreases 7 - i,
    {
        if h.get_char(i) != prefix.get_char(i) {
            assert(h@.subrange(0, 7)[i as int] != bearer_prefix()[i as int]);
            return Err(ApiError::Unauthorized);
        }
        i = i + 1;
    }
    assert(bearer_prefix().is_prefix_of(h@)) by {
        assert(h@.subrange(0, 7) =~= prefix@);
    }
    let token = h.substring_char(7, n);
    assert(token@ =~= h@.skip(7));
    let m = token.unicode_len();
    let mut k: usize = 0;
    while k < m
        invariant
            header == Some(h),
            bearer_prefix().is_prefix_of(h@),
            token@ == h@.skip(7),
            m == token@.len(),
            k <= m,
            is_blank(token@.subrange(0, k as int)),
        decreases m - k,
    {
        let c = token.get_char(k);
        if c != ' ' && c != '\t' {
            assert(!is_blank(token@)) by {
                assert(token@[k as int] == c);
            }
            return Ok(token);
        }
        assert(token@.subrange(0, k as int + 1) =~= token@.subrange(0, k as int).push(c));
        k = k + 1;
    }
    assert(token@.subrange(0, m as int) =~= token@);
    Err(ApiError::Unauthorized)
}

/// Admits the caller to a role-restricted operation only if its role is one
/// of `allowed`; any other role is forbidden.
pub fn require_role(ctx: &AuthContext, allowed: &[UserRole]) -> (r: Result<(), ApiError>)
    ensures
        allowed@.contains(ctx.user.role) ==> r is Ok,
        !allowed@.contains(ctx.user.role) ==> r == Err::<(), ApiError>(ApiError::Forbidden),
{
    let mut i: usize = 0;
    while i < allowed.len()
        invariant
            i <= allowed@.len(),
            forall|j: int| 0 <= j < i ==> allowed@[j] != ctx.user.role,
        decreases allowed@.len() - i,
    {
        if allowed[i] == ctx.user.role {
            return Ok(());
        }
        i = i + 1;
    }
    Err(ApiError::Forbidden)
}

/// Which profile the self-profile endpoint fetches for a role.
#[derive(Debug, Clone, Copy, PartialEq, Eq, Structural)]
pub enum ProfileLookup {
    Organizer,
    Attendee,
    /// The role has no profile; the answer carries none.
    NoProfile,
}

pub open spec fn lookup_for(role: UserRole) -> ProfileLookup {
    match role {
        UserRole::Organizer => ProfileLookup::Organizer,
        UserRole::Attendee => ProfileLookup::Attendee,
        UserRole::Admin => ProfileLookup::NoProfile,
        UserRole::Promoter => ProfileLookup::NoProfile,
        UserRole::Colaborator => ProfileLookup::NoProfile,
    }
}

/// Whether a fetched profile is the one that a user's role calls for, and
/// belongs to that user.
pub open spec fn profile_fits(user: User, data: RelatedData) -> bool {
    data.owner() == user.id && match data {
        RelatedData::Organizer(_) => lookup_for(user.role) == ProfileLookup::Organizer,
        RelatedData::Attendee(_) => lookup_for(user.role) == ProfileLookup::Attendee,
    }
}

/// The answer of the self-profile endpoint, from the caller and the profile
/// that was fetched for it. A role with a profile that comes back missing or
/// not matching is an inconsistency of the store.
pub open spec fn me_outcome(ctx: AuthContext, fetched: Option<RelatedData>) -> Result<
    UserWithRelatedData,
    ApiError,
> {
    if lookup_for(ctx.user.role) == ProfileLookup::NoProfile {
        Ok(UserWithRelatedData { user: ctx.user, related_data: None })
    } else {
        match fetched {
            Some(d) => if profile_fits(ctx.user, d) {
                Ok(UserWithRelatedData { user: ctx.user, related_data: Some(d) })
            } else {
                Err(ApiError::Internal)
            },
            None => Err(ApiError::Internal),
        }
    }
}

/// Which profile to fetch for a role.
pub fn profile_lookup(role: UserRole) -> (r: ProfileLookup)
    ensures
        r == lookup_for(role),
{
    match role {
        UserRole::Organizer => ProfileLookup::Organizer,
        UserRole::Attendee => ProfileLookup::Attendee,
        UserRole::Admin => ProfileLookup::NoProfile,
        UserRole::Promoter => ProfileLookup::NoProfile,
        UserRole::Colaborator => ProfileLookup::NoProfile,
    }
}

/// Assembles the self-profile answer for the caller.
pub fn me_response(ctx: AuthContext, fetched: Option<RelatedData>) -> (r: Result<
    UserWithRelatedData,
    ApiError,
>)
    ensures
        r == me_outcome(ctx, fetched),
{
    match profile_lookup(ctx.user.role) {
        ProfileLookup::NoProfile => Ok(UserWithRelatedData { user: ctx.user, related_data: None }),
        lookup => match fetched {
            Some(d) => {
                let fits = match &d {
                    RelatedData::Organizer(o) => o.user_id == ctx.user.id && lookup
                        == ProfileLookup::Organizer,
                    RelatedData::Attendee(a) => a.user_id == ctx.user.id && lookup
                        == ProfileLookup::Attendee,
                };
                if fits {
                    Ok(UserWithRelatedData { user: ctx.user, related_data: Some(d) })
                } else {
                    Err(ApiError::Internal)
                }
            },
            None => Err(ApiError::Internal),
        },
    }
}

/// The self-profile endpoint refuses a request without an `Authorization`
/// header. With a token whose claims are unexpired, it answers with the
/// token's user and the profile that the role calls for, which belongs to
/// that user.
pub proof fn lemma_profile_endpoint_gate(claims: Claims, now: u64, fetched: Option<RelatedData>)
    requires
        now <= claims.exp,
        lookup_for(claims.user.role) != ProfileLookup::NoProfile ==> fetched is Some
            && profile_fits(claims.user, fetched->Some_0),
    ensures
        gate_outcome(Some(claims), now) is Ok,
        ({
            let r = me_outcome(gate_outcome(Some(claims), now)->Ok_0, fetched);
            &&& r is Ok
            &&& r->Ok_0.user == claims.user
            &&& lookup_for(claims.user.role) == ProfileLookup::NoProfile ==> r->Ok_0.related_data is None
            &&& lookup_for(claims.user.role) != ProfileLookup::NoProfile ==> (r->Ok_0.related_data is Some
                && r->Ok_0.related_data->Some_0.owner() == claims.user.id)
        }),
{
}

} // verus!
