//! Session claims: what a session token holds, how it is issued and when it
//! is accepted. Signing and encoding the claims is left to the caller; the
//! decisions are made here.

use vstd::prelude::*;

use std::time::UNIX_EPOCH;

use crate::error::ApiError;
use crate::users::User;

verus! {

/// How long a session stays valid unless configured otherwise: 24 hours.
pub const DEFAULT_TOKEN_TTL_SECS: u64 = 86400;

/// The decoded payload of a session token.
#[derive(Debug)]
pub struct Claims {
    /// The user as of issuance.
    pub user: User,
    /// Expiry, in seconds since the Unix epoch.
    pub exp: u64,
    /// Issuance, in seconds since the Unix epoch.
    pub iat: u64,
}

/// Who is calling, as the request gate established it.
#[derive(Debug, Clone)]
pub struct AuthContext {
    pub user: User,
}

/// Relies on `SystemTime::elapsed` from `UNIX_EPOCH`: the whole seconds
/// since the Unix epoch by the system clock, or `None` for a clock set before
/// it. Nothing is known of the value itself.
#[verifier::external_body]
fn unix_now() -> (r: Option<u64>) {
    match UNIX_EPOCH.elapsed() {
        Ok(d) => Some(d.as_secs()),
        Err(_) => None,
    }
}

/// Whether a signing secret is configured: present and not empty.
pub open spec fn has_secret(secret: Option<&str>) -> bool {
    secret is Some && secret->Some_0@.len() > 0
}

/// The claims issued to `user` at `now` for `ttl` seconds.
pub open spec fn issued_claims(user: User, now: u64, ttl: u64) -> Result<Claims, ApiError> {
    if now + ttl > u64::MAX {
        Err(ApiError::Internal)
    } else {
        Ok(Claims { user, exp: (now + ttl) as u64, iat: now })
    }
}

/// Whether claims are still valid at `now`: up to and including their expiry.
pub open spec fn claims_valid_at(claims: Claims, now: u64) -> bool {
    now <= claims.exp
}

/// The outcome of checking decoded claims at `now`; `None` stands for a token
/// whose signature or payload did not check out.
pub open spec fn gate_outcome(decoded: Option<Claims>, now: u64) -> Result<AuthContext, ApiError> {
    match decoded {
        None => Err(ApiError::Unauthorized),
        Some(c) => if claims_valid_at(c, now) {
            Ok(AuthContext { user: c.user })
        } else {
            Err(ApiError::Unauthorized)
        },
    }
}

/// Builds the claims of a new session token for `user`, issued at `now` and
/// valid for `ttl` seconds. Without a signing secret there is no token.
pub fn issue_claims(user: &User, secret: Option<&str>, ttl: u64, now: u64) -> (r: Result<
    Claims,
    ApiError,
>)
    ensures
        !has_secret(secret) ==> r == Err::<Claims, ApiError>(
            ApiError::MissingJwtSecret,
        ),
        has_secret(secret) ==> r == issued_claims(*user, now, ttl),
{
    let present = match secret {
        Some(s) => s.unicode_len() > 0,
        None => false,
    };
    if !present {
        return Err(ApiError::MissingJwtSecret);
    }
    match now.checked_add(ttl) {
        Some(exp) => Ok(Claims { user: user.snapshot(), exp, iat: now }),
        None => Err(ApiError::Internal),
    }
}

/// Builds the claims of a new session token, issued now. A clock set before
/// the Unix epoch is a server failure.
pub fn issue_claims_now(user: &User, secret: Option<&str>, ttl: u64) -> (r: Result<
    Claims,
    ApiError,
>)
    ensures
        !has_secret(secret) ==> r == Err::<Claims, ApiError>(
            ApiError::MissingJwtSecret,
        ),
        has_secret(secret) ==> (r == Err::<Claims, ApiError>(
            ApiError::Internal,
        ) || exists|now: u64| r == issued_claims(*user, now, ttl)),
{
    let present = match secret {
        Some(s) => s.unicode_len() > 0,
        None => false,
    };
    if !present {
        return Err(ApiError::MissingJwtSecret);
    }
    match unix_now() {
        Some(now) => issue_claims(user, secret, ttl, now),
        None => Err(ApiError::Internal),
    }
}

/// Checks decoded claims at `now`: a token that did not decode, or whose
/// expiry has passed, is refused without saying why.
pub fn validate_claims(decoded: Option<Claims>, now: u64) -> (r: Result<AuthContext, ApiError>)
    ensures
        r == gate_outcome(decoded, now),
{
    match decoded {
        None => Err(ApiError::Unauthorized),
        Some(c) => {
            if now <= c.exp {
                Ok(AuthContext { user: c.user })
            } else {
                Err(ApiError::Unauthorized)
            }
        },
    }
}

/// Checks decoded claims against the clock. A clock set before the Unix
/// epoch is a server failure.
pub fn validate_claims_now(decoded: Option<Claims>) -> (r: Result<AuthContext, ApiError>)
    ensures
        r == Err::<AuthContext, ApiError>(ApiError::Internal) || exists|now: u64|
            r == gate_outcome(decoded, now),
{
    match unix_now() {
        Some(now) => validate_claims(decoded, now),
        None => Err(ApiError::Internal),
    }
}

/// A token issued for a user and checked before or at its expiry lets that
/// user in, with the same id and role; checked after its expiry, it is
/// refused.
pub proof fn lemma_issued_claims_valid_until_expiry(user: User, now: u64, ttl: u64, at: u64)
    requires
        issued_claims(user, now, ttl) is Ok,
    ensures
        ({
            let c = issued_claims(user, now, ttl)->Ok_0;
            &&& at <= c.exp ==> gate_outcome(Some(c), at) is Ok
                && gate_outcome(Some(c), at)->Ok_0.user.id == user.id
                && gate_outcome(Some(c), at)->Ok_0.user.role == user.role
            &&& at > c.exp ==> gate_outcome(Some(c), at) == Err::<AuthContext, ApiError>(
                ApiError::Unauthorized,
            )
        }),
{
}

} // verus!
