//! The authorization chain: the identity gate resolves a caller from the
//! bearer token in the authorization header, and the role gate admits
//! only admins. Handlers receive the resolved identity as an explicit
//! value, never as ambient state.

use vstd::prelude::*;

use crate::auth::{user_with_id, verify_outcome, AuthService, AuthServiceV};
use crate::catalog::find_first;
use crate::error::ApiError;
use crate::models::{Role, User, UserV};
use crate::strutil::str_eq;

verus! {

/// The token carried by an authorization header value, if the value has
/// the bearer shape.
pub open spec fn bearer_token(header: Seq<char>) -> Option<Seq<char>> {
    if header.len() >= 7 && header.subrange(0, 7) == "Bearer "@ {
        Some(header.subrange(7, header.len() as int))
    } else {
        None
    }
}

/// Strip the bearer prefix off an authorization header value.
pub fn extract_bearer<'a>(header: &'a str) -> (r: Option<&'a str>)
    ensures
        r.deep_view() == bearer_token(header@),
{
    let n = header.unicode_len();
    if n < 7 {
        return None;
    }
    let prefix = header.substring_char(0, 7);
    if str_eq(prefix, "Bearer ") {
        Some(header.substring_char(7, n))
    } else {
        None
    }
}

/// The exact outcome of the identity gate: the stored user that a
/// well-formed, valid, unexpired bearer token denotes; `Unauthorized` on
/// a missing header, a malformed header, a bad or expired token, or a
/// token whose subject no longer exists.
pub open spec fn identity_outcome(
    s: AuthServiceV,
    header: Option<Seq<char>>,
    now: u64,
) -> Result<UserV, ApiError> {
    match header {
        None => Err(ApiError::Unauthorized),
        Some(h) => match bearer_token(h) {
            None => Err(ApiError::Unauthorized),
            Some(token) => match verify_outcome(s.jwt_secret, token, now) {
                Err(_) => Err(ApiError::Unauthorized),
                Ok(claims) => match find_first(s.users, user_with_id(claims.sub)) {
                    None => Err(ApiError::Unauthorized),
                    Some(u) => Ok(u),
                },
            },
        },
    }
}

/// The identity gate: resolve the caller from the authorization header.
/// Fails closed with `Unauthorized` whenever no valid caller can be
/// established.
pub fn auth_middleware(auth: &AuthService, header: Option<&str>, now: u64) -> (r: Result<
    User,
    ApiError,
>)
    ensures
        r matches Ok(u) ==> identity_outcome(auth@, header.deep_view(), now) == Ok::<
            UserV,
            ApiError,
        >(u@),
        r matches Err(e) ==> identity_outcome(auth@, header.deep_view(), now) == Err::<
            UserV,
            ApiError,
        >(e),
{
    let h = match header {
        Some(h) => h,
        None => {
            return Err(ApiError::Unauthorized);
        },
    };
    let token = match extract_bearer(h) {
        Some(t) => t,
        None => {
            return Err(ApiError::Unauthorized);
        },
    };
    let claims = match auth.verify_token(token, now) {
        Ok(c) => c,
        Err(_) => {
            return Err(ApiError::Unauthorized);
        },
    };
    match auth.get_user_by_id(claims.sub.as_str()) {
        Some(u) => Ok(u),
        None => Err(ApiError::Unauthorized),
    }
}

/// The role gate: requires a resolved identity with the admin role.
/// `Unauthorized` when the identity gate has not produced a caller (a
/// composition error), `Forbidden` for any authenticated non-admin.
pub fn admin_middleware(user: Option<&User>) -> (r: Result<(), ApiError>)
    ensures
        user is None ==> r == Err::<(), ApiError>(ApiError::Unauthorized),
        (user matches Some(u) && u@.role == Role::Admin) ==> r == Ok::<(), ApiError>(()),
        (user matches Some(u) && u@.role != Role::Admin) ==> r == Err::<(), ApiError>(
            ApiError::Forbidden,
        ),
{
    match user {
        None => Err(ApiError::Unauthorized),
        Some(u) => {
            if matches!(u.role, Role::Admin) {
                Ok(())
            } else {
                Err(ApiError::Forbidden)
            }
        },
    }
}

} // verus!
