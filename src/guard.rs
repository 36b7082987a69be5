use vstd::prelude::*;
use crate::auth::{hs256_claims_of, invalid_token, token_outcome, AuthService};
use crate::error::{status_of, AppError, ErrorModel};
use crate::text::strip_prefix;
use crate::user::Claims;

verus! {

/// The scheme that an `Authorization` header must name.
pub open spec fn bearer_prefix() -> Seq<char> {
    "Bearer "@
}

/// The characters of an optional header value.
pub open spec fn header_view(header: Option<&str>) -> Option<Seq<char>> {
    match header {
        Some(h) => Some(h@),
        None => None,
    }
}

/// The failure of the header checks, if any, that come before token verification.
pub open spec fn header_error(header: Option<Seq<char>>) -> Option<ErrorModel> {
    match header {
        None => Some(ErrorModel::AuthError("Missing authorization header"@)),
        Some(h) => if bearer_prefix().is_prefix_of(h) {
            None
        } else {
            Some(ErrorModel::AuthError("Invalid authorization format"@))
        },
    }
}

/// The token that a header carries after the bearer scheme.
pub open spec fn bearer_part(h: Seq<char>) -> Seq<char> {
    h.subrange(bearer_prefix().len() as int, h.len() as int)
}

/// The identity of an authenticated request.
#[derive(Clone, Debug)]
pub struct AuthUser {
    pub claims: Claims,
}

/// The token that a well-formed header carries.
pub fn bearer_token<'a>(header: Option<&'a str>) -> (r: Result<&'a str, AppError>)
    ensures
        header_error(header_view(header)) matches Some(e) ==> (r matches Err(x) && x@ == e),
        header_error(header_view(header)) is None ==> (r matches Ok(t) && t@ == bearer_part(header.unwrap()@)),
{
    match header {
        None => Err(AppError::AuthError(String::from_str("Missing authorization header"))),
        Some(h) => match strip_prefix(h, "Bearer ") {
            Some(t) => Ok(t),
            None => Err(AppError::AuthError(String::from_str("Invalid authorization format"))),
        },
    }
}

impl AuthUser {
    /// Authenticates a request from its `Authorization` header at time `now`: the
    /// header must be present and name the bearer scheme, and the token must verify.
    pub fn from_header_at(header: Option<&str>, secret: &str, now: u64) -> (r: Result<
        AuthUser,
        AppError,
    >)
        ensures
            header_error(header_view(header)) matches Some(e) ==> (r matches Err(x) && x@ == e),
            header_error(header_view(header)) is None ==> match token_outcome(
                bearer_part(header.unwrap()@),
                secret@,
                now,
            ) {
                Ok(f) => r matches Ok(u) && u.claims.fields() == f,
                Err(e) => r matches Err(x) && x@ == e,
            },
    {
        let token = match bearer_token(header) {
            Ok(t) => t,
            Err(e) => {
                return Err(e);
            },
        };
        match AuthService::verify_jwt_at(token, secret, now) {
            Ok(claims) => Ok(AuthUser { claims }),
            Err(e) => Err(e),
        }
    }

    /// Authenticates a request from its `Authorization` header at the current time.
    pub fn from_header(header: Option<&str>, secret: &str) -> (r: Result<AuthUser, AppError>)
        ensures
            header_error(header_view(header)) matches Some(e) ==> (r matches Err(x) && x@ == e),
            header_error(header_view(header)) is None ==> ({
                &&& r matches Ok(u) ==> hs256_claims_of(bearer_part(header.unwrap()@), secret@) == Some(
                    u.claims.fields(),
                )
                &&& r matches Err(x) ==> x@ == invalid_token()
                &&& hs256_claims_of(bearer_part(header.unwrap()@), secret@) is None ==> r is Err
            }),
    {
        let token = match bearer_token(header) {
            Ok(t) => t,
            Err(e) => {
                return Err(e);
            },
        };
        match AuthService::verify_jwt(token, secret) {
            Ok(claims) => Ok(AuthUser { claims }),
            Err(e) => Err(e),
        }
    }
}

/// Every rejection by the header checks is reported as 401 Unauthorized.
pub proof fn lemma_header_rejections_unauthorized(header: Option<Seq<char>>)
    requires
        header_error(header) is Some,
    ensures
        status_of(header_error(header).unwrap()) == 401,
{
}

} // verus!
