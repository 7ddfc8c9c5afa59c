//! Reading the bearer token out of the Authorization header. Checking the
//! token itself is the caller's.

use vstd::prelude::*;
use vstd::string::StringExecFns;
use crate::text::spec_strip_prefix;
use crate::text::strip_prefix;

verus! {

/// Why a request was not let through.
#[derive(Debug, Clone, Copy, PartialEq, Eq, Structural)]
pub enum AuthRejection {
    /// No Authorization header, or one that is not readable text.
    MissingHeader,
    /// The header does not start with `Bearer `.
    InvalidFormat,
    /// The token did not verify.
    InvalidToken,
}

impl AuthRejection {
    /// The sentence sent back with the rejection.
    pub open spec fn spec_message(self) -> Seq<char> {
        match self {
            AuthRejection::MissingHeader => "Missing Authorization header"@,
            AuthRejection::InvalidFormat => "Invalid Authorization header format. Expected: Bearer <token>"@,
            AuthRejection::InvalidToken => "Invalid or expired token"@,
        }
    }

    /// The sentence sent back with the rejection.
    pub fn message(&self) -> (text: String)
        ensures
            text@ == self.spec_message(),
    {
        match self {
            AuthRejection::MissingHeader => String::from_str("Missing Authorization header"),
            AuthRejection::InvalidFormat => String::from_str(
                "Invalid Authorization header format. Expected: Bearer <token>",
            ),
            AuthRejection::InvalidToken => String::from_str("Invalid or expired token"),
        }
    }

    /// The HTTP status sent back with the rejection: 401 for each.
    pub fn status(&self) -> (code: u16)
        ensures
            code == 401,
    {
        401
    }
}

/// The scheme that a bearer token is announced with.
pub open spec fn bearer_scheme() -> Seq<char> {
    "Bearer "@
}

/// The token of an Authorization header: what follows `Bearer `.
pub open spec fn spec_bearer_token(header: Seq<char>) -> Option<Seq<char>> {
    spec_strip_prefix(header, bearer_scheme())
}

/// The token of an Authorization header, where the header starts with
/// `Bearer `.
pub fn bearer_token<'a>(header: &'a str) -> (token: Option<&'a str>)
    ensures
        match (token, spec_bearer_token(header@)) {
            (Some(found), Some(expected)) => found@ == expected,
            (None, None) => true,
            _ => false,
        },
{
    strip_prefix(header, "Bearer ")
}

/// What the guard makes of a request's Authorization header: the token to
/// check, or why the request is turned away.
pub open spec fn spec_auth_middleware(header: Option<Seq<char>>) -> Result<
    Seq<char>,
    AuthRejection,
> {
    match header {
        None => Err(AuthRejection::MissingHeader),
        Some(header) => match spec_bearer_token(header) {
            Some(token) => Ok(token),
            None => Err(AuthRejection::InvalidFormat),
        },
    }
}

/// First step of the guard on protected routes: finds the token to check. A
/// request without the header, or with a header of another form, is turned
/// away without any token being looked at.
pub fn auth_middleware<'a>(header: Option<&'a str>) -> (token: Result<&'a str, AuthRejection>)
    ensures
        match (token, spec_auth_middleware(header.deep_view())) {
            (Ok(found), Ok(expected)) => found@ == expected,
            (Err(e), Err(f)) => e == f,
            _ => false,
        },
{
    match header {
        None => Err(AuthRejection::MissingHeader),
        Some(header) => match bearer_token(header) {
            Some(token) => Ok(token),
            None => Err(AuthRejection::InvalidFormat),
        },
    }
}

/// First step of the guard on routes that also serve anonymous requests:
/// the token to check, where the request carries one in the right form.
pub fn optional_auth_middleware<'a>(header: Option<&'a str>) -> (token: Option<&'a str>)
    ensures
        match (token, spec_auth_middleware(header.deep_view())) {
            (Some(found), Ok(expected)) => found@ == expected,
            (None, Err(_)) => true,
            _ => false,
        },
{
    match auth_middleware(header) {
        Ok(token) => Some(token),
        Err(_) => None,
    }
}

/// Second step of the guard: lets the request through with its claims where
/// the token verified, and turns it away where it did not.
pub fn let_through<T, E>(verified: Result<T, E>) -> (admitted: Result<T, AuthRejection>)
    ensures
        match verified {
            Ok(claims) => admitted == Ok::<T, AuthRejection>(claims),
            Err(_) => admitted == Err::<T, AuthRejection>(AuthRejection::InvalidToken),
        },
{
    match verified {
        Ok(claims) => Ok(claims),
        Err(_) => Err(AuthRejection::InvalidToken),
    }
}

} // verus!
