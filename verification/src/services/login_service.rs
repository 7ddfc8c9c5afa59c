//! The rules of the login endpoint. Fetching the stored credentials is the
//! caller's.

use vstd::prelude::*;
use vstd::string::StringExecFns;
use vstd::utf8::encode_utf8;
use crate::auth::password_utils::argon2_accepts;
use crate::auth::password_utils::verify_password;
use crate::models::login_model::LoginRequest;
use crate::models::login_model::LoginResponse;
use crate::models::login_model::LoginResponseView;
use crate::services::rules::require;
use crate::services::rules::said;
use crate::services::rules::spec_require;

verus! {

/// What the users table holds of someone who logs in.
#[derive(Debug, Clone, PartialEq, Eq)]
pub struct StoredCredentials {
    pub user_id: String,
    pub username: String,
    pub password_hash: String,
}

/// What is said to a login that names no such user or the wrong password:
/// the same for both, so that a caller cannot tell which.
pub open spec fn invalid_login() -> Seq<char> {
    "Invalid username or password"@
}

/// Checks that a login names a username and a password. This comes before
/// anything is fetched.
pub fn validate_login(payload: &LoginRequest) -> (outcome: Result<(), String>)
    ensures
        said(
            outcome,
            spec_require(
                payload.username@.len() > 0 && payload.password@.len() > 0,
                "Username and password are required"@,
            ),
        ),
{
    require(
        !payload.username.as_str().is_empty() && !payload.password.as_str().is_empty(),
        "Username and password are required",
    )
}

/// The answer to a login that went through.
pub open spec fn spec_login_response(user_id: Seq<char>, username: Seq<char>) -> LoginResponseView {
    LoginResponseView {
        token: "token_for_user_"@ + user_id,
        user_id,
        email: username,
        username,
    }
}

/// Makes the answer to a login that went through.
pub fn login_response(user_id: String, username: String) -> (response: LoginResponse)
    ensures
        response@ == spec_login_response(user_id@, username@),
{
    LoginResponse {
        token: String::from_str("token_for_user_").concat(user_id.as_str()),
        email: username.clone(),
        user_id,
        username,
    }
}

/// What a login comes to, given what the users table holds under the
/// username and whether the password matched the stored hash.
pub open spec fn spec_login(
    username: Seq<char>,
    password: Seq<char>,
    found: Option<(Seq<char>, Seq<char>)>,
    password_matches: bool,
) -> Result<LoginResponseView, Seq<char>> {
    if username.len() == 0 || password.len() == 0 {
        Err("Username and password are required"@)
    } else {
        match found {
            None => Err(invalid_login()),
            Some((user_id, stored_username)) => if password_matches {
                Ok(spec_login_response(user_id, stored_username))
            } else {
                Err(invalid_login())
            },
        }
    }
}

/// Decides a login from what the users table holds under the username:
/// `None` where it holds nothing.
///
/// The login goes through exactly when both fields are filled in, the
/// username is known and Argon2 accepts the password for the stored hash.
pub fn login_service(payload: &LoginRequest, found: Option<StoredCredentials>) -> (outcome: Result<
    LoginResponse,
    String,
>)
    ensures
        ({
            let expected = spec_login(
                payload.username@,
                payload.password@,
                match found {
                    Some(stored) => Some((stored.user_id@, stored.username@)),
                    None => None,
                },
                found is Some && argon2_accepts(
                    encode_utf8(payload.password@),
                    found->Some_0.password_hash@,
                ),
            );
            match (outcome, expected) {
                (Ok(response), Ok(view)) => response@ == view,
                (Err(message), Err(wording)) => message@ == wording,
                _ => false,
            }
        }),
{
    if let Err(message) = validate_login(payload) {
        return Err(message);
    }
    match found {
        None => Err(String::from_str("Invalid username or password")),
        Some(stored) => {
            if verify_password(payload.password.as_str(), stored.password_hash.as_str()) {
                Ok(login_response(stored.user_id, stored.username))
            } else {
                Err(String::from_str("Invalid username or password"))
            }
        },
    }
}

} // verus!
