//! The rules of the user endpoints. Reading and writing the users table is
//! the caller's; what is checked before, and what is made of the answer, is
//! decided here.

use vstd::prelude::*;
use crate::auth::password_utils::hash_password;
use crate::clock::fresh_id;
use crate::clock::now_micros;
use crate::models::user_model::CreateUserRequest;
use crate::models::user_model::User;
use crate::models::user_model::UserView;
use crate::services::rules::deleted;
use crate::services::rules::require;
use crate::services::rules::said;
use crate::services::rules::spec_deleted;
use crate::services::rules::spec_require;

verus! {

/// Whether a request to create a user has what it needs.
pub open spec fn create_user_is_complete(
    email: Seq<char>,
    username: Seq<char>,
    password: Seq<char>,
) -> bool {
    email.len() > 0 && username.len() > 0 && password.len() > 0
}

/// Checks that a request to create a user names an email, a username and a
/// password.
pub fn validate_create_user(payload: &CreateUserRequest) -> (outcome: Result<(), String>)
    ensures
        said(
            outcome,
            spec_require(
                create_user_is_complete(payload.email@, payload.username@, payload.password@),
                "Email, username, and password are required"@,
            ),
        ),
{
    require(
        !payload.email.as_str().is_empty() && !payload.username.as_str().is_empty()
            && !payload.password.as_str().is_empty(),
        "Email, username, and password are required",
    )
}

/// Checks that a user id was given.
pub fn validate_user_id(id: &str) -> (outcome: Result<(), String>)
    ensures
        said(outcome, spec_require(id@.len() > 0, "User ID is required"@)),
{
    require(!id.is_empty(), "User ID is required")
}

/// The user that a request creates: active, without a picture, created and
/// last changed at `now`.
pub open spec fn spec_new_user(
    email: Seq<char>,
    username: Seq<char>,
    first_name: Seq<char>,
    last_name: Seq<char>,
    phone: Option<Seq<char>>,
    password_hash: Seq<char>,
    id: Seq<char>,
    now: i64,
) -> UserView {
    UserView {
        id,
        email,
        username,
        password_hash,
        first_name,
        last_name,
        phone,
        profile_picture: None,
        is_active: true,
        created_at: now,
        updated_at: now,
    }
}

/// Makes the user that a request creates, under the given id, password hash
/// and time.
pub fn new_user(payload: CreateUserRequest, password_hash: String, id: String, now: i64) -> (user:
    User)
    ensures
        user@ == spec_new_user(
            payload.email@,
            payload.username@,
            payload.first_name@,
            payload.last_name@,
            payload.phone.deep_view(),
            password_hash@,
            id@,
            now,
        ),
{
    User {
        id,
        email: payload.email,
        username: payload.username,
        password_hash,
        first_name: payload.first_name,
        last_name: payload.last_name,
        phone: payload.phone,
        profile_picture: None,
        is_active: true,
        created_at: now,
        updated_at: now,
    }
}

/// Makes the user to insert for a request: checks the request, hashes the
/// password, and gives the user a fresh random id and the current time.
///
/// An incomplete request fails before anything is hashed. Whatever the
/// hash, the id and the time turn out to be, the user is made of them and
/// of the request as `new_user` says.
pub fn create_user_service(payload: CreateUserRequest) -> (outcome: Result<User, String>)
    ensures
        !create_user_is_complete(payload.email@, payload.username@, payload.password@) ==> outcome
            is Err && outcome->Err_0@ == "Email, username, and password are required"@,
        outcome matches Ok(user) ==> exists|password_hash: Seq<char>, id: Seq<char>, now: i64|
            user@ == #[trigger] spec_new_user(
                payload.email@,
                payload.username@,
                payload.first_name@,
                payload.last_name@,
                payload.phone.deep_view(),
                password_hash,
                id,
                now,
            ),
{
    if let Err(message) = validate_create_user(&payload) {
        return Err(message);
    }
    let password_hash = match hash_password(payload.password.as_str()) {
        Ok(password_hash) => password_hash,
        Err(message) => {
            return Err(message);
        },
    };
    let id = fresh_id();
    let now = now_micros();
    Ok(new_user(payload, password_hash, id, now))
}

/// Words the outcome of deleting a user from the number of rows that went.
pub fn delete_user_service(id: &str, rows_affected: u64) -> (outcome: Result<String, String>)
    ensures
        match (outcome, spec_deleted("User"@, id@, rows_affected)) {
            (Ok(message), Ok(wording)) => message@ == wording,
            (Err(message), Err(wording)) => message@ == wording,
            _ => false,
        },
{
    deleted("User", id, rows_affected)
}

} // verus!
