//! The rules of the driver endpoints.

use vstd::prelude::*;
use crate::services::rules::deleted;
use crate::services::rules::require;
use crate::services::rules::said;
use crate::services::rules::spec_deleted;
use crate::services::rules::spec_require;

verus! {

/// Whether a request to create a driver has what it needs.
pub open spec fn create_driver_is_complete(
    email: Seq<char>,
    first_name: Seq<char>,
    username: Seq<char>,
    password: Seq<char>,
) -> bool {
    email.len() > 0 && first_name.len() > 0 && username.len() > 0 && password.len() > 0
}

/// Checks that a request to create a driver names an email, a first name, a
/// username and a password.
pub fn validate_create_driver(email: &str, first_name: &str, username: &str, password: &str) -> (outcome:
    Result<(), String>)
    ensures
        said(
            outcome,
            spec_require(
                create_driver_is_complete(email@, first_name@, username@, password@),
                "Email, username, first name, and password are required"@,
            ),
        ),
{
    require(
        !email.is_empty() && !first_name.is_empty() && !username.is_empty() && !password.is_empty(),
        "Email, username, first name, and password are required",
    )
}

/// Checks that a driver id was given.
pub fn validate_driver_id(id: &str) -> (outcome: Result<(), String>)
    ensures
        said(outcome, spec_require(id@.len() > 0, "Driver ID is required"@)),
{
    require(!id.is_empty(), "Driver ID is required")
}

/// Words the outcome of deleting a driver from the number of rows that went.
pub fn delete_driver_service(id: &str, rows_affected: u64) -> (outcome: Result<String, String>)
    ensures
        match (outcome, spec_deleted("Driver"@, id@, rows_affected)) {
            (Ok(message), Ok(wording)) => message@ == wording,
            (Err(message), Err(wording)) => message@ == wording,
            _ => false,
        },
{
    deleted("Driver", id, rows_affected)
}

} // verus!
