//! The rules of the transport company endpoints: companies, their vehicles
//! and their drivers.

use vstd::prelude::*;
use vstd::string::StringExecFns;
use crate::models::transport_company_model::CreateTransportCompanyRequest;
use crate::models::transport_company_model::CreateVehicleRequest;
use crate::models::transport_company_model::Role;
use crate::services::rules::require;
use crate::services::rules::said;
use crate::services::rules::spec_require;

verus! {

/// Checks that a request to create a company names the company and an email.
pub fn validate_create_transport_company(payload: &CreateTransportCompanyRequest) -> (outcome:
    Result<(), String>)
    ensures
        said(
            outcome,
            spec_require(
                payload.name@.len() > 0 && payload.email@.len() > 0,
                "Name and email are required"@,
            ),
        ),
{
    require(
        !payload.name.as_str().is_empty() && !payload.email.as_str().is_empty(),
        "Name and email are required",
    )
}

/// Checks that a request to create a vehicle names its make, its model and
/// its license plate.
pub fn validate_create_vehicle(payload: &CreateVehicleRequest) -> (outcome: Result<(), String>)
    ensures
        said(
            outcome,
            spec_require(
                payload.make@.len() > 0 && payload.model@.len() > 0 && payload.license_plate@.len()
                    > 0,
                "Make, model, and license plate are required"@,
            ),
        ),
{
    require(
        !payload.make.as_str().is_empty() && !payload.model.as_str().is_empty()
            && !payload.license_plate.as_str().is_empty(),
        "Make, model, and license plate are required",
    )
}

/// Checks that a request to create a company driver names an email, a
/// username and a password.
pub fn validate_create_driver(email: &str, username: &str, password: &str) -> (outcome: Result<
    (),
    String,
>)
    ensures
        said(
            outcome,
            spec_require(
                email@.len() > 0 && username@.len() > 0 && password@.len() > 0,
                "Email, username, and password are required"@,
            ),
        ),
{
    require(
        !email.is_empty() && !username.is_empty() && !password.is_empty(),
        "Email, username, and password are required",
    )
}

/// The role that a driver created through a company gets.
pub fn new_driver_role() -> (role: Role)
    ensures
        role == Role::TCDriver,
{
    Role::TCDriver
}

/// What stands for a company driver's password in the drivers table.
pub open spec fn spec_hash_password(password: Seq<char>) -> Seq<char> {
    "hashed_"@ + password
}

/// Marks a company driver's password for storage. This is a stand-in that
/// prefixes the password; it never fails.
pub fn hash_password(password: &str) -> (hashed: Result<String, String>)
    ensures
        hashed is Ok,
        hashed->Ok_0@ == spec_hash_password(password@),
{
    Ok(String::from_str("hashed_").concat(password))
}

} // verus!
