//! What creating a transport company, a vehicle or a company driver takes.

use vstd::prelude::*;
use vstd::string::StringExecFns;

verus! {

/// The part someone plays in a transport company.
#[derive(Debug, Clone, Copy, PartialEq, Eq, Structural)]
pub enum Role {
    TCUser,
    TCDriver,
    TCAdmin,
}

impl Role {
    /// The name under which a role is stored.
    pub open spec fn spec_name(self) -> Seq<char> {
        match self {
            Role::TCUser => "TCUser"@,
            Role::TCDriver => "TCDriver"@,
            Role::TCAdmin => "TCAdmin"@,
        }
    }

    /// The name under which a role is stored.
    pub fn name(&self) -> (name: String)
        ensures
            name@ == self.spec_name(),
    {
        match self {
            Role::TCUser => String::from_str("TCUser"),
            Role::TCDriver => String::from_str("TCDriver"),
            Role::TCAdmin => String::from_str("TCAdmin"),
        }
    }
}

/// What creating a transport company takes.
#[derive(Debug, Clone, PartialEq, Eq)]
pub struct CreateTransportCompanyRequest {
    pub name: String,
    pub email: String,
    pub phone: Option<String>,
    pub address: Option<String>,
}

/// What creating a vehicle takes.
#[derive(Debug, Clone, PartialEq, Eq)]
pub struct CreateVehicleRequest {
    pub transport_company_id: String,
    pub make: String,
    pub model: String,
    pub year: i32,
    pub license_plate: String,
}

} // verus!
