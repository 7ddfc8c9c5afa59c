//! The answers of the protected routes, from the claims of the token that
//! the guard let through.

use vstd::prelude::*;
use vstd::string::StringExecFns;
use crate::auth::password_utils::Claims;
use crate::auth::password_utils::ClaimsView;
use crate::text::text_eq;

verus! {

/// The profile line of a user.
pub open spec fn spec_profile(claims: ClaimsView) -> Seq<char> {
    "Profile for user: "@ + claims.sub + ", Role: "@ + claims.role
}

/// Answers the profile route.
pub fn get_profile(claims: &Claims) -> (text: String)
    ensures
        text@ == spec_profile(claims@),
{
    String::from_str("Profile for user: ").concat(claims.sub.as_str()).concat(", Role: ").concat(
        claims.role.as_str(),
    )
}

/// The role that may see the admin dashboard.
pub open spec fn admin_role() -> Seq<char> {
    "admin"@
}

/// What the admin dashboard answers: a welcome to an admin, a denial to
/// anyone else.
pub open spec fn spec_admin_dashboard(claims: ClaimsView) -> Seq<char> {
    if claims.role == admin_role() {
        "Welcome to admin dashboard, "@ + claims.sub
    } else {
        "Access denied. Admin role required."@
    }
}

/// Answers the admin dashboard route.
pub fn admin_dashboard(claims: &Claims) -> (text: String)
    ensures
        text@ == spec_admin_dashboard(claims@),
{
    if !text_eq(claims.role.as_str(), "admin") {
        return String::from_str("Access denied. Admin role required.");
    }
    String::from_str("Welcome to admin dashboard, ").concat(claims.sub.as_str())
}

/// The settings line of a user.
pub open spec fn spec_settings(claims: ClaimsView) -> Seq<char> {
    "Settings for user: "@ + claims.sub
}

/// Answers the settings route.
pub fn get_settings(claims: &Claims) -> (text: String)
    ensures
        text@ == spec_settings(claims@),
{
    String::from_str("Settings for user: ").concat(claims.sub.as_str())
}

} // verus!
