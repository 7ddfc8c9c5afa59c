//! What a login takes and gives.

use vstd::prelude::*;

verus! {

/// The credentials that a login presents.
#[derive(Debug, Clone, PartialEq, Eq)]
pub struct LoginRequest {
    pub username: String,
    pub password: String,
}

/// The answer to a login that went through.
#[derive(Debug, Clone, PartialEq, Eq)]
pub struct LoginResponse {
    pub token: String,
    pub user_id: String,
    pub email: String,
    pub username: String,
}

/// A login answer as contracts see it.
pub struct LoginResponseView {
    pub token: Seq<char>,
    pub user_id: Seq<char>,
    pub email: Seq<char>,
    pub username: Seq<char>,
}

impl View for LoginResponse {
    type V = LoginResponseView;

    open spec fn view(&self) -> LoginResponseView {
        LoginResponseView {
            token: self.token@,
            user_id: self.user_id@,
            email: self.email@,
            username: self.username@,
        }
    }
}

} // verus!
