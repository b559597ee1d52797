//! Session-token login records.

use vstd::prelude::*;

verus! {

/// The credentials posted to the session-token login endpoint.
#[derive(Debug)]
pub struct LoginCredentials<'a> {
    pub login: &'a str,
    pub password: &'a str,
    pub remember_me: bool,
}

/// The user block of a login response.
#[derive(Debug)]
pub struct LoginResponseUser {
    pub email: String,
    pub username: String,
    pub external_id: String,
}

/// A successful login response.
#[derive(Debug)]
pub struct LoginResponse {
    pub user: LoginResponseUser,
    pub session_token: String,
    pub remember_token: Option<String>,
}

} // verus!
