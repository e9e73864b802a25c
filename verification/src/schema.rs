//! Request and response shapes of the HTTP surface.

use crate::model::Uid;
use vstd::prelude::*;

verus! {

/// Pagination options of list endpoints.
#[derive(Debug, Clone, PartialEq)]
pub struct FilterOptions {
    pub page: Option<usize>,
    pub limit: Option<usize>,
}

/// An id taken from a query parameter.
#[derive(Debug, Clone, Copy, PartialEq, Eq, Structural)]
pub struct ParamOptions {
    pub id: Uid,
}

/// An id taken from a path segment.
#[derive(Debug, Clone, Copy, PartialEq, Eq, Structural)]
pub struct PathId {
    pub id: Uid,
}

/// A name taken from a query parameter.
#[derive(Debug, Clone, PartialEq)]
pub struct PathName {
    pub name: String,
}

/// The body of an account-creation request.
#[derive(Debug, Clone, PartialEq)]
pub struct CreateAccount {
    pub name: String,
    pub credential: String,
}

/// A name and password pair, as submitted to registration and login.
#[derive(Debug, Clone, PartialEq)]
pub struct LoginPayload {
    pub name: String,
    pub password: String,
}

/// The website tier's form of the login payload.
#[derive(Debug, Clone, PartialEq)]
pub struct LoginPayload2 {
    pub name: String,
    pub password: String,
}

/// The body of a client-creation request.
#[derive(Debug, Clone, PartialEq)]
pub struct CreateClient {
    pub name: String,
    pub user_id: Uid,
}

/// The body of a bearer-token validation request.
#[derive(Debug, Clone, PartialEq)]
pub struct ValidateToken {
    pub token: String,
}

/// The login form of the website tier.
#[derive(Debug, Clone, PartialEq)]
pub struct Input {
    pub name: String,
    pub password: String,
}

/// The body of a verification-code request.
#[derive(Debug, Clone, PartialEq)]
pub struct SendCode {
    pub mobile: String,
}

/// The response to a verification-code request.
#[derive(Debug, Clone, Copy, PartialEq, Eq, Structural)]
pub struct SendCodeResponse {
    pub found_account: bool,
}

/// Answers a verification-code request; no account lookup is wired up, so
/// the answer always reports that no account was found.
pub fn send_code(_body: &SendCode) -> (r: SendCodeResponse)
    ensures
        r.found_account == false,
{
    SendCodeResponse { found_account: false }
}

} // verus!
