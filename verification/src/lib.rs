//! Authentication, authorization and request-proxying core for a pair of
//! CRUD web services: credential verification, session-identity resolution,
//! permission evaluation, client token issuance, and the URL/decision logic
//! of a reverse-proxy front door.
//!
//! The stores (`users`, `clients`, `accounts`) keep credential, client and
//! account records with their uniqueness invariants; `hashing` wraps the
//! memory-hard password hash; `identity` resolves a session principal to a
//! `User` with its permission set, falling back to the anonymous guest;
//! `authz` evaluates permission expressions; `session` binds principals to
//! session tokens, last-write-wins; `token` draws bearer tokens from a
//! fixed alphabet with a cryptographically secure source; `proxy`, `client`
//! and `openfga` build the exact upstream URLs and requests and decide what
//! each outcome means; `auth` and `handlers` are the middleware and page
//! decisions; `error` is the error taxonomy with its HTTP mapping.

use vstd::prelude::*;

pub mod accounts;
pub mod auth;
pub mod auth0;
pub mod authz;
pub mod clients;
pub mod client;
pub mod error;
pub mod handlers;
pub mod hashing;
pub mod identity;
pub mod model;
pub mod openfga;
pub mod proxy;
pub mod schema;
pub mod session;
pub mod token;
pub mod users;

verus! {

/// Sums two counters; the result must fit in `usize`.
pub fn add(left: usize, right: usize) -> (r: usize)
    requires
        left + right <= usize::MAX,
    ensures
        r == left + right,
{
    left + right
}

} // verus!
