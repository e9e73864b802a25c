//! Authentication middleware decisions and the handlers of the website
//! tier that act on a resolved identity: the bearer checks, login, and the
//! permission page.
//!
//! Each function here is the decision half of a middleware or handler: the
//! surrounding I/O (extracting headers, running the inner service, sending
//! the response) hands in plain values and acts on the returned verdict.

use crate::clients::ClientDirectory;
use crate::error::Error;
use crate::identity::{User, views_of};
use crate::model::{ClientModel, UserTransportModel};
use crate::session::Session;
use crate::token::token_is_valid;
use vstd::prelude::*;

verus! {

/// The bearer check of the permissive middleware layer: admits the request
/// when the presented token is valid, which it currently always is.
pub fn auth(token: &String) -> (r: Result<(), Error>)
    ensures
        r is Ok,
{
    if token_is_valid(token) {
        Ok(())
    } else {
        Err(Error::Unauthorized)
    }
}

/// Resolves a presented client bearer token against the client store.
pub fn is_valid_client_token(clients: &ClientDirectory, token: &String) -> (r: Result<
    ClientModel,
    Error,
>)
    ensures
        r is Ok <==> clients.spec_contains_token(token@),
        r matches Ok(c) ==> c.token@ == token@,
        r is Err ==> r == Err::<ClientModel, Error>(Error::NotFound),
{
    let c = clients.get_client(token)?;
    Ok(c)
}

/// The client-token check: a request whose token resolved to a client
/// passes with that client attached; any failure is `Unauthorized`, never
/// an internal error.
pub fn token_auth(lookup: Result<ClientModel, Error>) -> (r: Result<ClientModel, Error>)
    ensures
        match lookup {
            Ok(c) => r == Ok::<ClientModel, Error>(c),
            Err(_) => r == Err::<ClientModel, Error>(Error::Unauthorized),
        },
{
    match lookup {
        Ok(client) => Ok(client),
        Err(_) => Err(Error::Unauthorized),
    }
}

/// The session check: an anonymous session is turned away with
/// `Unauthorized`; an authenticated one passes.
pub fn session_auth(user: &User) -> (r: Result<(), Error>)
    ensures
        r is Ok <==> !user.anonymous,
        r is Err ==> r == Err::<(), Error>(Error::Unauthorized),
{
    if user.is_anonymous() {
        Err(Error::Unauthorized)
    } else {
        Ok(())
    }
}

/// Where the login handler redirects.
#[derive(Clone, Copy, Debug, PartialEq, Eq, Structural)]
pub enum LoginRedirect {
    PermPage,
    LoginPage,
}

impl LoginRedirect {
    /// The redirect target path.
    pub fn target(&self) -> (r: &'static str)
        ensures
            self is PermPage ==> r@ == "/perm"@,
            self is LoginPage ==> r@ == "/login"@,
    {
        match self {
            LoginRedirect::PermPage => "/perm",
            LoginRedirect::LoginPage => "/login",
        }
    }
}

/// Acts on the outcome of credential verification: success binds the
/// verified user's id to the session (overwriting any prior binding) and
/// redirects to the permission page; failure leaves the session untouched
/// and redirects back to the login form.
pub fn handle_login(auth: &mut Session, outcome: Result<UserTransportModel, Error>) -> (r:
    LoginRedirect)
    ensures
        match outcome {
            Ok(u) => final(auth).spec_principal() == Some(u.id) && r == LoginRedirect::PermPage,
            Err(_) => final(auth).spec_principal() == old(auth).spec_principal() && r
                == LoginRedirect::LoginPage,
        },
{
    match outcome {
        Ok(user) => {
            auth.login_user(Some(user.id));
            LoginRedirect::PermPage
        },
        Err(_) => LoginRedirect::LoginPage,
    }
}

} // verus!
