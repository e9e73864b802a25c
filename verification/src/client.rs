//! The website tier's client of the API tier: the URLs it calls and the
//! mapping of each response onto the caller's result.
//!
//! The HTTP exchange itself is the caller's I/O; what stands here is the
//! exact URL of each endpoint and what each decoded (or undecodable)
//! response means.

use crate::error::Error;
use crate::model::{ClientModel, DataBody, UserTransportModel};
use vstd::prelude::*;

verus! {

/// The login endpoint of the API tier under `base`.
pub fn users_login_url(base: &String) -> (r: String)
    ensures
        r@ == base@ + "/api/users/login"@,
{
    let mut url = String::new();
    url.append(base.as_str());
    url.append("/api/users/login");
    assert(url@ =~= base@ + "/api/users/login"@);
    url
}

/// The user endpoint of the API tier under `base`, for the id rendered as
/// `id_text`.
pub fn user_url(base: &String, id_text: &String) -> (r: String)
    ensures
        r@ == base@ + "/api/users/"@ + id_text@,
{
    let mut url = String::new();
    url.append(base.as_str());
    url.append("/api/users/");
    url.append(id_text.as_str());
    assert(url@ =~= base@ + "/api/users/"@ + id_text@);
    url
}

/// The client-listing endpoint of the API tier under `base`.
pub fn clients_url(base: &String) -> (r: String)
    ensures
        r@ == base@ + "/api/clients"@,
{
    let mut url = String::new();
    url.append(base.as_str());
    url.append("/api/clients");
    assert(url@ =~= base@ + "/api/clients"@);
    url
}

/// Maps a decoded user response onto the caller's result: the enveloped
/// record on success, `Unauthorized` when the response could not be
/// decoded as one.
pub fn map_user_response(parsed: Result<DataBody<UserTransportModel>, Error>) -> (r: Result<
    UserTransportModel,
    Error,
>)
    ensures
        match parsed {
            Ok(b) => r == Ok::<UserTransportModel, Error>(b.data),
            Err(_) => r == Err::<UserTransportModel, Error>(Error::Unauthorized),
        },
{
    match parsed {
        Ok(body) => Ok(body.data),
        Err(_) => Err(Error::Unauthorized),
    }
}

/// Maps a decoded client response onto the caller's result, as
/// `map_user_response` does for users: `Unauthorized` on any decode
/// failure, so that a bad token never surfaces as an internal error.
pub fn map_client_response(parsed: Result<DataBody<ClientModel>, Error>) -> (r: Result<
    ClientModel,
    Error,
>)
    ensures
        match parsed {
            Ok(b) => r == Ok::<ClientModel, Error>(b.data),
            Err(_) => r == Err::<ClientModel, Error>(Error::Unauthorized),
        },
{
    match parsed {
        Ok(body) => Ok(body.data),
        Err(_) => Err(Error::Unauthorized),
    }
}

} // verus!
