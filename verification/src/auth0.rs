//! Delegated-login settings: the endpoint URLs of the external authorizer,
//! the token-exchange request, and validation of the decoded JWT claims.
//!
//! Fetching certificates, exchanging the code, and decoding the JWT are
//! the caller's I/O; what stands here is the exact URL and request each
//! step uses and the acceptance rule over the decoded claims.

use crate::error::Error;
use vstd::prelude::*;

verus! {

/// The query-string percent encoding of `s`. Named after the encoding
/// library's outcome; it depends on the string alone.
pub uninterp spec fn percent_encoded(s: Seq<char>) -> Seq<char>;

/// Relies on `urlencoding::encode`: percent-encodes everything but
/// unreserved characters, deterministically in the string.
#[verifier::external_body]
fn percent_encode(s: &String) -> (r: String)
    ensures
        r@ == percent_encoded(s@),
{
    urlencoding::encode(s.as_str()).into_owned()
}

/// The parameters of a callback request from the authorizer.
pub struct CallbackSchema {
    pub code: String,
    pub state: String,
}

/// The token-exchange request sent to the authorizer's token endpoint.
pub struct TokenRequest {
    pub grant_type: String,
    pub client_id: String,
    pub client_secret: String,
    pub code: String,
    pub redirect_uri: String,
}

/// The authorizer's answer to a token exchange.
pub struct TokenResponse {
    pub access_token: String,
    pub expires_in: u32,
    pub id_token: String,
    pub token_type: String,
}

/// The claims decoded from the authorizer's identity token.
pub struct Auth0JWTPayload {
    pub email: String,
    pub sub: String,
    pub exp: i64,
    pub iss: String,
    pub aud: String,
}

/// Configuration of the delegated login, including the client secret,
/// which must be kept private.
pub struct AuthSettings {
    client_id: String,
    client_secret: String,
    redirect_uri: String,
    auth0_domain: String,
}

impl AuthSettings {
    pub closed spec fn spec_client_id(&self) -> Seq<char> {
        self.client_id@
    }

    pub closed spec fn spec_client_secret(&self) -> Seq<char> {
        self.client_secret@
    }

    pub closed spec fn spec_redirect_uri(&self) -> Seq<char> {
        self.redirect_uri@
    }

    pub closed spec fn spec_domain(&self) -> Seq<char> {
        self.auth0_domain@
    }

    /// Settings from the four configured values, as the startup code read
    /// them from the environment.
    pub fn new(
        client_id: String,
        client_secret: String,
        redirect_uri: String,
        auth0_domain: String,
    ) -> (r: Self)
        ensures
            r.spec_client_id() == client_id@,
            r.spec_client_secret() == client_secret@,
            r.spec_redirect_uri() == redirect_uri@,
            r.spec_domain() == auth0_domain@,
    {
        AuthSettings { client_id, client_secret, redirect_uri, auth0_domain }
    }

    /// The URL a login is redirected to, for a given state parameter: the
    /// authorize endpoint with the client id, the percent-encoded redirect
    /// URI, the fixed scopes, and the state.
    pub fn authorize_endpoint_url(&self, state: &String) -> (r: String)
        ensures
            r@ == "https://"@ + self.spec_domain() + "/authorize?response_type=code&client_id="@
                + self.spec_client_id() + "&redirect_uri="@ + percent_encoded(
                self.spec_redirect_uri(),
            ) + "&scope=openid%20email%20profile&state="@ + state@,
    {
        let encoded = percent_encode(&self.redirect_uri);
        let mut url = String::new();
        url.append("https://");
        url.append(self.auth0_domain.as_str());
        url.append("/authorize?response_type=code&client_id=");
        url.append(self.client_id.as_str());
        url.append("&redirect_uri=");
        url.append(encoded.as_str());
        url.append("&scope=openid%20email%20profile&state=");
        url.append(state.as_str());
        assert(url@ =~= "https://"@ + self.spec_domain()
            + "/authorize?response_type=code&client_id="@ + self.spec_client_id()
            + "&redirect_uri="@ + percent_encoded(self.spec_redirect_uri())
            + "&scope=openid%20email%20profile&state="@ + state@);
        url
    }

    /// The authorizer's token-exchange endpoint.
    pub fn token_endpoint_url(&self) -> (r: String)
        ensures
            r@ == "https://"@ + self.spec_domain() + "/oauth/token"@,
    {
        let mut url = String::new();
        url.append("https://");
        url.append(self.auth0_domain.as_str());
        url.append("/oauth/token");
        assert(url@ =~= "https://"@ + self.spec_domain() + "/oauth/token"@);
        url
    }

    /// The token-exchange request for an authorization code.
    pub fn token_request(&self, code: &String) -> (r: TokenRequest)
        ensures
            r.grant_type@ == "authorization_code"@,
            r.client_id@ == self.spec_client_id(),
            r.client_secret@ == self.spec_client_secret(),
            r.code@ == code@,
            r.redirect_uri@ == self.spec_redirect_uri(),
    {
        TokenRequest {
            grant_type: "authorization_code".to_owned(),
            client_id: self.client_id.clone(),
            client_secret: self.client_secret.clone(),
            code: code.clone(),
            redirect_uri: self.redirect_uri.clone(),
        }
    }

    /// The issuer string this configuration accepts: the domain under
    /// `https://`, with a trailing slash.
    pub open spec fn spec_expected_issuer(&self) -> Seq<char> {
        "https://"@ + self.spec_domain() + "/"@
    }

    /// Accepts decoded identity-token claims exactly when the audience is
    /// this client and the issuer is this configuration's domain; anything
    /// else is `Unauthorized`.
    pub fn validate_jwt_claims(&self, payload: &Auth0JWTPayload) -> (r: Result<(), Error>)
        ensures
            r is Ok <==> payload.aud@ == self.spec_client_id() && payload.iss@
                == self.spec_expected_issuer(),
            r is Err ==> r == Err::<(), Error>(Error::Unauthorized),
    {
        let mut issuer = String::new();
        issuer.append("https://");
        issuer.append(self.auth0_domain.as_str());
        issuer.append("/");
        assert(issuer@ =~= self.spec_expected_issuer());
        if payload.aud == self.client_id && payload.iss == issuer {
            Ok(())
        } else {
            Err(Error::Unauthorized)
        }
    }
}

} // verus!
