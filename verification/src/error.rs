//! Error taxonomy of the services, and its mapping onto HTTP status codes
//! and onto the uniform JSON error-response shape of the API tier.

use vstd::prelude::*;

verus! {

/// The error taxonomy shared by both service tiers.
///
/// `Unauthorized` stands for missing or invalid credentials or session,
/// `Forbidden` for an authenticated caller with insufficient permission,
/// `NotFound` for the absence of a matching record, `BadRequest` for
/// malformed input, `Conflict` for a uniqueness violation on creation, and
/// `InternalServerError` for infrastructure failures (database, upstream
/// network), whose detail is never echoed verbatim to the client.
#[derive(Clone, Copy, Debug, PartialEq, Eq, Structural)]
pub enum Error {
    Unauthorized,
    Forbidden,
    NotFound,
    BadRequest,
    Conflict,
    InternalServerError,
}

/// Failure classes reported by the credential-store backend, already
/// stripped of backend-specific detail by the caller that talked to it.
#[derive(Clone, Copy, Debug, PartialEq, Eq, Structural)]
pub enum DbErrorKind {
    RowNotFound,
    UniqueViolation,
    Other,
}

/// Errors of the credential-validation path.
#[derive(Clone, Copy, Debug, PartialEq, Eq, Structural)]
pub enum AuthError {
    InvalidCredentials,
    UnexpectedError,
}

/// One entry of the JSON error payload the API tier renders.
pub struct ErrorJson {
    pub status: String,
    pub source: Option<String>,
    pub title: String,
    pub detail: String,
}

impl Error {
    /// The HTTP status code each error maps to.
    pub open spec fn spec_status_code(self) -> u16 {
        match self {
            Error::Unauthorized => 401,
            Error::Forbidden => 403,
            Error::NotFound => 404,
            Error::BadRequest => 400,
            Error::Conflict => 409,
            Error::InternalServerError => 500,
        }
    }

    pub fn status_code(&self) -> (code: u16)
        ensures
            code == self.spec_status_code(),
    {
        match self {
            Error::Unauthorized => 401,
            Error::Forbidden => 403,
            Error::NotFound => 404,
            Error::BadRequest => 400,
            Error::Conflict => 409,
            Error::InternalServerError => 500,
        }
    }

    /// The human-readable detail each error maps to; internal failures are
    /// collapsed to a generic message so that nothing leaks to the client.
    pub open spec fn spec_detail(self) -> Seq<char> {
        match self {
            Error::Unauthorized => "Request lacks valid authentication credentials for the requested resource"@,
            Error::Forbidden => "Server understands the request but refuses to authorize it"@,
            Error::NotFound => "Not found"@,
            Error::BadRequest => "Bad request"@,
            Error::Conflict => "Conflict"@,
            Error::InternalServerError => "Internal server error"@,
        }
    }

    /// The status code together with the detail message.
    pub fn code_detail(&self) -> (r: (u16, String))
        ensures
            r.0 == self.spec_status_code(),
            r.1@ == self.spec_detail(),
    {
        let detail: &str = match self {
            Error::Unauthorized => "Request lacks valid authentication credentials for the requested resource",
            Error::Forbidden => "Server understands the request but refuses to authorize it",
            Error::NotFound => "Not found",
            Error::BadRequest => "Bad request",
            Error::Conflict => "Conflict",
            Error::InternalServerError => "Internal server error",
        };
        (self.status_code(), detail.to_owned())
    }

    /// The status line rendered in the JSON error payload.
    pub open spec fn spec_status_text(self) -> Seq<char> {
        match self {
            Error::Unauthorized => "401 Unauthorized"@,
            Error::Forbidden => "403 Forbidden"@,
            Error::NotFound => "404 Not Found"@,
            Error::BadRequest => "400 Bad Request"@,
            Error::Conflict => "409 Conflict"@,
            Error::InternalServerError => "500 Internal Server Error"@,
        }
    }

    /// The digits of the status code, as they appear in the payload.
    pub open spec fn spec_status_digits(self) -> Seq<char> {
        match self {
            Error::Unauthorized => "401"@,
            Error::Forbidden => "403"@,
            Error::NotFound => "404"@,
            Error::BadRequest => "400"@,
            Error::Conflict => "409"@,
            Error::InternalServerError => "500"@,
        }
    }

    /// The uniform error-response entry: `{status, source, title, detail}`.
    pub fn to_error_json(&self) -> (r: ErrorJson)
        ensures
            r.status@ == self.spec_status_digits(),
            r.source is None,
            r.title@ == self.spec_status_text(),
            r.detail@ == self.spec_detail(),
    {
        let digits: &str = match self {
            Error::Unauthorized => "401",
            Error::Forbidden => "403",
            Error::NotFound => "404",
            Error::BadRequest => "400",
            Error::Conflict => "409",
            Error::InternalServerError => "500",
        };
        let title: &str = match self {
            Error::Unauthorized => "401 Unauthorized",
            Error::Forbidden => "403 Forbidden",
            Error::NotFound => "404 Not Found",
            Error::BadRequest => "400 Bad Request",
            Error::Conflict => "409 Conflict",
            Error::InternalServerError => "500 Internal Server Error",
        };
        let (_, detail) = self.code_detail();
        ErrorJson { status: digits.to_owned(), source: None, title: title.to_owned(), detail }
    }
}

/// Maps a failure class of the database backend onto the error taxonomy:
/// a missing row is `NotFound`, a uniqueness violation is `Conflict`, and
/// everything else is an internal error.
pub fn db_error(kind: DbErrorKind) -> (r: Error)
    ensures
        r == (match kind {
            DbErrorKind::RowNotFound => Error::NotFound,
            DbErrorKind::UniqueViolation => Error::Conflict,
            DbErrorKind::Other => Error::InternalServerError,
        }),
{
    match kind {
        DbErrorKind::RowNotFound => Error::NotFound,
        DbErrorKind::UniqueViolation => Error::Conflict,
        DbErrorKind::Other => Error::InternalServerError,
    }
}

/// The status code and detail a database failure renders with, which
/// differ from the plain taxonomy's details: a missing row reports that
/// the request returned no results, and a uniqueness violation carries the
/// backend's own message after `Conflict: `. Anything else is collapsed to
/// the generic internal detail, never echoed verbatim.
pub fn db_code_detail(kind: DbErrorKind, message: &String) -> (r: (u16, String))
    ensures
        kind is RowNotFound ==> r.0 == 404 && r.1@ == "Request returned no results"@,
        kind is UniqueViolation ==> r.0 == 409 && r.1@ == "Conflict: "@ + message@,
        kind is Other ==> r.0 == 500 && r.1@ == "Internal server error"@,
{
    match kind {
        DbErrorKind::RowNotFound => (404, "Request returned no results".to_owned()),
        DbErrorKind::UniqueViolation => {
            let mut detail = String::new();
            detail.append("Conflict: ");
            detail.append(message.as_str());
            assert(detail@ =~= "Conflict: "@ + message@);
            (409, detail)
        },
        DbErrorKind::Other => (500, "Internal server error".to_owned()),
    }
}

/// The uniform error-response entry for a database failure, with the
/// details of `db_code_detail`.
pub fn db_error_json(kind: DbErrorKind, message: &String) -> (r: ErrorJson)
    ensures
        r.source is None,
        kind is RowNotFound ==> r.status@ == "404"@ && r.title@ == "404 Not Found"@ && r.detail@
            == "Request returned no results"@,
        kind is UniqueViolation ==> r.status@ == "409"@ && r.title@ == "409 Conflict"@
            && r.detail@ == "Conflict: "@ + message@,
        kind is Other ==> r.status@ == "500"@ && r.title@ == "500 Internal Server Error"@
            && r.detail@ == "Internal server error"@,
{
    let mapped = db_error(kind);
    let base = mapped.to_error_json();
    let (_, detail) = db_code_detail(kind, message);
    ErrorJson { status: base.status, source: None, title: base.title, detail }
}

} // verus!
