//! The credential check that stands before every handler: HTTP basic
//! authentication against the one configured pair.
use crate::config::Configuration;
use crate::error::{auth_error_text, fails, HttpError};
use crate::text::same_text;
use vstd::prelude::*;

verus! {

/// `http_auth_basic::Credentials`: a user id and a password, both public
/// fields of the crate's struct.
#[verifier::external_type_specification]
pub struct ExCredentials(http_auth_basic::Credentials);

/// What `http_auth_basic::Credentials::from_header` makes of the value of
/// an `Authorization` header: the credentials it decodes, or its error.
pub uninterp spec fn header_credentials(header: Seq<char>) -> Result<
    http_auth_basic::Credentials,
    http_auth_basic::AuthBasicError,
>;

/// Calls `http_auth_basic::Credentials::from_header`. Claimed: the result
/// is the one that `header_credentials` names.
#[verifier::external_body]
fn credentials_from_header(header: String) -> (r: Result<
    http_auth_basic::Credentials,
    http_auth_basic::AuthBasicError,
>)
    ensures
        r == header_credentials(header@),
{
    http_auth_basic::Credentials::from_header(header)
}

/// What a request holds for the `Authorization` header.
pub enum AuthorizationHeader {
    /// The request's headers were taken by an earlier reader.
    Unavailable,
    /// The request has no such header.
    Missing,
    /// The header's value is not text.
    Unreadable,
    /// The header's value.
    Value(String),
}

/// The credentials of a request that presented the configured pair.
#[derive(Debug)]
pub struct LoginExtractor(pub http_auth_basic::Credentials);

/// `r` is what a request with the header `header` is told before its
/// credentials are compared: an internal server error where the headers
/// are gone, unauthorized where there is no readable header, and a bad
/// request with the decoder's words where the value holds no basic
/// credentials.
pub open spec fn refuses_header<T>(r: Result<T, HttpError>, header: AuthorizationHeader) -> bool {
    match header {
        AuthorizationHeader::Unavailable => fails(r, 500, "Internal Server Error"@),
        AuthorizationHeader::Missing => fails(r, 401, "Unauthorized"@),
        AuthorizationHeader::Unreadable => fails(r, 401, "Unauthorized"@),
        AuthorizationHeader::Value(text) => match header_credentials(text@) {
            Ok(_) => false,
            Err(e) => fails(r, 400, auth_error_text(e)),
        },
    }
}

/// The credentials that the header `header` decodes to, if it does.
pub open spec fn presented(header: AuthorizationHeader) -> Option<http_auth_basic::Credentials> {
    match header {
        AuthorizationHeader::Value(text) => match header_credentials(text@) {
            Ok(credentials) => Some(credentials),
            Err(_) => None,
        },
        _ => None,
    }
}

/// Reads the basic credentials that a request presents.
pub fn credentials_from_request(header: AuthorizationHeader) -> (r: Result<
    http_auth_basic::Credentials,
    HttpError,
>)
    ensures
        match presented(header) {
            Some(credentials) => r == Ok::<http_auth_basic::Credentials, HttpError>(credentials),
            None => refuses_header(r, header),
        },
{
    match header {
        AuthorizationHeader::Unavailable => Err(HttpError::internal_server_error(None)),
        AuthorizationHeader::Missing => Err(HttpError::unauthorized(None)),
        AuthorizationHeader::Unreadable => Err(HttpError::unauthorized(None)),
        AuthorizationHeader::Value(text) => match credentials_from_header(text) {
            Ok(credentials) => Ok(credentials),
            Err(e) => Err(HttpError::from(e)),
        },
    }
}

impl LoginExtractor {
    /// The pair that `config` asks for.
    pub open spec fn expected(
        config: Configuration,
        credentials: http_auth_basic::Credentials,
    ) -> bool {
        credentials.user_id@ == config.tf_http_username@ && credentials.password@
            == config.tf_http_password@
    }

    /// Lets a request through if it presents the credential pair of
    /// `config`, and says unauthorized to any other pair.
    pub fn from_request(config: &Configuration, header: AuthorizationHeader) -> (r: Result<
        Self,
        HttpError,
    >)
        ensures
            match presented(header) {
                Some(credentials) => if Self::expected(*config, credentials) {
                    r == Ok::<Self, HttpError>(LoginExtractor(credentials))
                } else {
                    fails(r, 401, "Unauthorized"@)
                },
                None => refuses_header(r, header),
            },
    {
        match credentials_from_request(header) {
            Ok(credentials) => Self::check(config, credentials),
            Err(e) => Err(e),
        }
    }

    /// Compares credentials that were presented with the pair of `config`:
    /// user id and password must both be the same, to the letter.
    pub fn check(config: &Configuration, credentials: http_auth_basic::Credentials) -> (r: Result<
        Self,
        HttpError,
    >)
        ensures
            if Self::expected(*config, credentials) {
                r == Ok::<Self, HttpError>(LoginExtractor(credentials))
            } else {
                fails(r, 401, "Unauthorized"@)
            },
    {
        if same_text(credentials.user_id.as_str(), config.tf_http_username.as_str()) && same_text(
            credentials.password.as_str(),
            config.tf_http_password.as_str(),
        ) {
            Ok(Self(credentials))
        } else {
            Err(HttpError::unauthorized(None))
        }
    }
}

} // verus!
