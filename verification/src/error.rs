//! The errors a request can end in, and the status each one is answered with.
use vstd::prelude::*;
use vstd::std_specs::convert::FromSpecImpl;

verus! {

/// `http_auth_basic::AuthBasicError`: why an `Authorization` header holds no
/// basic credentials. Its variants and their fields are those of the
/// crate.
#[verifier::external_type_specification]
pub struct ExAuthBasicError(http_auth_basic::AuthBasicError);

/// What `http_auth_basic` prints for each of its errors.
pub open spec fn auth_error_text(e: http_auth_basic::AuthBasicError) -> Seq<char> {
    match e {
        http_auth_basic::AuthBasicError::InvalidAuthorizationHeader =>
            "Invalid value provided for the HTTP Authorization header"@,
        http_auth_basic::AuthBasicError::InvalidScheme(scheme) => "The scheme provided ("@
            + scheme@ + ") is not Basic"@,
        http_auth_basic::AuthBasicError::InvalidBase64Value(message) =>
            "The value have an invalid base64 encoding\n"@ + message@,
        http_auth_basic::AuthBasicError::InvalidUtf8Value(message) => "Invalid UTF-8 Provided\n"@
            + message@,
    }
}

/// Calls `to_string` on an `http_auth_basic::AuthBasicError`. Claimed: the
/// result is the text that the crate's `Display` writes for the variant,
/// as `auth_error_text` spells it out.
#[verifier::external_body]
fn auth_error_to_string(e: &http_auth_basic::AuthBasicError) -> (r: String)
    ensures
        r@ == auth_error_text(*e),
{
    e.to_string()
}

/// `r` is an error answered with `status` that carries `text`.
pub open spec fn fails<T>(r: Result<T, HttpError>, status: u16, text: Seq<char>) -> bool {
    r matches Err(e) && e.says(status, text)
}

/// A failure reported by the database behind the store, as the caller's
/// driver worded it.
#[derive(Debug, Clone, PartialEq, Eq)]
pub struct DatabaseError {
    pub message: String,
}

/// A request that could not be served, with the text shown to the client.
#[derive(Debug, Clone, PartialEq, Eq)]
pub enum HttpError {
    BadGateway(String),
    BadRequest(String),
    InternalServerError(String),
    NotFound(String),
    Unauthorized(String),
}

impl HttpError {
    /// The text carried by the error, whatever its kind.
    pub open spec fn spec_message(&self) -> Seq<char> {
        match self {
            HttpError::BadGateway(s) => s@,
            HttpError::BadRequest(s) => s@,
            HttpError::InternalServerError(s) => s@,
            HttpError::NotFound(s) => s@,
            HttpError::Unauthorized(s) => s@,
        }
    }

    /// The HTTP status the error is answered with.
    pub open spec fn spec_status_code(&self) -> u16 {
        match self {
            HttpError::BadGateway(_) => 502,
            HttpError::BadRequest(_) => 400,
            HttpError::InternalServerError(_) => 500,
            HttpError::NotFound(_) => 404,
            HttpError::Unauthorized(_) => 401,
        }
    }

    /// The error is answered with `status` and carries `text`. Since no
    /// two kinds share a status, this fixes the kind as well.
    pub open spec fn says(&self, status: u16, text: Seq<char>) -> bool {
        self.spec_status_code() == status && self.spec_message() == text
    }

    /// The given text, or `fallback` where none is given.
    pub open spec fn text_or(message: Option<String>, fallback: Seq<char>) -> Seq<char> {
        match message {
            Some(m) => m@,
            None => fallback,
        }
    }

    pub fn internal_server_error(message: Option<String>) -> (r: Self)
        ensures
            r is InternalServerError,
            r.spec_message() == Self::text_or(message, "Internal Server Error"@),
    {
        let message: String = message.unwrap_or("Internal Server Error".to_owned());
        Self::InternalServerError(message)
    }

    pub fn bad_request(message: Option<String>) -> (r: Self)
        ensures
            r is BadRequest,
            r.spec_message() == Self::text_or(message, "Bad Request"@),
    {
        let message: String = message.unwrap_or("Bad Request".to_owned());
        Self::BadRequest(message)
    }

    pub fn unauthorized(message: Option<String>) -> (r: Self)
        ensures
            r is Unauthorized,
            r.spec_message() == Self::text_or(message, "Unauthorized"@),
    {
        let message: String = message.unwrap_or("Unauthorized".to_owned());
        Self::Unauthorized(message)
    }

    pub fn bad_gateway(message: Option<String>) -> (r: Self)
        ensures
            r is BadGateway,
            r.spec_message() == Self::text_or(message, "Bad Gateway"@),
    {
        let message: String = message.unwrap_or("Bad Gateway".to_owned());
        Self::BadGateway(message)
    }

    pub fn not_found(message: Option<String>) -> (r: Self)
        ensures
            r is NotFound,
            r.spec_message() == Self::text_or(message, "Not Found"@),
    {
        let message: String = message.unwrap_or("Not Found".to_owned());
        Self::NotFound(message)
    }

    /// The text carried by the error.
    pub fn message(&self) -> (r: &String)
        ensures
            r@ == self.spec_message(),
    {
        match self {
            HttpError::BadGateway(s) => s,
            HttpError::BadRequest(s) => s,
            HttpError::InternalServerError(s) => s,
            HttpError::NotFound(s) => s,
            HttpError::Unauthorized(s) => s,
        }
    }

    /// The HTTP status the error is answered with.
    #[verifier::when_used_as_spec(spec_status_code)]
    pub fn status_code(&self) -> (r: u16)
        ensures
            r == self.spec_status_code(),
    {
        match self {
            HttpError::BadGateway(_) => 502,
            HttpError::BadRequest(_) => 400,
            HttpError::InternalServerError(_) => 500,
            HttpError::NotFound(_) => 404,
            HttpError::Unauthorized(_) => 401,
        }
    }
}

/// The conversions into `HttpError` make a string of their own, which no
/// specification can name beforehand: what they return is stated on `from`
/// itself, over the status and the text.
impl FromSpecImpl<DatabaseError> for HttpError {
    open spec fn obeys_from_spec() -> bool {
        false
    }

    open spec fn from_spec(e: DatabaseError) -> Self {
        arbitrary()
    }
}

/// Every failure of the database is answered as a bad gateway, with the
/// stock text: the driver's wording is not passed on to the client.
impl From<DatabaseError> for HttpError {
    fn from(e: DatabaseError) -> (r: Self)
        ensures
            r.says(502, "Bad Gateway"@),
    {
        Self::bad_gateway(None)
    }
}

impl FromSpecImpl<http_auth_basic::AuthBasicError> for HttpError {
    open spec fn obeys_from_spec() -> bool {
        false
    }

    open spec fn from_spec(e: http_auth_basic::AuthBasicError) -> Self {
        arbitrary()
    }
}

/// A header without basic credentials is a bad request, answered with what
/// `http_auth_basic` says of it.
impl From<http_auth_basic::AuthBasicError> for HttpError {
    fn from(e: http_auth_basic::AuthBasicError) -> (r: Self)
        ensures
            r.says(400, auth_error_text(e)),
    {
        Self::bad_request(Some(auth_error_to_string(&e)))
    }
}

} // verus!
