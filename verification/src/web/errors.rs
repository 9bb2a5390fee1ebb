//! Errors of the REST service and of the embedding providers behind it.

use vstd::prelude::*;
use vstd::string::*;

verus! {

/// An embedding provider failed.
#[derive(Debug)]
pub enum EmbedderError {
    /// The HTTP exchange with the provider failed, with this message.
    HTTPError(String),
}

impl EmbedderError {
    /// The text that describes the error to a person.
    pub open spec fn message(self) -> Seq<char> {
        match self {
            EmbedderError::HTTPError(e) => "HTTP error: "@ + e@,
        }
    }

    /// Renders the error as text.
    pub fn to_string(&self) -> (s: String)
        ensures
            s@ == self.message(),
    {
        match self {
            EmbedderError::HTTPError(e) => "HTTP error: ".to_owned().concat(e.as_str()),
        }
    }
}

/// The response body for an error response.
#[derive(Debug)]
pub struct ErrorResponse {
    /// The error message.
    pub message: String,
}

/// An error that can be returned from an API endpoint.
#[derive(Debug)]
pub enum ApiError {
    /// A bad request error.
    BadRequest(String),
    /// An internal server error.
    InternalError(String),
}

impl ApiError {
    /// The text that describes the error to a person.
    pub open spec fn message(self) -> Seq<char> {
        match self {
            ApiError::BadRequest(msg) => "Bad Request: "@ + msg@,
            ApiError::InternalError(msg) => "Internal Error: "@ + msg@,
        }
    }

    /// The HTTP status that answers a request that ended in this error.
    pub open spec fn status(self) -> u16 {
        match self {
            ApiError::BadRequest(_) => 400,
            ApiError::InternalError(_) => 500,
        }
    }

    /// Renders the error as text.
    pub fn to_string(&self) -> (s: String)
        ensures
            s@ == self.message(),
    {
        match self {
            ApiError::BadRequest(msg) => "Bad Request: ".to_owned().concat(msg.as_str()),
            ApiError::InternalError(msg) => "Internal Error: ".to_owned().concat(msg.as_str()),
        }
    }

    /// The number of the HTTP status of the response.
    pub fn status_code(&self) -> (code: u16)
        ensures
            code == self.status(),
    {
        match self {
            ApiError::BadRequest(_) => 400,
            ApiError::InternalError(_) => 500,
        }
    }

    /// The body of the response: the rendered error.
    pub fn error_response(&self) -> (body: ErrorResponse)
        ensures
            body.message@ == self.message(),
    {
        ErrorResponse { message: self.to_string() }
    }
}

/// The conversion is stated by the `ensures` of `from`, over the text of the
/// message: two strings with the same text need not be the same value, so
/// `from_spec` is not claimed to be obeyed.
impl vstd::std_specs::convert::FromSpecImpl<EmbedderError> for ApiError {
    open spec fn obeys_from_spec() -> bool {
        false
    }

    open spec fn from_spec(err: EmbedderError) -> ApiError {
        ApiError::InternalError(choose|msg: String| msg@ == err.message())
    }
}

impl From<EmbedderError> for ApiError {
    /// A provider's failure is an internal error that carries the rendered
    /// failure.
    fn from(err: EmbedderError) -> (ret: ApiError)
        ensures
            ret matches ApiError::InternalError(msg) && msg@ == err.message(),
    {
        ApiError::InternalError(err.to_string())
    }
}

} // verus!
