use vstd::prelude::*;

verus! {

/// The errors a request can end in.
#[derive(Debug)]
pub enum ApiError {
    /// The upstream platform API failed; the text describes the failure.
    Discord(String),
    /// The configuration store failed.
    Database(String),
    /// The cache backend failed.
    Cache(String),
    /// An identifier or other input could not be parsed.
    ParseError,
    /// Missing or invalid credentials, or a denied permission.
    Auth,
    /// The request is well-formed but inconsistent.
    BadRequest,
    /// The requested object does not exist.
    NotFound,
    /// An unexpected condition.
    Internal,
}

/// The HTTP status that an error is reported with.
pub open spec fn status_of(e: ApiError) -> u16 {
    match e {
        ApiError::Auth => 401,
        ApiError::BadRequest => 400,
        ApiError::ParseError => 400,
        ApiError::NotFound => 404,
        _ => 500,
    }
}

impl ApiError {
    pub fn status_code(&self) -> (r: u16)
        ensures
            r == status_of(*self),
    {
        match self {
            ApiError::Auth => 401,
            ApiError::BadRequest => 400,
            ApiError::ParseError => 400,
            ApiError::NotFound => 404,
            _ => 500,
        }
    }
}

} // verus!
