use vstd::prelude::*;

verus! {

/// Which semantic rule a well-formed request broke.
#[derive(Clone, Copy, Debug, PartialEq, Eq, Structural)]
pub enum ValidationFailure {
    /// The URL's string form is empty.
    EmptyUrl,
    /// The URL does not start with `http://` or `https://`.
    NotHttp,
    /// A GET request carries a body.
    GetWithBody,
}

/// The four kinds of failure of the pipeline.
#[derive(Clone, Debug)]
pub enum HttpError {
    /// Malformed method text, URI syntax, JSON text or header string.
    InvalidInput(String),
    /// A syntactically valid request that breaks a semantic rule.
    Validation(ValidationFailure),
    /// Connecting, handshaking, sending or receiving failed.
    Transport(String),
    /// The response body is not valid UTF-8.
    Response(String),
}

impl ValidationFailure {
    /// A human-readable description of the broken rule.
    pub fn message(&self) -> (r: &'static str) {
        match self {
            ValidationFailure::EmptyUrl => "URL cannot be empty",
            ValidationFailure::NotHttp => "URL must start with http:// or https://",
            ValidationFailure::GetWithBody => "GET requests should not have a body",
        }
    }
}

} // verus!
