use crate::entities::{Method, Request};
use crate::error::{HttpError, ValidationFailure};
use crate::text::{has_prefix, starts_with};
use crate::value_objects::Url;
use vstd::prelude::*;

verus! {

pub open spec fn http_prefix() -> Seq<char> {
    seq!['h', 't', 't', 'p', ':', '/', '/']
}

pub open spec fn https_prefix() -> Seq<char> {
    seq!['h', 't', 't', 'p', 's', ':', '/', '/']
}

/// The URL rule: which failure, if any, the URL's string form gives.
pub open spec fn url_failure(text: Seq<char>) -> Option<ValidationFailure> {
    if text.len() == 0 {
        Some(ValidationFailure::EmptyUrl)
    } else if !has_prefix(text, http_prefix()) && !has_prefix(text, https_prefix()) {
        Some(ValidationFailure::NotHttp)
    } else {
        None
    }
}

/// The method/body rule: a GET request has no body.
pub open spec fn method_body_failure(method: Method, has_body: bool) -> Option<ValidationFailure> {
    if method == Method::Get && has_body {
        Some(ValidationFailure::GetWithBody)
    } else {
        None
    }
}

/// The first rule a request breaks, the URL rule checked first.
pub open spec fn request_failure(r: Request) -> Option<ValidationFailure> {
    match url_failure(r.url@.text) {
        Some(f) => Some(f),
        None => method_body_failure(r.method, r.body is Some),
    }
}

/// What validating a request returns.
pub open spec fn validation_result(r: Request) -> Result<(), HttpError> {
    match request_failure(r) {
        Some(f) => Err(HttpError::Validation(f)),
        None => Ok(()),
    }
}

/// The domain rules checked before any network activity.
pub struct RequestValidator;

impl RequestValidator {
    /// Checks the URL rule, then the method/body rule, and reports the first
    /// that fails.
    pub fn validate(request: &Request) -> (r: Result<(), HttpError>)
        ensures
            r == validation_result(*request),
    {
        let u = Self::validate_url(&request.url);
        if u.is_err() {
            return u;
        }
        Self::validate_method_body_combination(request)
    }

    /// The URL rule, on the URL's string form.
    pub fn validate_url(url: &Url) -> (r: Result<(), HttpError>)
        ensures
            r == (match url_failure(url@.text) {
                Some(f) => Err(HttpError::Validation(f)),
                None => Ok(()),
            }),
    {
        Self::validate_url_text(url.as_str())
    }

    /// The URL rule: the text is non-empty and starts with `http://` or
    /// `https://`.
    pub fn validate_url_text(text: &str) -> (r: Result<(), HttpError>)
        ensures
            r == (match url_failure(text@) {
                Some(f) => Err(HttpError::Validation(f)),
                None => Ok(()),
            }),
    {
        if text.is_empty() {
            return Err(HttpError::Validation(ValidationFailure::EmptyUrl));
        }
        proof {
            reveal_strlit("http://");
            reveal_strlit("https://");
        }
        assert("http://"@ =~= http_prefix());
        assert("https://"@ =~= https_prefix());
        if !starts_with(text, "http://") && !starts_with(text, "https://") {
            return Err(HttpError::Validation(ValidationFailure::NotHttp));
        }
        Ok(())
    }

    /// The method/body rule: a GET request carries no body.
    pub fn validate_method_body_combination(request: &Request) -> (r: Result<(), HttpError>)
        ensures
            r == (match method_body_failure(request.method, request.body is Some) {
                Some(f) => Err(HttpError::Validation(f)),
                None => Ok(()),
            }),
    {
        match (&request.method, &request.body) {
            (Method::Get, Some(_)) => Err(HttpError::Validation(ValidationFailure::GetWithBody)),
            _ => Ok(()),
        }
    }
}

/// A URL whose string form is non-empty and starts with neither `http://`
/// nor `https://` fails validation, whatever the method and body.
pub proof fn lemma_non_http_url_is_refused(r: Request)
    requires
        r.url@.text.len() > 0,
        !has_prefix(r.url@.text, http_prefix()),
        !has_prefix(r.url@.text, https_prefix()),
    ensures
        validation_result(r) == Err::<(), HttpError>(HttpError::Validation(ValidationFailure::NotHttp)),
{
}

/// A GET request with a body fails validation; for any other method, or
/// with no body, the method/body rule passes.
pub proof fn lemma_method_body_rule(r: Request)
    ensures
        r.method == Method::Get && r.body is Some ==> validation_result(r) is Err,
        !(r.method == Method::Get && r.body is Some) ==> method_body_failure(r.method, r.body is Some) is None,
        !(r.method == Method::Get && r.body is Some) ==> validation_result(r) == (match url_failure(r.url@.text) {
            Some(f) => Err(HttpError::Validation(f)),
            None => Ok(()),
        }),
{
}

} // verus!
