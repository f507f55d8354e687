use crate::builder::{is_header_of, parse_headers};
use crate::entities::{parsed_method, Method, Request};
use crate::error::HttpError;
use crate::value_objects::{is_json, url_of, JsonBody, Url};
use vstd::prelude::*;

verus! {

/// The command line's options: URL, method name, `Name: Value` headers,
/// optional JSON body, verbosity, output file and wizard mode.
#[derive(Clone, Debug)]
pub struct Cli {
    pub url: String,
    pub method: String,
    pub headers: Vec<String>,
    pub body: Option<String>,
    pub verbose: bool,
    pub output: Option<String>,
    pub wizard: bool,
}

/// Whether every header string has a colon.
pub open spec fn headers_well_formed(hs: Seq<String>) -> bool {
    forall|k: int| 0 <= k < hs.len() ==> (#[trigger] hs[k])@.contains(':')
}

/// Whether the body text, if any, is JSON.
pub open spec fn body_well_formed(b: Option<String>) -> bool {
    match b {
        Some(t) => is_json(t@),
        None => true,
    }
}

impl Cli {
    /// Builds the request the options describe: the URL, then the method,
    /// the headers and the body are each checked, and the first malformed
    /// one is reported as invalid input.
    pub fn build_request(&self) -> (r: Result<Request, HttpError>)
        ensures
            r is Ok <==> url_of(self.url@) is Some && parsed_method(self.method@) is Some
                && headers_well_formed(self.headers@) && body_well_formed(self.body),
            r matches Err(e) ==> e is InvalidInput,
            r matches Ok(req) ==> {
                &&& Some(req.url@) == url_of(self.url@)
                &&& Some(req.method) == parsed_method(self.method@)
                &&& req.headers@.len() == self.headers@.len()
                &&& forall|k: int| 0 <= k < req.headers@.len() ==> is_header_of(#[trigger] req.headers@[k], self.headers@[k]@)
                &&& (req.body is None <==> self.body is None)
                &&& (req.body matches Some(b) ==> b@ == self.body->Some_0@)
            },
    {
        let url = Url::new(self.url.as_str())?;
        let method = Method::from_str(self.method.as_str())?;
        let headers = parse_headers(self.headers.as_slice())?;
        let body = match &self.body {
            Some(json) => Some(JsonBody::new(json.as_str())?),
            None => None,
        };
        Ok(Request { method, url, headers, body })
    }
}

} // verus!
