use crate::entities::{parsed_method, Method, Request};
use crate::error::HttpError;
use crate::text::{find_char, first_index_of};
use crate::value_objects::{is_json, url_of, JsonBody, Url};
use vstd::prelude::*;

verus! {

/// The text `str::trim` makes of the given text.
pub uninterp spec fn trim_of(s: Seq<char>) -> Seq<char>;

/// Relies on `str::trim`: the text without leading and trailing white space.
#[verifier::external_body]
fn trim(s: &str) -> (r: String)
    ensures
        r@ == trim_of(s@),
{
    s.trim().to_string()
}

/// The position of the first colon of a header string that has one.
pub open spec fn colon_of(s: Seq<char>) -> int {
    choose|i: int| first_index_of(s, ':', i)
}

/// The header name of `Name: Value`: the trimmed text before the first colon.
pub open spec fn header_name(s: Seq<char>) -> Seq<char> {
    trim_of(s.subrange(0, colon_of(s)))
}

/// The header value of `Name: Value`: the trimmed text after the first colon.
pub open spec fn header_value(s: Seq<char>) -> Seq<char> {
    trim_of(s.subrange(colon_of(s) + 1, s.len() as int))
}

/// Whether `h` is the header that the string `s` describes.
pub open spec fn is_header_of(h: (String, String), s: Seq<char>) -> bool {
    h.0@ == header_name(s) && h.1@ == header_value(s)
}

/// Parses `Name: Value` strings, in order. A string without a colon is
/// refused; names may repeat.
pub fn parse_headers(raw_headers: &[String]) -> (r: Result<Vec<(String, String)>, HttpError>)
    ensures
        r is Ok <==> forall|k: int| 0 <= k < raw_headers@.len() ==> (#[trigger] raw_headers@[k])@.contains(':'),
        r matches Ok(v) ==> v@.len() == raw_headers@.len() && forall|k: int|
            0 <= k < v@.len() ==> is_header_of(#[trigger] v@[k], raw_headers@[k]@),
        r matches Err(e) ==> e is InvalidInput,
{
    let mut out: Vec<(String, String)> = Vec::new();
    let mut k: usize = 0;
    while k < raw_headers.len()
        invariant
            k <= raw_headers@.len(),
            out@.len() == k,
            forall|j: int| 0 <= j < k ==> (#[trigger] raw_headers@[j])@.contains(':'),
            forall|j: int| 0 <= j < k ==> is_header_of(#[trigger] out@[j], raw_headers@[j]@),
        decreases raw_headers@.len() - k,
    {
        let raw = raw_headers[k].as_str();
        match find_char(raw, ':') {
            None => {
                let mut msg = String::from_str("Invalid header format: '");
                msg.append(raw);
                msg.append("'. Use 'Key: Value'");
                return Err(HttpError::InvalidInput(msg));
            },
            Some(i) => {
                proof {
                    let c = colon_of(raw@);
                    assert(first_index_of(raw@, ':', c));
                    if c < i {
                        assert(raw@[c] != ':');
                    }
                    if i < c {
                        assert(raw@[i as int] != ':');
                    }
                    assert(raw@.contains(':')) by {
                        assert(raw@[i as int] == ':');
                    }
                }
                let n = raw.unicode_len();
                let name = trim(raw.substring_char(0, i));
                let value = trim(raw.substring_char(i + 1, n));
                out.push((name, value));
            },
        }
        k = k + 1;
    }
    Ok(out)
}

/// Collects the parts of a request, each checked as it is given.
#[derive(Debug)]
pub struct RequestBuilder {
    method: Option<Method>,
    url: Option<Url>,
    headers: Vec<(String, String)>,
    body: Option<JsonBody>,
}

impl RequestBuilder {
    pub closed spec fn spec_method(&self) -> Option<Method> {
        self.method
    }

    pub closed spec fn spec_url(&self) -> Option<Url> {
        self.url
    }

    pub closed spec fn spec_headers(&self) -> Seq<(String, String)> {
        self.headers@
    }

    pub closed spec fn spec_body(&self) -> Option<JsonBody> {
        self.body
    }

    /// A builder with nothing set.
    pub fn new() -> (r: RequestBuilder)
        ensures
            r.spec_method() is None,
            r.spec_url() is None,
            r.spec_headers().len() == 0,
            r.spec_body() is None,
    {
        RequestBuilder { method: None, url: None, headers: Vec::new(), body: None }
    }

    /// Sets the method from its name, ignoring case.
    pub fn method(self, method: &str) -> (r: Result<RequestBuilder, HttpError>)
        ensures
            r matches Ok(b) ==> b.spec_method() == parsed_method(method@) && b.spec_url()
                == self.spec_url() && b.spec_headers() == self.spec_headers() && b.spec_body()
                == self.spec_body(),
            r is Ok <==> parsed_method(method@) is Some,
            r matches Err(e) ==> e is InvalidInput,
    {
        let m = Method::from_str(method)?;
        Ok(RequestBuilder { method: Some(m), ..self })
    }

    /// Sets the URL, parsed from `raw_url`.
    pub fn url(self, raw_url: &str) -> (r: Result<RequestBuilder, HttpError>)
        ensures
            r matches Ok(b) ==> (b.spec_url() matches Some(u) && Some(u@) == url_of(raw_url@)
                && b.spec_method() == self.spec_method() && b.spec_headers() == self.spec_headers()
                && b.spec_body() == self.spec_body()),
            r is Ok <==> url_of(raw_url@) is Some,
            r matches Err(e) ==> e is InvalidInput,
    {
        let u = Url::new(raw_url)?;
        Ok(RequestBuilder { url: Some(u), ..self })
    }

    /// Appends headers parsed from `Name: Value` strings, in order.
    pub fn headers(self, raw_headers: &[String]) -> (r: Result<RequestBuilder, HttpError>)
        ensures
            r is Ok <==> forall|k: int| 0 <= k < raw_headers@.len() ==> (#[trigger] raw_headers@[k])@.contains(':'),
            r matches Ok(b) ==> b.spec_headers().len() == self.spec_headers().len() + raw_headers@.len()
                && b.spec_headers().subrange(0, self.spec_headers().len() as int) == self.spec_headers()
                && (forall|k: int| 0 <= k < raw_headers@.len() ==> is_header_of(
                #[trigger] b.spec_headers()[self.spec_headers().len() + k],
                raw_headers@[k]@,
            )) && b.spec_method() == self.spec_method() && b.spec_url() == self.spec_url()
                && b.spec_body() == self.spec_body(),
            r matches Err(e) ==> e is InvalidInput,
    {
        let mut parsed = parse_headers(raw_headers)?;
        let mut headers = self.headers;
        let ghost before = headers@;
        let ghost p = parsed@;
        headers.append(&mut parsed);
        assert(headers@.subrange(0, before.len() as int) =~= before);
        assert forall|k: int| 0 <= k < raw_headers@.len() implies is_header_of(
            #[trigger] headers@[before.len() + k],
            raw_headers@[k]@,
        ) by {
            assert(headers@[before.len() + k] == p[k]);
        }
        Ok(RequestBuilder { headers, ..self })
    }

    /// Sets the body when JSON text is given; leaves it as it is otherwise.
    pub fn body(self, json: &Option<String>) -> (r: Result<RequestBuilder, HttpError>)
        ensures
            json is None ==> (r matches Ok(b) && b == self),
            json matches Some(t) ==> (r is Ok <==> is_json(t@)),
            json matches Some(t) ==> (r matches Ok(b) ==> (b.spec_body() matches Some(j) && j@ == t@
                && b.spec_method() == self.spec_method() && b.spec_url() == self.spec_url()
                && b.spec_headers() == self.spec_headers())),
            r matches Err(e) ==> e is InvalidInput,
    {
        match json {
            Some(data) => {
                let b = JsonBody::new(data.as_str())?;
                Ok(RequestBuilder { body: Some(b), ..self })
            },
            None => Ok(self),
        }
    }

    /// The request, once method and URL are set.
    pub fn build(self) -> (r: Request)
        requires
            self.spec_method() is Some,
            self.spec_url() is Some,
        ensures
            Some(r.method) == self.spec_method(),
            Some(r.url) == self.spec_url(),
            r.headers@ == self.spec_headers(),
            r.body == self.spec_body(),
    {
        Request {
            method: self.method.unwrap(),
            url: self.url.unwrap(),
            headers: self.headers,
            body: self.body,
        }
    }
}

} // verus!
