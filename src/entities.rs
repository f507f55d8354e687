use crate::error::HttpError;
use crate::text::same_text;
use crate::value_objects::{JsonBody, Url};
use vstd::prelude::*;

verus! {

/// The text `str::to_uppercase` makes of the given text.
pub uninterp spec fn upper_of(s: Seq<char>) -> Seq<char>;

/// Relies on `str::to_uppercase`: the result depends on the characters alone.
#[verifier::external_body]
fn uppercase(s: &str) -> (r: String)
    ensures
        r@ == upper_of(s@),
{
    s.to_uppercase()
}

/// The HTTP methods the client sends.
#[derive(Clone, Copy, Debug, PartialEq, Eq, Structural)]
pub enum Method {
    Get,
    Post,
    Put,
    Delete,
    Patch,
    Head,
    Options,
}

/// The upper-case name of each method, as sent on the wire.
pub open spec fn verb_of(m: Method) -> Seq<char> {
    match m {
        Method::Get => seq!['G', 'E', 'T'],
        Method::Post => seq!['P', 'O', 'S', 'T'],
        Method::Put => seq!['P', 'U', 'T'],
        Method::Delete => seq!['D', 'E', 'L', 'E', 'T', 'E'],
        Method::Patch => seq!['P', 'A', 'T', 'C', 'H'],
        Method::Head => seq!['H', 'E', 'A', 'D'],
        Method::Options => seq!['O', 'P', 'T', 'I', 'O', 'N', 'S'],
    }
}

/// The method whose upper-case name is `s`, if any.
pub open spec fn method_named(s: Seq<char>) -> Option<Method> {
    if s == verb_of(Method::Get) {
        Some(Method::Get)
    } else if s == verb_of(Method::Post) {
        Some(Method::Post)
    } else if s == verb_of(Method::Put) {
        Some(Method::Put)
    } else if s == verb_of(Method::Delete) {
        Some(Method::Delete)
    } else if s == verb_of(Method::Patch) {
        Some(Method::Patch)
    } else if s == verb_of(Method::Head) {
        Some(Method::Head)
    } else if s == verb_of(Method::Options) {
        Some(Method::Options)
    } else {
        None
    }
}

/// The method that `Method::from_str` makes of the text, if any.
pub open spec fn parsed_method(s: Seq<char>) -> Option<Method> {
    method_named(upper_of(s))
}

impl Method {
    /// The method's wire name.
    pub fn as_str(&self) -> (r: &'static str)
        ensures
            r@ == verb_of(*self),
    {
        let r = match self {
            Method::Get => "GET",
            Method::Post => "POST",
            Method::Put => "PUT",
            Method::Delete => "DELETE",
            Method::Patch => "PATCH",
            Method::Head => "HEAD",
            Method::Options => "OPTIONS",
        };
        proof {
            reveal_strlit("GET");
            reveal_strlit("POST");
            reveal_strlit("PUT");
            reveal_strlit("DELETE");
            reveal_strlit("PATCH");
            reveal_strlit("HEAD");
            reveal_strlit("OPTIONS");
        }
        assert(r@ =~= verb_of(*self));
        r
    }

    /// Parses a method name, ignoring case.
    pub fn from_str(s: &str) -> (r: Result<Method, HttpError>)
        ensures
            r is Ok <==> parsed_method(s@) is Some,
            r matches Ok(m) ==> parsed_method(s@) == Some(m),
            r matches Err(e) ==> e is InvalidInput,
    {
        let upper = uppercase(s);
        Self::from_upper(upper.as_str())
    }

    /// The method whose upper-case name is exactly `upper`.
    pub fn from_upper(upper: &str) -> (r: Result<Method, HttpError>)
        ensures
            r is Ok <==> method_named(upper@) is Some,
            r matches Ok(m) ==> method_named(upper@) == Some(m),
            r matches Err(e) ==> e is InvalidInput,
    {
        let all = [
            Method::Get,
            Method::Post,
            Method::Put,
            Method::Delete,
            Method::Patch,
            Method::Head,
            Method::Options,
        ];
        let mut i: usize = 0;
        while i < 7
            invariant
                all@ == seq![
                    Method::Get,
                    Method::Post,
                    Method::Put,
                    Method::Delete,
                    Method::Patch,
                    Method::Head,
                    Method::Options,
                ],
                i <= 7,
                forall|j: int| 0 <= j < i ==> verb_of(#[trigger] all@[j]) != upper@,
            decreases 7 - i,
        {
            let m = all[i];
            if same_text(upper, m.as_str()) {
                return Ok(m);
            }
            i = i + 1;
        }
        assert(verb_of(all@[0]) != upper@);
        assert(verb_of(all@[1]) != upper@);
        assert(verb_of(all@[2]) != upper@);
        assert(verb_of(all@[3]) != upper@);
        assert(verb_of(all@[4]) != upper@);
        assert(verb_of(all@[5]) != upper@);
        assert(verb_of(all@[6]) != upper@);
        let mut msg = String::from_str("Unsupported HTTP method: '");
        msg.append(upper);
        msg.append("'");
        Err(HttpError::InvalidInput(msg))
    }
}

/// An HTTP request: method, URL, headers in the order given (names may
/// repeat) and an optional JSON body.
#[derive(Clone, Debug)]
pub struct Request {
    pub method: Method,
    pub url: Url,
    pub headers: Vec<(String, String)>,
    pub body: Option<JsonBody>,
}

/// An HTTP response: the status code and the body as text.
#[derive(Clone, Debug)]
pub struct Response {
    pub status: u16,
    pub body: String,
}

} // verus!
