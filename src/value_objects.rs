use crate::error::HttpError;
use vstd::prelude::*;

verus! {

/// Whether `hyper::Uri`'s parser accepts the text.
pub uninterp spec fn uri_parses(s: Seq<char>) -> bool;

/// The string form (`Display`) of the URI parsed from the text.
pub uninterp spec fn uri_text(s: Seq<char>) -> Seq<char>;

/// The scheme (`Uri::scheme_str`) of the URI parsed from the text.
pub uninterp spec fn uri_scheme(s: Seq<char>) -> Option<Seq<char>>;

/// The host (`Uri::host`) of the URI parsed from the text.
pub uninterp spec fn uri_host(s: Seq<char>) -> Option<Seq<char>>;

/// The explicit port (`Uri::port_u16`) of the URI parsed from the text.
pub uninterp spec fn uri_port(s: Seq<char>) -> Option<u16>;

/// The authority (`Uri::authority`) of the URI parsed from the text.
pub uninterp spec fn uri_authority(s: Seq<char>) -> Option<Seq<char>>;

/// Whether `serde_json` accepts the text as one JSON value.
pub uninterp spec fn is_json(s: Seq<char>) -> bool;

/// What the library reads of a parsed URL.
pub struct UrlView {
    pub text: Seq<char>,
    pub scheme: Option<Seq<char>>,
    pub host: Option<Seq<char>>,
    pub port: Option<u16>,
    pub authority: Option<Seq<char>>,
}

pub open spec fn opt_view(o: Option<String>) -> Option<Seq<char>> {
    match o {
        Some(s) => Some(s@),
        None => None,
    }
}

/// The URL that `Url::new` builds from non-empty text that parses.
pub open spec fn parsed_url(raw: Seq<char>) -> UrlView {
    UrlView {
        text: uri_text(raw),
        scheme: uri_scheme(raw),
        host: uri_host(raw),
        port: uri_port(raw),
        authority: uri_authority(raw),
    }
}

/// The empty URI reference.
pub open spec fn empty_url() -> UrlView {
    UrlView { text: Seq::empty(), scheme: None, host: None, port: None, authority: None }
}

/// The URL that `Url::new` makes of the text, if it is a URI reference.
pub open spec fn url_of(raw: Seq<char>) -> Option<UrlView> {
    if raw.len() == 0 {
        Some(empty_url())
    } else if uri_parses(raw) {
        Some(parsed_url(raw))
    } else {
        None
    }
}

/// A syntactically valid URI reference, held as the parts the pipeline reads.
#[derive(Clone, Debug)]
pub struct Url {
    text: String,
    scheme: Option<String>,
    host: Option<String>,
    port: Option<u16>,
    authority: Option<String>,
}

impl View for Url {
    type V = UrlView;

    closed spec fn view(&self) -> UrlView {
        UrlView {
            text: self.text@,
            scheme: opt_view(self.scheme),
            host: opt_view(self.host),
            port: self.port,
            authority: opt_view(self.authority),
        }
    }
}

/// Relies on `<hyper::Uri as FromStr>::from_str` to parse, and on its
/// `Display`, `scheme_str`, `host`, `port_u16` and `authority` for the parts.
/// The parser refuses the empty string.
#[verifier::external_body]
fn parse_uri(raw: &str) -> (r: Option<Url>)
    ensures
        r is Some <==> uri_parses(raw@),
        r matches Some(u) ==> u@.text == uri_text(raw@) && u@.scheme == uri_scheme(raw@)
            && u@.host == uri_host(raw@) && u@.port == uri_port(raw@) && u@.authority
            == uri_authority(raw@),
        raw@.len() == 0 ==> r is None,
{
    match raw.parse::<hyper::Uri>() {
        Ok(u) => Some(Url {
            text: u.to_string(),
            scheme: u.scheme_str().map(|s| s.to_string()),
            host: u.host().map(|h| h.to_string()),
            port: u.port_u16(),
            authority: u.authority().map(|a| a.as_str().to_string()),
        }),
        Err(_) => None,
    }
}

impl Url {
    /// Parses `raw` as a URI reference. The empty string is the empty
    /// reference: it is accepted here and refused by the validator, which
    /// owns the rule that a URL is non-empty. The scheme is not checked here.
    pub fn new(raw: &str) -> (r: Result<Url, HttpError>)
        ensures
            r is Ok <==> url_of(raw@) is Some,
            r matches Ok(u) ==> Some(u@) == url_of(raw@),
            r matches Err(e) ==> e is InvalidInput,
    {
        if raw.is_empty() {
            return Ok(
                Url {
                    text: String::new(),
                    scheme: None,
                    host: None,
                    port: None,
                    authority: None,
                },
            );
        }
        match parse_uri(raw) {
            Some(u) => Ok(u),
            None => Err(HttpError::InvalidInput(String::from_str("Invalid URL"))),
        }
    }

    /// The URL's string form.
    pub fn as_str(&self) -> (r: &str)
        ensures
            r@ == self@.text,
    {
        self.text.as_str()
    }

    /// The scheme, if the URL has one.
    pub fn scheme(&self) -> (r: Option<&str>)
        ensures
            r matches Some(s) ==> self@.scheme == Some(s@),
            r is None ==> self@.scheme is None,
    {
        match &self.scheme {
            Some(s) => Some(s.as_str()),
            None => None,
        }
    }

    /// The host, if the URL has an authority.
    pub fn host(&self) -> (r: Option<&str>)
        ensures
            r matches Some(s) ==> self@.host == Some(s@),
            r is None ==> self@.host is None,
    {
        match &self.host {
            Some(s) => Some(s.as_str()),
            None => None,
        }
    }

    /// The explicit port, if any.
    pub fn port(&self) -> (r: Option<u16>)
        ensures
            r == self@.port,
    {
        self.port
    }

    /// The authority (`host[:port]`, with user info if given), if any.
    pub fn authority(&self) -> (r: Option<&str>)
        ensures
            r matches Some(s) ==> self@.authority == Some(s@),
            r is None ==> self@.authority is None,
    {
        match &self.authority {
            Some(s) => Some(s.as_str()),
            None => None,
        }
    }
}

/// Relies on `serde_json::from_str::<serde_json::Value>`: whether the text
/// is one JSON value.
#[verifier::external_body]
fn json_parses(s: &str) -> (r: bool)
    ensures
        r == is_json(s@),
{
    serde_json::from_str::<serde_json::Value>(s).is_ok()
}

/// JSON text, checked at construction and kept verbatim.
#[derive(Clone, Debug)]
pub struct JsonBody {
    text: String,
}

impl View for JsonBody {
    type V = Seq<char>;

    closed spec fn view(&self) -> Seq<char> {
        self.text@
    }
}

impl JsonBody {
    /// Checks that `raw` is JSON and keeps it unchanged.
    pub fn new(raw: &str) -> (r: Result<JsonBody, HttpError>)
        ensures
            r is Ok <==> is_json(raw@),
            r matches Ok(b) ==> b@ == raw@,
            r matches Err(e) ==> e is InvalidInput,
    {
        if json_parses(raw) {
            Ok(JsonBody { text: String::from_str(raw) })
        } else {
            Err(HttpError::InvalidInput(String::from_str("Invalid JSON")))
        }
    }

    /// The JSON text exactly as given.
    pub fn as_str(&self) -> (r: &str)
        ensures
            r@ == self@,
    {
        self.text.as_str()
    }
}

} // verus!
