use crate::entities::{verb_of, Request, Response};
use crate::error::HttpError;
use crate::text::same_text;
use crate::value_objects::Url;
use vstd::prelude::*;
use vstd::utf8::{decode_utf8, valid_utf8};

verus! {

/// Relies on `String::from_utf8`: the text of the bytes when they are valid
/// UTF-8, and nothing otherwise.
#[verifier::external_body]
fn decode_text(bytes: Vec<u8>) -> (r: Option<String>)
    ensures
        r is Some <==> valid_utf8(bytes@),
        r matches Some(s) ==> s@ == decode_utf8(bytes@),
{
    String::from_utf8(bytes).ok()
}

pub open spec fn https_scheme() -> Seq<char> {
    seq!['h', 't', 't', 'p', 's']
}

pub open spec fn content_type_name() -> Seq<char> {
    seq!['C', 'o', 'n', 't', 'e', 'n', 't', '-', 'T', 'y', 'p', 'e']
}

pub open spec fn json_media_type() -> Seq<char> {
    seq!['a', 'p', 'p', 'l', 'i', 'c', 'a', 't', 'i', 'o', 'n', '/', 'j', 's', 'o', 'n']
}

pub open spec fn host_name() -> Seq<char> {
    seq!['H', 'o', 's', 't']
}

/// Where a request is sent: host, port, and whether TLS wraps the stream.
#[derive(Clone, Debug)]
pub struct Endpoint {
    pub host: String,
    pub port: u16,
    pub tls: bool,
}

/// Whether the URL's scheme is `https`.
pub open spec fn is_https(u: crate::value_objects::UrlView) -> bool {
    u.scheme == Some(https_scheme())
}

/// The port a URL is reached on: its own, else 443 for `https`, else 80.
pub open spec fn port_of(u: crate::value_objects::UrlView) -> u16 {
    match u.port {
        Some(p) => p,
        None => if is_https(u) {
            443
        } else {
            80
        },
    }
}

/// One step of opening a connection.
#[derive(Clone, Copy, Debug, PartialEq, Eq, Structural)]
pub enum ConnectStep {
    /// Open a TCP stream to the endpoint.
    TcpConnect,
    /// Run a TLS client handshake, checking the certificate against the host.
    TlsHandshake,
    /// Run the HTTP/1.1 client handshake over the stream.
    HttpHandshake,
}

/// The steps that open a connection, in order.
pub open spec fn steps_for(tls: bool) -> Seq<ConnectStep> {
    if tls {
        seq![ConnectStep::TcpConnect, ConnectStep::TlsHandshake, ConnectStep::HttpHandshake]
    } else {
        seq![ConnectStep::TcpConnect, ConnectStep::HttpHandshake]
    }
}

/// A request as it goes on the wire: verb, target, headers in sending
/// order, and body text.
#[derive(Clone, Debug)]
pub struct WireRequest {
    pub method: String,
    pub target: String,
    pub headers: Vec<(String, String)>,
    pub body: String,
}

pub open spec fn pair_view(h: (String, String)) -> (Seq<char>, Seq<char>) {
    (h.0@, h.1@)
}

pub open spec fn pairs_view(hs: Seq<(String, String)>) -> Seq<(Seq<char>, Seq<char>)> {
    hs.map_values(|h: (String, String)| pair_view(h))
}

/// The `Host` header, from the URL's authority when it has one.
pub open spec fn host_headers(u: crate::value_objects::UrlView) -> Seq<(Seq<char>, Seq<char>)> {
    match u.authority {
        Some(a) => seq![(host_name(), a)],
        None => Seq::empty(),
    }
}

/// The JSON content type, when there is a body.
pub open spec fn content_type_headers(has_body: bool) -> Seq<(Seq<char>, Seq<char>)> {
    if has_body {
        seq![(content_type_name(), json_media_type())]
    } else {
        Seq::empty()
    }
}

/// The headers sent for a request: `Host`, then the JSON content type when
/// there is a body, then the caller's headers verbatim and in order. The
/// caller's headers come last, so a `Content-Type` they give is sent after
/// the default one.
pub open spec fn wire_headers(r: Request) -> Seq<(Seq<char>, Seq<char>)> {
    host_headers(r.url@) + content_type_headers(r.body is Some) + pairs_view(r.headers@)
}

/// The body sent for a request: the JSON text exactly, or nothing.
pub open spec fn wire_body(r: Request) -> Seq<char> {
    match r.body {
        Some(b) => b@,
        None => Seq::empty(),
    }
}

/// The HTTP client that opens a new connection for every request.
#[derive(Clone, Copy, Debug)]
pub struct HyperHttpClient;

impl HyperHttpClient {
    pub fn new() -> (r: HyperHttpClient) {
        HyperHttpClient
    }

    /// Resolves where to connect: the URL's host, its port or the scheme's
    /// default, and TLS for `https`. A URL without a host is refused.
    pub fn resolve_endpoint(url: &Url) -> (r: Result<Endpoint, HttpError>)
        ensures
            url@.host is None <==> r is Err,
            r matches Err(e) ==> e is Transport,
            r matches Ok(ep) ==> Some(ep.host@) == url@.host && ep.port == port_of(url@) && ep.tls
                == is_https(url@),
    {
        Self::endpoint_for(url.scheme(), url.host(), url.port())
    }

    /// The endpoint for a URL with these scheme, host and port: the port
    /// given, else 443 for `https` and 80 otherwise; TLS for `https`.
    pub fn endpoint_for(scheme: Option<&str>, host: Option<&str>, port: Option<u16>) -> (r: Result<
        Endpoint,
        HttpError,
    >)
        ensures
            host is None <==> r is Err,
            r matches Err(e) ==> e is Transport,
            r matches Ok(ep) ==> {
                let tls = scheme matches Some(s) && s@ == https_scheme();
                &&& host matches Some(h) && ep.host@ == h@
                &&& ep.tls == tls
                &&& ep.port == (match port {
                    Some(p) => p,
                    None => if tls {
                        443u16
                    } else {
                        80u16
                    },
                })
            },
    {
        let host = match host {
            Some(h) => h,
            None => return Err(HttpError::Transport(String::from_str("No host in URI"))),
        };
        proof {
            reveal_strlit("https");
        }
        assert("https"@ =~= https_scheme());
        let tls = match scheme {
            Some(s) => same_text(s, "https"),
            None => false,
        };
        let port = match port {
            Some(p) => p,
            None => if tls {
                443
            } else {
                80
            },
        };
        Ok(Endpoint { host: String::from_str(host), port, tls })
    }

    /// The steps that open a connection to the endpoint: TCP, then TLS when
    /// asked for, then the HTTP/1.1 handshake.
    pub fn connection_steps(endpoint: &Endpoint) -> (r: Vec<ConnectStep>)
        ensures
            r@ == steps_for(endpoint.tls),
    {
        if endpoint.tls {
            vec![ConnectStep::TcpConnect, ConnectStep::TlsHandshake, ConnectStep::HttpHandshake]
        } else {
            vec![ConnectStep::TcpConnect, ConnectStep::HttpHandshake]
        }
    }

    /// Turns a request into what goes on the wire: the method's verb, the
    /// URL's string form as target, the headers of `wire_headers` and the
    /// body of `wire_body`.
    pub fn to_wire_request(request: &Request) -> (r: WireRequest)
        ensures
            r.method@ == verb_of(request.method),
            r.target@ == request.url@.text,
            pairs_view(r.headers@) == wire_headers(*request),
            r.body@ == wire_body(*request),
    {
        let method = String::from_str(request.method.as_str());
        let target = String::from_str(request.url.as_str());
        let mut headers: Vec<(String, String)> = Vec::new();
        match request.url.authority() {
            Some(a) => {
                proof {
                    reveal_strlit("Host");
                }
                assert("Host"@ =~= host_name());
                headers.push((String::from_str("Host"), String::from_str(a)));
            },
            None => {},
        }
        let ghost host_part = pairs_view(headers@);
        assert(host_part =~= host_headers(request.url@));
        if request.body.is_some() {
            proof {
                reveal_strlit("Content-Type");
                reveal_strlit("application/json");
            }
            assert("Content-Type"@ =~= content_type_name());
            assert("application/json"@ =~= json_media_type());
            headers.push((String::from_str("Content-Type"), String::from_str("application/json")));
        }
        let ghost fixed = pairs_view(headers@);
        assert(fixed =~= host_headers(request.url@) + content_type_headers(request.body is Some));
        let n = headers.len();
        let mut i: usize = 0;
        while i < request.headers.len()
            invariant
                i <= request.headers@.len(),
                n == fixed.len(),
                headers@.len() == n + i,
                pairs_view(headers@) =~= fixed + pairs_view(request.headers@.subrange(0, i as int)),
            decreases request.headers@.len() - i,
        {
            let ghost before = headers@;
            let (k, v) = &request.headers[i];
            headers.push((String::from_str(k.as_str()), String::from_str(v.as_str())));
            assert(pair_view(headers@[n + i]) == pair_view(request.headers@[i as int]));
            assert(pairs_view(headers@) =~= pairs_view(before).push(pair_view(request.headers@[i as int])));
            assert(pairs_view(request.headers@.subrange(0, i + 1)) =~= pairs_view(
                request.headers@.subrange(0, i as int),
            ).push(pair_view(request.headers@[i as int])));
            assert(request.headers@.subrange(0, i + 1) =~= request.headers@.subrange(0, i as int).push(
                request.headers@[i as int],
            ));
            i = i + 1;
        }
        assert(request.headers@.subrange(0, i as int) =~= request.headers@);
        let body = match &request.body {
            Some(b) => String::from_str(b.as_str()),
            None => String::new(),
        };
        WireRequest { method, target, headers, body }
    }

    /// Turns a received status and body into a response. Bytes that are not
    /// valid UTF-8 are a response error.
    pub fn to_domain_response(status: u16, body: Vec<u8>) -> (r: Result<Response, HttpError>)
        ensures
            r is Ok <==> valid_utf8(body@),
            r matches Ok(resp) ==> resp.status == status && resp.body@ == decode_utf8(body@),
            r matches Err(e) ==> e is Response,
    {
        match decode_text(body) {
            Some(text) => Ok(Response { status, body: text }),
            None => Err(HttpError::Response(String::from_str("Invalid UTF-8 in response body"))),
        }
    }
}

/// A request with a JSON body is sent with exactly that text as its body
/// and with the JSON content type; one without a body is sent with an empty
/// body, and with no content type unless the caller gave one.
pub proof fn lemma_wire_round_trip(r: Request)
    ensures
        r.body matches Some(b) ==> wire_body(r) == b@ && wire_headers(r).contains(
            (content_type_name(), json_media_type()),
        ),
        r.body is None ==> wire_body(r) == Seq::<char>::empty(),
        r.body is None && (forall|k: int| 0 <= k < r.headers@.len() ==> (#[trigger] r.headers@[k]).0@
            != content_type_name()) ==> forall|k: int| 0 <= k < wire_headers(r).len() ==> (
        #[trigger] wire_headers(r)[k]).0 != content_type_name(),
{
    let h = host_headers(r.url@);
    let c = content_type_headers(r.body is Some);
    let u = pairs_view(r.headers@);
    if r.body is Some {
        assert(wire_headers(r)[h.len() as int] == (content_type_name(), json_media_type()));
    }
    if r.body is None && (forall|k: int| 0 <= k < r.headers@.len() ==> (#[trigger] r.headers@[k]).0@
        != content_type_name()) {
        assert forall|k: int| 0 <= k < wire_headers(r).len() implies (
        #[trigger] wire_headers(r)[k]).0 != content_type_name() by {
            if k < h.len() {
                assert(host_name()[0] != content_type_name()[0]);
            } else {
                assert(wire_headers(r)[k] == u[k - h.len()]);
            }
        }
    }
}

} // verus!
