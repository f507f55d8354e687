use hurl::builder::{parse_headers, RequestBuilder};
use hurl::cli::Cli;
use hurl::config::Config;
use hurl::entities::{Method, Request, Response};
use hurl::error::{HttpError, ValidationFailure};
use hurl::service::{BatchJoin, BatchStep, RetryState, RetryStep};
use hurl::transport::{ConnectStep, HyperHttpClient};
use hurl::validator::RequestValidator;
use hurl::value_objects::{JsonBody, Url};

fn create_valid_request() -> Request {
    Request {
        url: Url::new("https://example.com").unwrap(),
        method: Method::Get,
        headers: vec![],
        body: None,
    }
}

fn create_test_response() -> Response {
    Response { status: 200, body: "test response".to_string() }
}

fn request_to(url: &str, method: Method, body: Option<&str>) -> Request {
    Request {
        url: Url::new(url).unwrap(),
        method,
        headers: vec![],
        body: body.map(|b| JsonBody::new(b).unwrap()),
    }
}

/// Drives a retried send against canned outcomes; returns the result and
/// the number of attempts made.
fn run_retry(
    request: &Request,
    max_retries: u32,
    outcomes: Vec<Result<Response, HttpError>>,
) -> (Result<Response, HttpError>, usize) {
    let mut state = match RetryState::begin(request, max_retries) {
        Ok(s) => s,
        Err(e) => return (Err(e), 0),
    };
    let mut attempts = 0;
    for outcome in outcomes {
        attempts += 1;
        match state.on_outcome(outcome) {
            RetryStep::Deliver(r) => return (r, attempts),
            RetryStep::Resend(next) => state = next,
        }
    }
    panic!("the transport ran out of outcomes");
}

fn network_error() -> HttpError {
    HttpError::Transport("Network error".to_string())
}

#[test]
fn request_service_sends_valid_request() {
    let request = create_valid_request();
    let (result, attempts) = run_retry(&request, 0, vec![Ok(create_test_response())]);
    assert!(result.is_ok());
    assert_eq!(attempts, 1);
}

#[test]
fn request_service_validates_before_sending() {
    let invalid_request = Request {
        url: Url::new("").unwrap(),
        method: Method::Get,
        headers: vec![],
        body: None,
    };
    let result = RetryState::begin(&invalid_request, 0);
    assert!(result.is_err());
}

#[test]
fn request_service_retries_on_failure() {
    let request = create_valid_request();
    let (result, attempts) = run_retry(
        &request,
        2,
        vec![Err(network_error()), Ok(create_test_response())],
    );
    assert!(result.is_ok());
    assert_eq!(attempts, 2);
}

#[test]
fn validator_rejects_empty_url() {
    let request = Request {
        url: Url::new("").unwrap(),
        method: Method::Get,
        headers: vec![],
        body: None,
    };
    let result = RequestValidator::validate(&request);
    assert!(result.is_err());
}

#[test]
fn validator_rejects_get_with_body() {
    let request = Request {
        url: Url::new("https://example.com").unwrap(),
        method: Method::Get,
        headers: vec![],
        body: Some(JsonBody::new("{}").unwrap()),
    };
    let result = RequestValidator::validate(&request);
    assert!(result.is_err());
}

#[test]
fn validator_accepts_valid_request() {
    let request = create_valid_request();
    let result = RequestValidator::validate(&request);
    assert!(result.is_ok());
}

#[test]
fn empty_url_reports_empty_rule() {
    let request = request_to("", Method::Post, None);
    assert!(matches!(
        RequestValidator::validate(&request),
        Err(HttpError::Validation(ValidationFailure::EmptyUrl))
    ));
}

#[test]
fn non_http_url_parses_but_fails_validation() {
    for raw in ["ftp://example.com", "/relative/path", "example.com"] {
        let url = Url::new(raw);
        assert!(url.is_ok(), "{raw}");
        let request = Request { url: url.unwrap(), method: Method::Post, headers: vec![], body: None };
        assert!(matches!(
            RequestValidator::validate(&request),
            Err(HttpError::Validation(ValidationFailure::NotHttp))
        ));
    }
}

#[test]
fn malformed_url_is_invalid_input() {
    assert!(matches!(Url::new("http://exa mple.com"), Err(HttpError::InvalidInput(_))));
}

#[test]
fn url_string_form_comes_from_the_parser() {
    let url = Url::new("https://example.com").unwrap();
    assert_eq!(url.as_str(), "https://example.com/");
    assert_eq!(url.scheme(), Some("https"));
    assert_eq!(url.host(), Some("example.com"));
    assert_eq!(url.port(), None);
    assert_eq!(url.authority(), Some("example.com"));
    let url = Url::new("http://localhost:8080/a?b=c").unwrap();
    assert_eq!(url.as_str(), "http://localhost:8080/a?b=c");
    assert_eq!(url.port(), Some(8080));
    assert_eq!(url.authority(), Some("localhost:8080"));
}

#[test]
fn method_body_rule_only_refuses_get_with_body() {
    let methods = [
        Method::Get,
        Method::Post,
        Method::Put,
        Method::Delete,
        Method::Patch,
        Method::Head,
        Method::Options,
    ];
    for m in methods {
        let with_body = request_to("http://example.com", m, Some("{\"a\":1}"));
        let without = request_to("http://example.com", m, None);
        assert!(RequestValidator::validate(&without).is_ok());
        if m == Method::Get {
            assert!(matches!(
                RequestValidator::validate(&with_body),
                Err(HttpError::Validation(ValidationFailure::GetWithBody))
            ));
        } else {
            assert!(RequestValidator::validate(&with_body).is_ok());
        }
    }
}

#[test]
fn url_rule_is_reported_before_method_body_rule() {
    let request = request_to("ftp://example.com", Method::Get, Some("{}"));
    assert!(matches!(
        RequestValidator::validate(&request),
        Err(HttpError::Validation(ValidationFailure::NotHttp))
    ));
}

#[test]
fn json_body_keeps_text_verbatim() {
    for raw in ["{\"a\":1}", " [1, 2,\n3] ", "\"x\"", "null", "12.5e3"] {
        let body = JsonBody::new(raw).unwrap();
        assert_eq!(body.as_str(), raw);
    }
}

#[test]
fn json_body_refuses_non_json() {
    for raw in ["not json", "", "{", "{\"a\":1,}", "[1 2]"] {
        assert!(matches!(JsonBody::new(raw), Err(HttpError::InvalidInput(_))), "{raw}");
    }
}

#[test]
fn post_with_non_json_body_fails_before_sending() {
    let mut builder = RequestBuilder::new().method("POST").unwrap();
    builder = builder.url("http://example.com").unwrap();
    let result = builder.body(&Some("not json".to_string()));
    assert!(matches!(result, Err(HttpError::InvalidInput(_))));
}

#[test]
fn method_parse_ignores_case() {
    assert_eq!(Method::from_str("get").unwrap(), Method::Get);
    assert_eq!(Method::from_str("PoSt").unwrap(), Method::Post);
    assert_eq!(Method::from_str("options").unwrap(), Method::Options);
    assert_eq!(Method::from_str("delete").unwrap().as_str(), "DELETE");
    match Method::from_str("fetch") {
        Err(HttpError::InvalidInput(msg)) => assert_eq!(msg, "Unsupported HTTP method: 'FETCH'"),
        other => panic!("unexpected {:?}", other),
    }
}

#[test]
fn retry_succeeds_after_some_failures() {
    let request = create_valid_request();
    for k in 0..=3usize {
        let mut outcomes: Vec<Result<Response, HttpError>> = (0..k).map(|_| Err(network_error())).collect();
        outcomes.push(Ok(create_test_response()));
        let (result, attempts) = run_retry(&request, 3, outcomes);
        assert_eq!(result.unwrap().body, "test response");
        assert_eq!(attempts, k + 1);
    }
}

#[test]
fn retry_gives_up_after_all_attempts() {
    let request = create_valid_request();
    let outcomes: Vec<Result<Response, HttpError>> = (0..10)
        .map(|i| Err(HttpError::Transport(format!("failure {i}"))))
        .collect();
    let (result, attempts) = run_retry(&request, 4, outcomes);
    assert_eq!(attempts, 5);
    match result {
        Err(HttpError::Transport(msg)) => assert_eq!(msg, "failure 4"),
        other => panic!("unexpected {:?}", other),
    }
}

#[test]
fn retry_with_zero_retries_makes_one_attempt() {
    let request = create_valid_request();
    let (result, attempts) = run_retry(&request, 0, vec![Err(network_error()), Ok(create_test_response())]);
    assert!(result.is_err());
    assert_eq!(attempts, 1);
}

#[test]
fn batch_with_one_invalid_request_opens_no_join() {
    let requests = vec![
        create_valid_request(),
        request_to("http://example.com", Method::Post, Some("{}")),
        request_to("https://example.com", Method::Get, Some("{}")),
        create_valid_request(),
    ];
    assert!(matches!(
        BatchJoin::begin(&requests),
        Err(HttpError::Validation(ValidationFailure::GetWithBody))
    ));
}

#[test]
fn batch_keeps_input_order() {
    let requests = vec![create_valid_request(), create_valid_request(), create_valid_request()];
    let mut join = BatchJoin::begin(&requests).unwrap();
    assert_eq!(join.len(), 3);
    assert!(!join.is_complete());
    let mut result = None;
    for index in [2usize, 0, 1] {
        assert!(join.awaits(index));
        let resp = Response { status: 200 + index as u16, body: format!("r{index}") };
        match join.on_complete(index, Ok(resp)) {
            BatchStep::Waiting(j) => join = j,
            BatchStep::Complete(v) => {
                result = Some(v);
                break;
            }
            BatchStep::Failed(e) => panic!("unexpected {:?}", e),
        }
    }
    let responses = result.unwrap();
    let bodies: Vec<&str> = responses.iter().map(|r| r.body.as_str()).collect();
    assert_eq!(bodies, vec!["r0", "r1", "r2"]);
    assert_eq!(responses[1].status, 201);
}

#[test]
fn batch_fails_on_first_send_error() {
    let requests = vec![create_valid_request(), create_valid_request()];
    let join = BatchJoin::begin(&requests).unwrap();
    let join = match join.on_complete(1, Ok(create_test_response())) {
        BatchStep::Waiting(j) => j,
        _ => panic!("expected to wait"),
    };
    assert!(matches!(join.on_complete(0, Err(network_error())), BatchStep::Failed(HttpError::Transport(_))));
}

#[test]
fn empty_batch_is_complete_at_once() {
    let join = BatchJoin::begin(&vec![]).unwrap();
    assert!(join.is_complete());
    assert!(join.into_responses().is_empty());
}

#[test]
fn wire_request_with_json_body() {
    let mut request = request_to("http://example.com", Method::Post, Some("{\"a\":1}"));
    request.headers = vec![("X-Trace".to_string(), "1".to_string())];
    let wire = HyperHttpClient::to_wire_request(&request);
    assert_eq!(wire.method, "POST");
    assert_eq!(wire.target, "http://example.com/");
    assert_eq!(wire.body, "{\"a\":1}");
    assert_eq!(
        wire.headers,
        vec![
            ("Host".to_string(), "example.com".to_string()),
            ("Content-Type".to_string(), "application/json".to_string()),
            ("X-Trace".to_string(), "1".to_string()),
        ]
    );
}

#[test]
fn wire_request_without_body() {
    let request = request_to("http://example.com:8080", Method::Delete, None);
    let wire = HyperHttpClient::to_wire_request(&request);
    assert_eq!(wire.body, "");
    assert_eq!(wire.headers, vec![("Host".to_string(), "example.com:8080".to_string())]);
}

#[test]
fn caller_content_type_is_sent_after_default() {
    let mut request = request_to("http://example.com", Method::Put, Some("[]"));
    request.headers = vec![("Content-Type".to_string(), "text/plain".to_string())];
    let wire = HyperHttpClient::to_wire_request(&request);
    assert_eq!(wire.headers[1], ("Content-Type".to_string(), "application/json".to_string()));
    assert_eq!(wire.headers[2], ("Content-Type".to_string(), "text/plain".to_string()));
}

#[test]
fn endpoint_defaults_by_scheme() {
    let ep = HyperHttpClient::resolve_endpoint(&Url::new("https://example.com").unwrap()).unwrap();
    assert_eq!((ep.host.as_str(), ep.port, ep.tls), ("example.com", 443, true));
    let ep = HyperHttpClient::resolve_endpoint(&Url::new("http://example.com").unwrap()).unwrap();
    assert_eq!((ep.host.as_str(), ep.port, ep.tls), ("example.com", 80, false));
    let ep = HyperHttpClient::resolve_endpoint(&Url::new("https://example.com:8443/x").unwrap()).unwrap();
    assert_eq!((ep.host.as_str(), ep.port, ep.tls), ("example.com", 8443, true));
}

#[test]
fn endpoint_needs_a_host() {
    let url = Url::new("/only/a/path").unwrap();
    assert!(matches!(HyperHttpClient::resolve_endpoint(&url), Err(HttpError::Transport(_))));
}

#[test]
fn connection_steps_by_scheme() {
    let tls = HyperHttpClient::resolve_endpoint(&Url::new("https://example.com").unwrap()).unwrap();
    assert_eq!(
        HyperHttpClient::connection_steps(&tls),
        vec![ConnectStep::TcpConnect, ConnectStep::TlsHandshake, ConnectStep::HttpHandshake]
    );
    let plain = HyperHttpClient::resolve_endpoint(&Url::new("http://example.com").unwrap()).unwrap();
    assert_eq!(
        HyperHttpClient::connection_steps(&plain),
        vec![ConnectStep::TcpConnect, ConnectStep::HttpHandshake]
    );
}

#[test]
fn get_https_scenario() {
    let request = create_valid_request();
    assert!(RequestValidator::validate(&request).is_ok());
    let ep = HyperHttpClient::resolve_endpoint(&request.url).unwrap();
    assert_eq!(
        HyperHttpClient::connection_steps(&ep),
        vec![ConnectStep::TcpConnect, ConnectStep::TlsHandshake, ConnectStep::HttpHandshake]
    );
    let wire = HyperHttpClient::to_wire_request(&request);
    assert_eq!(wire.method, "GET");
    assert_eq!(wire.body, "");
    let resp = HyperHttpClient::to_domain_response(200, "héllo {}".as_bytes().to_vec()).unwrap();
    assert_eq!(resp.status, 200);
    assert_eq!(resp.body, "héllo {}");
}

#[test]
fn invalid_utf8_body_is_response_error() {
    let result = HyperHttpClient::to_domain_response(200, vec![0x66, 0xff, 0x6f]);
    assert!(matches!(result, Err(HttpError::Response(_))));
}

#[test]
fn headers_parse_in_order_and_trimmed() {
    let raw = vec![
        "Accept: text/html".to_string(),
        "X-A:  1 ".to_string(),
        "X-A: 2".to_string(),
        "X-Time: 12:30".to_string(),
    ];
    let parsed = parse_headers(&raw).unwrap();
    assert_eq!(
        parsed,
        vec![
            ("Accept".to_string(), "text/html".to_string()),
            ("X-A".to_string(), "1".to_string()),
            ("X-A".to_string(), "2".to_string()),
            ("X-Time".to_string(), "12:30".to_string()),
        ]
    );
}

#[test]
fn header_without_colon_is_refused() {
    let raw = vec!["Accept: */*".to_string(), "NoColon".to_string()];
    match parse_headers(&raw) {
        Err(HttpError::InvalidInput(msg)) => {
            assert_eq!(msg, "Invalid header format: 'NoColon'. Use 'Key: Value'")
        }
        other => panic!("unexpected {:?}", other),
    }
}

#[test]
fn builder_assembles_request() {
    let request = RequestBuilder::new()
        .method("patch")
        .unwrap()
        .url("https://api.example.com/items/1")
        .unwrap()
        .headers(&["Authorization: Bearer SECRET-REDACTED".to_string()])
        .unwrap()
        .body(&Some("{\"done\":true}".to_string()))
        .unwrap()
        .build();
    assert_eq!(request.method, Method::Patch);
    assert_eq!(request.url.as_str(), "https://api.example.com/items/1");
    assert_eq!(request.headers.len(), 1);
    assert_eq!(request.headers[0].1, "Bearer SECRET-REDACTED");
    assert_eq!(request.body.unwrap().as_str(), "{\"done\":true}");
}

#[test]
fn cli_options_build_a_request() {
    let cli = Cli {
        url: "http://example.com/x".to_string(),
        method: "put".to_string(),
        headers: vec!["A: b".to_string()],
        body: Some("[1]".to_string()),
        verbose: false,
        output: None,
        wizard: false,
    };
    let request = cli.build_request().unwrap();
    assert_eq!(request.method, Method::Put);
    assert_eq!(request.headers, vec![("A".to_string(), "b".to_string())]);
    let bad = Cli { body: Some("nope".to_string()), ..cli.clone() };
    assert!(matches!(bad.build_request(), Err(HttpError::InvalidInput(_))));
    let bad = Cli { method: "brew".to_string(), ..cli };
    assert!(matches!(bad.build_request(), Err(HttpError::InvalidInput(_))));
}

#[test]
fn profile_loading_is_not_supported() {
    assert_eq!(Config::load_profile("dev"), "Profile loading not implemented");
}

#[test]
fn validation_messages() {
    assert_eq!(ValidationFailure::EmptyUrl.message(), "URL cannot be empty");
    assert_eq!(ValidationFailure::GetWithBody.message(), "GET requests should not have a body");
}

#[test]
fn upper_case_scheme_is_lowered_by_the_parser() {
    let url = Url::new("HTTP://example.com").unwrap();
    assert_eq!(url.as_str(), "http://example.com/");
    assert!(RequestValidator::validate_url(&url).is_ok());
}

#[test]
fn method_from_upper_is_exact() {
    assert_eq!(Method::from_upper("HEAD").unwrap(), Method::Head);
    assert!(matches!(Method::from_upper("head"), Err(HttpError::InvalidInput(_))));
    assert!(matches!(Method::from_upper(""), Err(HttpError::InvalidInput(_))));
}

#[test]
fn url_text_rule() {
    assert!(RequestValidator::validate_url_text("http://a").is_ok());
    assert!(RequestValidator::validate_url_text("https://a").is_ok());
    assert!(matches!(
        RequestValidator::validate_url_text("http:/a"),
        Err(HttpError::Validation(ValidationFailure::NotHttp))
    ));
    assert!(matches!(
        RequestValidator::validate_url_text("httpss://a"),
        Err(HttpError::Validation(ValidationFailure::NotHttp))
    ));
    assert!(matches!(
        RequestValidator::validate_url_text(""),
        Err(HttpError::Validation(ValidationFailure::EmptyUrl))
    ));
}

#[test]
fn endpoint_for_parts() {
    let ep = HyperHttpClient::endpoint_for(Some("https"), Some("h"), None).unwrap();
    assert_eq!((ep.host.as_str(), ep.port, ep.tls), ("h", 443, true));
    let ep = HyperHttpClient::endpoint_for(None, Some("h"), None).unwrap();
    assert_eq!((ep.port, ep.tls), (80, false));
    let ep = HyperHttpClient::endpoint_for(Some("http"), Some("h"), Some(65535)).unwrap();
    assert_eq!((ep.port, ep.tls), (65535, false));
    assert!(matches!(
        HyperHttpClient::endpoint_for(Some("https"), None, Some(1)),
        Err(HttpError::Transport(_))
    ));
}
