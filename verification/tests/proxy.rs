use emerald_herald::applications::{Application, Applications};
use emerald_herald::date::{now_timestamp, truncate_subseconds};
use emerald_herald::gateway::guard::{strip_bearer, GuardOutcome, Guardian};
use emerald_herald::gateway::request::{Method, ProxyRequest};
use emerald_herald::gateway::response::ProxyResponse;
use emerald_herald::gateway::{backend_request, relay, route_to, to_url, BackendOutcome, RouteStep};
use emerald_herald::management::{create_state, State};
use emerald_herald::routing::{log_record, route_pattern};
use emerald_herald::text::usize_to_decimal;

fn sample_app() -> Application {
    Application::new(
        "ebisu".to_string(),
        "http://backend:3001".to_string(),
        vec!["/status".to_string()],
    )
}

fn sample_guardian() -> Guardian {
    Guardian::new("http://guardian:9000/auth".to_string())
}

fn request(path: &str, method: Method, headers: Vec<(String, String)>) -> ProxyRequest {
    ProxyRequest {
        path: path.to_string(),
        method,
        headers,
        body: Vec::new(),
        query: Vec::new(),
        application: sample_app(),
    }
}

fn denial_body_around(ts: &str) -> String {
    format!(
        "{{\"message\":\"Acesso não autorizado!\",\"code\":5,\"timestamp\":\"{}\"}}",
        ts
    )
}

fn assert_is_denial(resp: &ProxyResponse) {
    assert_eq!(resp.status, 401);
    let body = String::from_utf8(resp.body.clone()).unwrap();
    assert!(body.starts_with("{\"message\":\"Acesso não autorizado!\",\"code\":5,\"timestamp\":\""));
    assert!(body.ends_with("\"}"));
    assert_eq!(
        resp.headers,
        vec![
            ("content-type".to_string(), "application/json".to_string()),
            ("content-length".to_string(), resp.body.len().to_string()),
        ]
    );
}

#[test]
fn unauthenticated_route_skips_guard() {
    let req = request("/status", Method::Get, Vec::new());
    match route_to(&req, &sample_guardian()) {
        RouteStep::Forward { url } => assert_eq!(url, "http://backend:3001/status"),
        _ => panic!("an exempt path must go straight to the backend"),
    }
}

#[test]
fn options_bypasses_guard() {
    let req = request("/data", Method::Options, Vec::new());
    match route_to(&req, &sample_guardian()) {
        RouteStep::Forward { url } => assert_eq!(url, "http://backend:3001/data"),
        _ => panic!("OPTIONS must bypass the guard on any path"),
    }
}

#[test]
fn protected_path_without_token_is_denied() {
    let req = request("/data", Method::Get, Vec::new());
    match route_to(&req, &sample_guardian()) {
        RouteStep::Deny(resp) => assert_is_denial(&resp),
        _ => panic!("a protected path without a token must be denied outright"),
    }
}

#[test]
fn protected_path_with_token_asks_guardian() {
    let headers = vec![("authorization".to_string(), "Bearer T".to_string())];
    let req = request("/data", Method::Post, headers);
    match route_to(&req, &sample_guardian()) {
        RouteStep::AskGuardian { guardian_url, credential, url } => {
            assert_eq!(guardian_url, "http://guardian:9000/auth");
            assert_eq!(credential, "T");
            assert_eq!(url, "http://backend:3001/data");
        }
        _ => panic!("a protected path with a token must consult the guardian"),
    }
}

#[test]
fn guardian_success_allows() {
    assert!(Guardian::guard_decision(&GuardOutcome::Status(200)).is_none());
    assert!(Guardian::guard_decision(&GuardOutcome::Status(204)).is_none());
    assert!(Guardian::guard_decision(&GuardOutcome::Status(299)).is_none());
}

#[test]
fn guardian_rejection_denies() {
    let resp = Guardian::guard_decision(&GuardOutcome::Status(403)).unwrap();
    assert_is_denial(&resp);
    let resp = Guardian::guard_decision(&GuardOutcome::Status(302)).unwrap();
    assert_is_denial(&resp);
    let resp = Guardian::guard_decision(&GuardOutcome::Status(199)).unwrap();
    assert_is_denial(&resp);
}

#[test]
fn unreachable_guardian_denies() {
    let resp = Guardian::guard_decision(&GuardOutcome::Unreachable).unwrap();
    assert_is_denial(&resp);
}

#[test]
fn content_length_is_recomputed() {
    let headers = vec![
        ("content-type".to_string(), "text/html".to_string()),
        ("content-length".to_string(), "999".to_string()),
        ("x-custom".to_string(), "1".to_string()),
    ];
    let resp = relay(BackendOutcome::Reply {
        status: 200,
        headers,
        body: b"hello".to_vec(),
    });
    assert_eq!(resp.status, 200);
    assert_eq!(resp.body, b"hello".to_vec());
    assert_eq!(
        resp.headers,
        vec![
            ("content-type".to_string(), "text/html".to_string()),
            ("x-custom".to_string(), "1".to_string()),
            ("content-length".to_string(), "5".to_string()),
        ]
    );
}

#[test]
fn unreachable_backend_yields_bad_gateway() {
    let resp = relay(BackendOutcome::Unreachable);
    assert_eq!(resp.status, 502);
    assert_eq!(resp.body, b"Bad Gateway".to_vec());
    assert_eq!(
        resp.headers,
        vec![
            ("content-type".to_string(), "text/plain".to_string()),
            ("content-length".to_string(), "11".to_string()),
        ]
    );
}

#[test]
fn backend_reply_is_relayed_byte_exact() {
    let body: Vec<u8> = vec![0, 159, 146, 150, 13, 10];
    let resp = relay(BackendOutcome::Reply {
        status: 418,
        headers: vec![("set-cookie".to_string(), "a=b".to_string())],
        body: body.clone(),
    });
    assert_eq!(resp.status, 418);
    assert_eq!(resp.body, body);
    assert_eq!(
        resp.headers,
        vec![
            ("set-cookie".to_string(), "a=b".to_string()),
            ("content-length".to_string(), "6".to_string()),
        ]
    );
}

#[test]
fn strip_bearer_cases() {
    assert_eq!(strip_bearer("Bearer abc"), "abc");
    assert_eq!(strip_bearer("abc"), "abc");
    assert_eq!(strip_bearer("Bearerabc"), "Bearerabc");
    assert_eq!(strip_bearer("Bearer "), "");
    assert_eq!(strip_bearer("Bearer Bearer x"), "Bearer x");
    assert_eq!(strip_bearer(""), "");
}

#[test]
fn unauthorized_response_at_exact_body() {
    let resp = Guardian::unauthorized_response_at("2024-01-02 03:04:05");
    assert_eq!(resp.status, 401);
    assert_eq!(
        String::from_utf8(resp.body.clone()).unwrap(),
        denial_body_around("2024-01-02 03:04:05")
    );
    assert_eq!(
        resp.headers,
        vec![
            ("content-type".to_string(), "application/json".to_string()),
            ("content-length".to_string(), resp.body.len().to_string()),
        ]
    );
}

#[test]
fn unauthorized_response_timestamp_has_no_fraction() {
    let resp = Guardian::unauthorized_response();
    let body = String::from_utf8(resp.body.clone()).unwrap();
    assert!(!body.contains('.'));
    assert_is_denial(&resp);
}

#[test]
fn truncate_subseconds_cases() {
    assert_eq!(
        truncate_subseconds("2024-01-02 03:04:05.678 -03:00"),
        "2024-01-02 03:04:05"
    );
    assert_eq!(truncate_subseconds("2024-01-02 03:04:05"), "2024-01-02 03:04:05");
    assert_eq!(truncate_subseconds(""), "");
    assert_eq!(truncate_subseconds(".x"), "");
}

#[test]
fn now_timestamp_is_dotless() {
    let ts = now_timestamp();
    assert!(!ts.contains('.'));
    assert!(!ts.is_empty());
}

#[test]
fn decimal_rendering() {
    assert_eq!(usize_to_decimal(0), "0");
    assert_eq!(usize_to_decimal(5), "5");
    assert_eq!(usize_to_decimal(10), "10");
    assert_eq!(usize_to_decimal(105), "105");
    assert_eq!(usize_to_decimal(98765), "98765");
}

#[test]
fn domain_is_lowercased() {
    let app = Application::new("EBISU".to_string(), "http://b".to_string(), Vec::new());
    assert_eq!(app.domain(), "ebisu");
    assert_eq!(app.endpoint(), "http://b");
}

#[test]
fn unauthenticated_route_match_is_exact() {
    let app = sample_app();
    assert!(app.is_unauthenticaded(&"/status".to_string()));
    assert!(!app.is_unauthenticaded(&"/status/sub".to_string()));
    assert!(!app.is_unauthenticaded(&"/stat".to_string()));
    assert!(!app.is_unauthenticaded(&"/data".to_string()));
}

#[test]
fn should_guard_cases() {
    assert!(!request("/status", Method::Get, Vec::new()).should_guard());
    assert!(request("/data", Method::Get, Vec::new()).should_guard());
    assert!(!request("/data", Method::Options, Vec::new()).should_guard());
    assert!(request("/data", Method::Delete, Vec::new()).should_guard());
}

#[test]
fn route_pattern_uses_domain() {
    assert_eq!(route_pattern(&sample_app()), "/ebisu/*path");
    let upper = Application::new("Ebisu".to_string(), "http://b".to_string(), Vec::new());
    assert_eq!(route_pattern(&upper), "/ebisu/*path");
}

#[test]
fn log_record_has_four_fields() {
    let req = request("/status", Method::Get, Vec::new());
    let rec = log_record(&req);
    assert_eq!(rec.application, "ebisu");
    assert_eq!(rec.path, "/status");
    assert_eq!(rec.url, "http://backend:3001/status");
    assert_eq!(rec.method, "GET");
}

#[test]
fn to_url_concatenates() {
    assert_eq!(to_url("http://backend:3001", "/status"), "http://backend:3001/status");
    assert_eq!(to_url("", "/x"), "/x");
}

#[test]
fn method_names() {
    assert_eq!(Method::Get.as_str(), "GET");
    assert_eq!(Method::Post.as_str(), "POST");
    assert_eq!(Method::Put.as_str(), "PUT");
    assert_eq!(Method::Delete.as_str(), "DELETE");
    assert_eq!(Method::Head.as_str(), "HEAD");
    assert_eq!(Method::Trace.as_str(), "TRACE");
    assert_eq!(Method::Options.as_str(), "OPTIONS");
    assert_eq!(Method::Patch.as_str(), "PATCH");
}

#[test]
fn state_getters() {
    let state: State = create_state(
        Applications(vec![sample_app()]),
        "http://guardian:9000/auth".to_string(),
    );
    assert_eq!(state.apps().iter().len(), 1);
    assert_eq!(state.apps().iter()[0].endpoint(), "http://backend:3001");
    assert_eq!(state.guardian().url, "http://guardian:9000/auth");
}

#[test]
fn domain_resolution_in_registration_order() {
    let first = Application::new("Ebisu".to_string(), "http://one".to_string(), Vec::new());
    let second = Application::new("ebisu".to_string(), "http://two".to_string(), Vec::new());
    let other = Application::new("daikoku".to_string(), "http://three".to_string(), Vec::new());
    let registry = Applications(vec![first, second, other]);
    assert_eq!(
        registry.find_by_domain("ebisu").map(|a| a.endpoint()),
        Some("http://one")
    );
    assert_eq!(
        registry.find_by_domain("daikoku").map(|a| a.endpoint()),
        Some("http://three")
    );
    assert!(registry.find_by_domain("hotei").is_none());
    assert!(registry.find_by_domain("Ebisu").is_none());
    assert!(Applications(Vec::new()).find_by_domain("ebisu").is_none());
}

#[test]
fn header_lookup_first_match_wins() {
    let headers = vec![
        ("x-a".to_string(), "1".to_string()),
        ("authorization".to_string(), "Bearer one".to_string()),
        ("authorization".to_string(), "Bearer two".to_string()),
    ];
    assert_eq!(
        emerald_herald::headers::header_value(&headers, "authorization"),
        Some("Bearer one".to_string())
    );
    assert_eq!(emerald_herald::headers::header_value(&headers, "x-b"), None);
}

#[test]
fn backend_request_is_verbatim() {
    let headers = vec![
        ("authorization".to_string(), "Bearer T".to_string()),
        ("cookie".to_string(), "sid=1".to_string()),
    ];
    let mut req = request("/data", Method::Post, headers.clone());
    req.body = b"payload".to_vec();
    req.query = vec![("k".to_string(), "v".to_string())];
    let out = backend_request(req, "http://backend:3001/data".to_string());
    assert_eq!(out.url, "http://backend:3001/data");
    assert_eq!(out.method, Method::Post);
    assert_eq!(out.headers, headers);
    assert_eq!(out.body, b"payload".to_vec());
    assert_eq!(out.query, vec![("k".to_string(), "v".to_string())]);
}

#[test]
fn scenario_exempt_path_end_to_end() {
    let req = request("/status", Method::Get, Vec::new());
    let step = route_to(&req, &sample_guardian());
    let url = match step {
        RouteStep::Forward { url } => url,
        _ => panic!("exempt path must be forwarded"),
    };
    assert_eq!(url, "http://backend:3001/status");
    let resp = relay(BackendOutcome::Reply {
        status: 201,
        headers: vec![("content-length".to_string(), "40".to_string())],
        body: b"ok".to_vec(),
    });
    assert_eq!(resp.status, 201);
    assert_eq!(resp.body, b"ok".to_vec());
    assert_eq!(
        resp.headers,
        vec![("content-length".to_string(), "2".to_string())]
    );
}
