use studio_auth::auth::{
    connect, probe, session, session_step, test_connection, token_request, token_url,
    AuthError, ConnectionParts, Exchange, SessionStep, TokenResult,
};
use studio_auth::endpoint::normalize_endpoint;

fn parts(host: &str, port: &str, email: &str, password: &str) -> ConnectionParts {
    ConnectionParts {
        host: host.to_string(),
        port: port.to_string(),
        email: email.to_string(),
        password: password.to_string(),
    }
}

fn token(t: &str) -> Option<TokenResult> {
    Some(TokenResult { token: t.to_string() })
}

#[test]
fn normalize_bare_host() {
    assert_eq!(normalize_endpoint("example.com", "8000"), "http://example.com:8000");
}

#[test]
fn normalize_host_with_scheme() {
    assert_eq!(normalize_endpoint("http://example.com", "8000"), "http://example.com:8000");
}

#[test]
fn normalize_repeated_scheme() {
    assert_eq!(normalize_endpoint("http://http://example.com", "80"), "http://example.com:80");
}

#[test]
fn normalize_keeps_other_schemes_and_malformed_input() {
    assert_eq!(normalize_endpoint("https://example.com", "x"), "http://https://example.com:x");
    assert_eq!(normalize_endpoint("", ""), "http://:");
    assert_eq!(normalize_endpoint("http:/host", "1"), "http://http:/host:1");
}

#[test]
fn normalize_non_ascii_host() {
    assert_eq!(normalize_endpoint("http://bücher.de", "8080"), "http://bücher.de:8080");
}

#[test]
fn token_url_appends_path() {
    assert_eq!(token_url("localhost", "8000"), "http://localhost:8000/user/token/");
    assert_eq!(token_url("http://10.0.0.1", "443"), "http://10.0.0.1:443/user/token/");
}

#[test]
fn request_carries_credentials_only_in_body() {
    let p = parts("http://srv", "9000", "a@b.c", "pw");
    let r = token_request(&p);
    assert_eq!(r.url, "http://srv:9000/user/token/");
    assert_eq!(r.credentials.email, "a@b.c");
    assert_eq!(r.credentials.password, "pw");
}

#[test]
fn probe_200_is_true() {
    assert!(test_connection(Exchange::Response(200)));
}

#[test]
fn probe_201_is_true() {
    assert!(test_connection(Exchange::Response(201)));
}

#[test]
fn probe_401_is_false() {
    assert!(!test_connection(Exchange::Response(401)));
}

#[test]
fn probe_connection_refused_is_false() {
    assert!(!test_connection(Exchange::TransportFailure));
}

#[test]
fn probe_reports_cause() {
    assert_eq!(probe(Exchange::Response(200)), Ok(200));
    assert_eq!(probe(Exchange::Response(201)), Ok(201));
    assert_eq!(probe(Exchange::Response(202)), Err(AuthError::Status(202)));
    assert_eq!(probe(Exchange::Response(500)), Err(AuthError::Status(500)));
    assert_eq!(probe(Exchange::TransportFailure), Err(AuthError::Transport));
}

#[test]
fn connect_200_returns_token() {
    assert_eq!(connect(Exchange::Response(200), token("abc123")), "abc123");
}

#[test]
fn connect_200_missing_token_is_empty() {
    assert_eq!(connect(Exchange::Response(200), None), "");
}

#[test]
fn connect_403_is_empty() {
    assert_eq!(connect(Exchange::Response(403), token("ignored")), "");
}

#[test]
fn connect_201_is_empty() {
    assert_eq!(connect(Exchange::Response(201), token("abc123")), "");
}

#[test]
fn connect_transport_failure_is_empty() {
    assert_eq!(connect(Exchange::TransportFailure, None), "");
}

#[test]
fn session_reports_cause() {
    assert_eq!(session(Exchange::Response(200), token("t")), Ok("t".to_string()));
    assert_eq!(session(Exchange::Response(200), None), Err(AuthError::Decode));
    assert_eq!(session(Exchange::Response(403), None), Err(AuthError::Status(403)));
    assert_eq!(session(Exchange::TransportFailure, token("t")), Err(AuthError::Transport));
}

#[test]
fn session_step_reads_body_only_on_200() {
    assert!(matches!(session_step(Exchange::Response(200)), SessionStep::ReadBody));
    assert!(matches!(
        session_step(Exchange::Response(201)),
        SessionStep::Finished(Err(AuthError::Status(201)))
    ));
    assert!(matches!(
        session_step(Exchange::TransportFailure),
        SessionStep::Finished(Err(AuthError::Transport))
    ));
}

#[test]
fn repeated_attempts_agree() {
    let p = parts("example.com", "8000", "u@x", "secret");
    let first = token_request(&p);
    let second = token_request(&p);
    assert_eq!(first.url, second.url);
    assert_eq!(first.credentials.email, second.credentials.email);
    assert_eq!(first.credentials.password, second.credentials.password);
    for _ in 0..3 {
        assert!(test_connection(Exchange::Response(200)));
        assert_eq!(connect(Exchange::Response(200), token("abc123")), "abc123");
        assert_eq!(connect(Exchange::Response(401), None), "");
    }
}

#[test]
fn interleaved_attempts_keep_their_own_results() {
    let a = parts("a.example", "1", "alice@x", "pa");
    let b = parts("http://b.example", "2", "bob@x", "pb");
    let ra = token_request(&a);
    let rb = token_request(&b);
    let tb = connect(Exchange::Response(200), token("bob-token"));
    let ta = connect(Exchange::Response(200), token("alice-token"));
    let tc = connect(Exchange::Response(403), None);
    assert_eq!(ra.url, "http://a.example:1/user/token/");
    assert_eq!(rb.url, "http://b.example:2/user/token/");
    assert_eq!(ra.credentials.email, "alice@x");
    assert_eq!(rb.credentials.email, "bob@x");
    assert_eq!(ta, "alice-token");
    assert_eq!(tb, "bob-token");
    assert_eq!(tc, "");
}

#[test]
fn token_or_empty_collapses_failures() {
    assert_eq!(studio_auth::auth::token_or_empty(Ok("tok".to_string())), "tok");
    assert_eq!(studio_auth::auth::token_or_empty(Err(AuthError::Decode)), "");
    assert_eq!(studio_auth::auth::token_or_empty(Err(AuthError::Status(500))), "");
}
