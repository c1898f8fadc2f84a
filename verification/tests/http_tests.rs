use golem_tts::error::{DomainError, TransportFailure};
use golem_tts::http::{
    execute_with_retry, Method, RateLimitConfig, Response, WstdHttpClient,
};

fn response(status: u16, body: &[u8]) -> Response {
    Response {
        status,
        headers: vec![],
        body: body.to_vec(),
    }
}

#[test]
fn builders_carry_method_url_headers_and_body() {
    let http = WstdHttpClient::new();
    let builder = http
        .post("https://example.test/v1/speak")
        .header("Authorization", "Token k")
        .body(vec![1, 2, 3]);
    assert_eq!(builder.method, Method::Post);
    assert_eq!(builder.url, "https://example.test/v1/speak");
    assert_eq!(builder.headers.len(), 1);
    assert_eq!(builder.headers[0].0, "Authorization");
    assert_eq!(builder.body, Some(vec![1, 2, 3]));

    assert_eq!(http.get("u").method, Method::Get);
    assert_eq!(http.put("u").method, Method::Put);
    assert_eq!(http.delete("u").method, Method::Delete);
}

#[test]
fn json_bytes_sets_the_content_type() {
    let http = WstdHttpClient::new();
    let builder = http.post("u").json_bytes(b"{}".to_vec());
    assert_eq!(builder.headers.len(), 1);
    assert_eq!(builder.headers[0].0, "content-type");
    assert_eq!(builder.headers[0].1, "application/json");
    assert_eq!(builder.body, Some(b"{}".to_vec()));
}

#[test]
fn error_for_status_passes_success_and_frames_failures() {
    let ok = response(200, b"audio").error_for_status().unwrap();
    assert_eq!(ok.status, 200);
    assert_eq!(ok.bytes(), b"audio".to_vec());

    match response(404, b"missing").error_for_status() {
        Err(TransportFailure::Io(m)) => assert_eq!(m, "HTTP 404: missing"),
        other => panic!("unexpected: {:?}", other),
    }
}

#[test]
fn header_lookup_returns_the_first_match() {
    let r = Response {
        status: 200,
        headers: vec![
            ("content-type".to_string(), "audio/wav".to_string()),
            ("dg-char-count".to_string(), "42".to_string()),
        ],
        body: vec![],
    };
    assert_eq!(r.header_value("content-type"), Some("audio/wav".to_string()));
    assert_eq!(r.header_value("dg-char-count"), Some("42".to_string()));
    assert_eq!(r.header_value("missing"), None);
}

#[test]
fn http_retry_returns_a_success_immediately() {
    let cfg = RateLimitConfig::default();
    let outcomes = vec![
        Ok(response(200, b"done")),
        Ok(response(200, b"later")),
        Ok(response(200, b"later")),
        Ok(response(200, b"later")),
    ];
    let run = execute_with_retry(&cfg, outcomes);
    assert_eq!(run.attempts, 1);
    assert_eq!(run.result.unwrap().body, b"done".to_vec());
    assert_eq!(run.total_sleep_ms, 0);
}

#[test]
fn http_retry_retries_rate_limits_then_succeeds() {
    let cfg = RateLimitConfig::default();
    let outcomes = vec![
        Ok(response(429, b"")),
        Ok(response(503, b"")),
        Ok(response(200, b"done")),
        Ok(response(200, b"later")),
    ];
    let run = execute_with_retry(&cfg, outcomes);
    assert_eq!(run.attempts, 3);
    assert_eq!(run.result.unwrap().status, 200);
    assert_eq!(run.total_sleep_ms, 1000 + 2000);
}

#[test]
fn http_retry_gives_up_after_the_budget() {
    let cfg = RateLimitConfig::new(2);
    let outcomes = vec![
        Ok(response(429, b"")),
        Ok(response(429, b"")),
        Ok(response(429, b"")),
    ];
    let run = execute_with_retry(&cfg, outcomes);
    assert_eq!(run.attempts, 3);
    assert_eq!(run.result, Err(DomainError::RateLimited(60)));
}

#[test]
fn http_retry_maps_a_permanent_status_without_retrying() {
    let cfg = RateLimitConfig::default();
    let outcomes = vec![
        Ok(response(401, b"")),
        Ok(response(200, b"never")),
        Ok(response(200, b"never")),
        Ok(response(200, b"never")),
    ];
    let run = execute_with_retry(&cfg, outcomes);
    assert_eq!(run.attempts, 1);
    match run.result {
        Err(DomainError::Unauthorized(_)) => {}
        other => panic!("unexpected: {:?}", other),
    }
}

#[test]
fn http_retry_retries_transport_failures() {
    let cfg = RateLimitConfig::default();
    let outcomes = vec![
        Err(DomainError::NetworkError("reset".to_string())),
        Ok(response(200, b"done")),
        Ok(response(200, b"later")),
        Ok(response(200, b"later")),
    ];
    let run = execute_with_retry(&cfg, outcomes);
    assert_eq!(run.attempts, 2);
    assert!(run.result.is_ok());
}
