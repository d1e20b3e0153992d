use mailbreeze::{
    backoff_delay_ms, encode_query, error_from_response, interpret_empty_response,
    interpret_response, next_step, prepare_request, ClientConfig, Error, Method, QueryValue,
    RequestDescriptor, Step, TransportError,
};

/// Runs the engine's decisions against a server that answers every attempt
/// the same way, and counts the attempts.
fn run_against(max_attempts: u32, status: u16, retry_after: Option<&str>, body: &str) -> (u32, Result<String, Error>, Vec<u64>) {
    let mut attempt: u32 = 1;
    let mut attempts = 0;
    let mut waits = Vec::new();
    loop {
        attempts += 1;
        let outcome = interpret_response(status, retry_after, body);
        match next_step(attempt, max_attempts, outcome) {
            Step::Finish(r) => return (attempts, r, waits),
            Step::Retry { delay_ms, next_attempt } => {
                waits.push(delay_ms);
                attempt = next_attempt;
            }
        }
    }
}

#[test]
fn server_error_uses_every_attempt() {
    for n in 1..=6u32 {
        let (attempts, r, _) = run_against(n, 500, None, "{\"error\":\"Server error\"}");
        assert_eq!(attempts, n);
        assert!(matches!(r, Err(Error::Server { status_code: 500, .. })));
    }
    let (_, _, waits) = run_against(4, 503, None, "");
    assert_eq!(waits, vec![100, 200, 400]);
}

#[test]
fn rate_limit_is_not_retried() {
    let (attempts, r, _) = run_against(1, 429, Some("30"), "{\"error\":\"Rate limit exceeded\"}");
    assert_eq!(attempts, 1);
    match r {
        Err(Error::RateLimit { retry_after, .. }) => assert_eq!(retry_after, Some(30)),
        _ => panic!("Expected rate limit error"),
    }
    let (attempts, _, _) = run_against(5, 429, Some("30"), "{}");
    assert_eq!(attempts, 1);
}

#[test]
fn client_errors_are_not_retried() {
    for status in [400u16, 401, 404, 422] {
        let (attempts, r, _) = run_against(3, status, None, "{\"error\":\"no\"}");
        assert_eq!(attempts, 1);
        assert_eq!(r.unwrap_err().status_code(), Some(status));
    }
}

#[test]
fn transport_failures_retry_only_when_connect_or_timeout() {
    let connect = Error::Http(TransportError { message: "refused".to_string(), is_connect: true, is_timeout: false });
    match next_step::<()>(1, 3, Err(connect)) {
        Step::Retry { delay_ms, next_attempt } => {
            assert_eq!(delay_ms, 100);
            assert_eq!(next_attempt, 2);
        }
        _ => panic!("expected a retry"),
    }
    let connect = Error::Http(TransportError { message: "refused".to_string(), is_connect: true, is_timeout: false });
    assert!(matches!(next_step::<()>(3, 3, Err(connect)), Step::Finish(Err(Error::Http(_)))));
    let other = Error::Http(TransportError { message: "tls".to_string(), is_connect: false, is_timeout: false });
    assert!(matches!(next_step::<()>(1, 3, Err(other)), Step::Finish(Err(Error::Http(_)))));
    assert!(matches!(next_step(1, 3, Ok(7)), Step::Finish(Ok(7))));
}

#[test]
fn backoff_doubles_from_one_hundred_ms() {
    assert_eq!(backoff_delay_ms(2), 100);
    assert_eq!(backoff_delay_ms(3), 200);
    assert_eq!(backoff_delay_ms(4), 400);
    assert_eq!(backoff_delay_ms(12), 102400);
    assert_eq!(backoff_delay_ms(59), 100u64 << 57);
    assert_eq!(backoff_delay_ms(60), u64::MAX);
    assert_eq!(backoff_delay_ms(u32::MAX), u64::MAX);
}

#[test]
fn successful_json_body_is_handed_on() {
    let body = "{\"id\":\"123\",\"name\":\"Test\"}";
    let text = interpret_response(200, None, body).unwrap();
    let value: serde_json::Value = serde_json::from_str(&text).unwrap();
    assert_eq!(value["id"], "123");
    assert_eq!(value["name"], "Test");
    let text = interpret_response(201, None, "{\"id\":\"456\"}").unwrap();
    assert_eq!(text, "{\"id\":\"456\"}");
}

#[test]
fn empty_success_body_is_a_decode_failure() {
    let r = interpret_response(200, None, "");
    assert_eq!(r, Err(Error::Json("Empty response body".to_string())));
}

#[test]
fn no_content_call_succeeds_without_body() {
    assert_eq!(interpret_empty_response(204, None, ""), Ok(()));
    assert_eq!(interpret_empty_response(200, None, "not json"), Ok(()));
    let r = interpret_empty_response(404, None, "{\"error\":\"Not found\"}");
    assert_eq!(r, Err(Error::NotFound { message: "Not found".to_string(), code: None }));
}

#[test]
fn unsuccessful_response_is_classified() {
    let r = interpret_response(401, None, "{\"error\":\"Invalid API key\"}");
    assert_eq!(r, Err(error_from_response(401, None, "{\"error\":\"Invalid API key\"}")));
    assert!(matches!(r, Err(Error::Authentication { .. })));
}

#[test]
fn query_encoding_keeps_strings_writes_numbers_drops_nulls() {
    let params = vec![
        ("status".to_string(), QueryValue::Str("sent".to_string())),
        ("page".to_string(), QueryValue::Int(2)),
        ("cursor".to_string(), QueryValue::Null),
        ("archived".to_string(), QueryValue::Bool(false)),
        ("offset".to_string(), QueryValue::Int(-15)),
    ];
    let q = encode_query(&params);
    assert_eq!(
        q,
        vec![
            ("status".to_string(), "sent".to_string()),
            ("page".to_string(), "2".to_string()),
            ("archived".to_string(), "false".to_string()),
            ("offset".to_string(), "-15".to_string()),
        ]
    );
    assert!(encode_query(&vec![]).is_empty());
}

#[test]
fn prepared_request_carries_headers_url_body_and_query() {
    let config = ClientConfig::new("test_key").base_url("http://127.0.0.1:9999");
    let req = RequestDescriptor {
        method: Method::Post,
        path: "/test".to_string(),
        body: Some("{\"name\":\"Test\"}".to_string()),
        query: vec![("limit".to_string(), QueryValue::Int(10)), ("x".to_string(), QueryValue::Null)],
    };
    let p = prepare_request(&config, &req);
    assert_eq!(p.method, Method::Post);
    assert_eq!(p.method.as_str(), "POST");
    assert_eq!(p.url, "http://127.0.0.1:9999/test");
    assert_eq!(
        p.headers,
        vec![
            ("Authorization".to_string(), "Bearer test_key".to_string()),
            ("Content-Type".to_string(), "application/json".to_string()),
            ("Accept".to_string(), "application/json".to_string()),
            ("User-Agent".to_string(), "mailbreeze-rust/0.1.0".to_string()),
        ]
    );
    assert_eq!(p.body, Some("{\"name\":\"Test\"}".to_string()));
    assert_eq!(p.query, vec![("limit".to_string(), "10".to_string())]);
}
