use mailbreeze::text::{i64_text, parse_u64, u64_text};
use mailbreeze::{error_for_status, error_from_response, parse_retry_after, parse_retry_after_at};
use mailbreeze::{Error, TransportError};

fn code(s: &str) -> Option<String> {
    Some(s.to_string())
}

#[test]
fn each_listed_status_has_its_kind() {
    let e = error_for_status(400, "bad".to_string(), code("E1"), vec![], None);
    assert_eq!(e, Error::BadRequest { message: "bad".to_string(), code: code("E1") });
    let e = error_for_status(401, "auth".to_string(), None, vec![], None);
    assert_eq!(e, Error::Authentication { message: "auth".to_string(), code: None });
    let e = error_for_status(404, "gone".to_string(), code("NF"), vec![], None);
    assert_eq!(e, Error::NotFound { message: "gone".to_string(), code: code("NF") });
    let fields = vec![("email".to_string(), vec!["Required".to_string()])];
    let e = error_for_status(422, "invalid".to_string(), None, fields.clone(), None);
    assert_eq!(e, Error::Validation { message: "invalid".to_string(), errors: fields, code: None });
    let e = error_for_status(429, "slow".to_string(), None, vec![], Some(30));
    assert_eq!(e, Error::RateLimit { message: "slow".to_string(), retry_after: Some(30), code: None });
    for status in 500u16..=504 {
        let e = error_for_status(status, "down".to_string(), code("S"), vec![], None);
        assert_eq!(e, Error::Server { message: "down".to_string(), status_code: status, code: code("S") });
    }
}

#[test]
fn other_unsuccessful_statuses_are_server_errors() {
    let e = error_for_status(418, "teapot".to_string(), None, vec![], None);
    assert_eq!(e.status_code(), Some(418));
    assert!(matches!(e, Error::Server { status_code: 418, .. }));
}

#[test]
fn response_body_supplies_message_and_code() {
    let e = error_from_response(401, None, "{\"error\":\"Invalid API key\",\"code\":\"AUTH_01\"}");
    assert_eq!(e, Error::Authentication { message: "Invalid API key".to_string(), code: code("AUTH_01") });
    assert_eq!(e.code(), Some("AUTH_01"));
}

#[test]
fn unreadable_body_gives_generic_message() {
    let e = error_from_response(404, None, "<html>not json</html>");
    assert_eq!(e, Error::NotFound { message: "Unknown error".to_string(), code: None });
    let e = error_from_response(500, None, "");
    assert_eq!(e, Error::Server { message: "Unknown error".to_string(), status_code: 500, code: None });
}

#[test]
fn validation_body_supplies_field_messages() {
    let body = "{\"error\":\"Validation failed\",\"errors\":{\"email\":[\"Required\"],\"age\":[\"Too low\",\"Not a number\"]}}";
    let e = error_from_response(422, None, body);
    let errors = e.validation_errors().unwrap();
    assert_eq!(errors.len(), 2);
    assert!(errors.iter().any(|(k, v)| k == "email" && v == &vec!["Required".to_string()]));
    assert!(errors.iter().any(|(k, v)| k == "age" && v.len() == 2));
    assert_eq!(e.status_code(), Some(422));
}

#[test]
fn validation_without_errors_member_is_empty() {
    let e = error_from_response(422, None, "{\"error\":\"Validation failed\"}");
    assert_eq!(e.validation_errors().map(|v| v.len()), Some(0));
}

#[test]
fn rate_limit_reads_integer_retry_after() {
    let e = error_from_response(429, Some("30"), "{\"error\":\"Rate limit exceeded\"}");
    assert_eq!(e.retry_after(), Some(30));
    assert_eq!(e.status_code(), Some(429));
    let e = error_from_response(429, None, "{}");
    assert_eq!(e.retry_after(), None);
}

#[test]
fn retry_after_integer_and_date_forms() {
    assert_eq!(parse_retry_after_at("30", 0, 0), Some(30));
    assert_eq!(parse_retry_after_at("+7", 0, 0), Some(7));
    let date = "Wed, 21 Oct 2015 07:28:00 GMT";
    assert_eq!(parse_retry_after_at(date, 1445412400, 0), Some(80));
    assert_eq!(parse_retry_after_at(date, 1445412400, 500), Some(79));
    assert_eq!(parse_retry_after_at(date, 1445412479, 1), Some(0));
    assert_eq!(parse_retry_after_at(date, 1445412479, 0), Some(1));
    assert_eq!(parse_retry_after_at(date, 1445412480, 0), None);
    assert_eq!(parse_retry_after_at(date, 1445412500, 0), None);
    assert_eq!(parse_retry_after_at("soon", 0, 0), None);
    assert_eq!(parse_retry_after("120"), Some(120));
    assert_eq!(parse_retry_after(date), None);
    assert_eq!(parse_retry_after("garbage"), None);
}

#[test]
fn accessors_on_kinds_without_status() {
    let t = Error::Http(TransportError { message: "refused".to_string(), is_connect: true, is_timeout: false });
    assert_eq!(t.status_code(), None);
    assert_eq!(t.code(), None);
    assert_eq!(t.retry_after(), None);
    assert!(t.validation_errors().is_none());
    assert_eq!(Error::Json("bad".to_string()).status_code(), None);
    assert_eq!(Error::Timeout.code(), None);
    assert_eq!(Error::InvalidHeader("x".to_string()).retry_after(), None);
}

#[test]
fn retryable_kinds() {
    for status in [500u16, 502, 503, 504] {
        assert!(error_for_status(status, String::new(), None, vec![], None).is_retryable());
    }
    for status in [400u16, 401, 404, 422, 429, 501, 505, 418] {
        assert!(!error_for_status(status, String::new(), None, vec![], None).is_retryable());
    }
    let connect = TransportError { message: String::new(), is_connect: true, is_timeout: false };
    let timeout = TransportError { message: String::new(), is_connect: false, is_timeout: true };
    let other = TransportError { message: String::new(), is_connect: false, is_timeout: false };
    assert!(Error::Http(connect).is_retryable());
    assert!(Error::Http(timeout).is_retryable());
    assert!(!Error::Http(other).is_retryable());
    assert!(Error::Timeout.is_retryable());
    assert!(!Error::Json("x".to_string()).is_retryable());
    assert!(!Error::InvalidHeader("x".to_string()).is_retryable());
}

#[test]
fn decimal_numerals() {
    assert_eq!(parse_u64("0"), Some(0));
    assert_eq!(parse_u64("18446744073709551615"), Some(u64::MAX));
    assert_eq!(parse_u64("18446744073709551616"), None);
    assert_eq!(parse_u64(""), None);
    assert_eq!(parse_u64("+"), None);
    assert_eq!(parse_u64("-1"), None);
    assert_eq!(parse_u64("12a"), None);
    assert_eq!(u64_text(0), "0");
    assert_eq!(u64_text(1234567890), "1234567890");
    assert_eq!(i64_text(-42), "-42");
    assert_eq!(i64_text(i64::MIN), "-9223372036854775808");
}
