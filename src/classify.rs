//! Turning an unsuccessful HTTP exchange into a domain error.
use crate::error::{opt_str_text, opt_text, Error};
use crate::text::{parse_u64, u64_from_text};
use vstd::prelude::*;

verus! {

/// What serde_json reads as the member `key` of the JSON object in `text`,
/// when that member is a string. Absent when the text is no JSON object or
/// the member is missing or of another type.
pub uninterp spec fn json_string_member(text: Seq<char>, key: Seq<char>) -> Option<Seq<char>>;

/// What serde_json reads as the member `key` of the JSON object in `text`,
/// when that member is an object mapping names to lists of strings, in the
/// order of the names. Empty in every other case.
pub uninterp spec fn json_string_lists_member(text: Seq<char>, key: Seq<char>) -> Seq<
    (Seq<char>, Seq<Seq<char>>),
>;

/// The instant that chrono reads from an RFC 2822 date, in seconds since
/// the Unix epoch; absent when the text is no such date.
pub uninterp spec fn rfc2822_timestamp(text: Seq<char>) -> Option<i64>;

/// Relies on serde_json::from_str, read into a map of JSON values, and
/// serde_json::Value::as_str on the member `key`.
#[verifier::external_body]
fn string_member(text: &str, key: &str) -> (r: Option<String>)
    ensures
        opt_text(r) == json_string_member(text@, key@),
{
    let body: std::collections::HashMap<String, serde_json::Value> = serde_json::from_str(
        text,
    ).unwrap_or_default();
    body.get(key).and_then(|v| v.as_str()).map(|s| s.to_string())
}

/// Relies on serde_json::from_str, read into a map of JSON values, and
/// serde_json::from_value, reading the member `key` into a sorted map from
/// names to lists of strings; the names of a map are distinct.
#[verifier::external_body]
fn string_lists_member(text: &str, key: &str) -> (r: Vec<(String, Vec<String>)>)
    ensures
        field_messages_view(r@) == json_string_lists_member(text@, key@),
        distinct_names(field_messages_view(r@)),
{
    let body: std::collections::HashMap<String, serde_json::Value> = serde_json::from_str(
        text,
    ).unwrap_or_default();
    let lists: std::collections::BTreeMap<String, Vec<String>> = body.get(key).and_then(
        |v| serde_json::from_value(v.clone()).ok(),
    ).unwrap_or_default();
    lists.into_iter().collect()
}

/// Relies on chrono::DateTime::parse_from_rfc2822 and DateTime::timestamp:
/// the instant an RFC 2822 date names, in whole seconds since the epoch.
#[verifier::external_body]
fn http_date_seconds(text: &str) -> (r: Option<i64>)
    ensures
        r == rfc2822_timestamp(text@),
{
    chrono::DateTime::parse_from_rfc2822(text).ok().map(|d| d.timestamp())
}

/// Relies on chrono::Utc::now, DateTime::timestamp and
/// DateTime::timestamp_subsec_nanos: the current time as whole seconds since
/// the epoch and the nanoseconds past them. Nothing is promised of the value.
#[verifier::external_body]
fn now_since_epoch() -> (r: (i64, u32)) {
    let now = chrono::Utc::now();
    (now.timestamp(), now.timestamp_subsec_nanos())
}

/// The field messages of a validation error, as text.
pub open spec fn field_messages_view(s: Seq<(String, Vec<String>)>) -> Seq<
    (Seq<char>, Seq<Seq<char>>),
> {
    s.map_values(|p: (String, Vec<String>)| (p.0@, p.1@.map_values(|m: String| m@)))
}

/// No field name occurs twice among the field messages.
pub open spec fn distinct_names(s: Seq<(Seq<char>, Seq<Seq<char>>)>) -> bool {
    forall|i: int, j: int| 0 <= i < j < s.len() ==> #[trigger] s[i].0 != #[trigger] s[j].0
}

/// The message an error body carries, or a generic one.
pub open spec fn body_message(body: Seq<char>) -> Seq<char> {
    match json_string_member(body, "error"@) {
        Some(m) => m,
        None => "Unknown error"@,
    }
}

/// The whole seconds from the instant `now_secs` + `now_nanos` ns until the
/// later instant `at`, rounded down.
pub open spec fn whole_seconds_until(at: int, now_secs: int, now_nanos: int) -> int {
    if now_nanos > 0 {
        at - now_secs - 1
    } else {
        at - now_secs
    }
}

/// The wait a Retry-After value asks for at the given current time: its
/// value in seconds when it is an unsigned integer; else, when it is an
/// HTTP date strictly later than now, the whole seconds until it (0 for a
/// date less than a second ahead).
pub open spec fn retry_after_value(text: Seq<char>, now_secs: i64, now_nanos: u32) -> Option<u64> {
    match u64_from_text(text) {
        Some(v) => Some(v),
        None => match rfc2822_timestamp(text) {
            Some(at) => {
                let d = whole_seconds_until(at as int, now_secs as int, now_nanos as int);
                if at > now_secs && d <= u64::MAX {
                    Some(d as u64)
                } else {
                    None
                }
            },
            None => None,
        },
    }
}

/// Whether `e` is the error for a response with `status`, carrying the given
/// message, code, field messages and retry wait.
pub open spec fn is_error_for(
    e: Error,
    status: u16,
    message: Seq<char>,
    code: Option<Seq<char>>,
    errors: Seq<(Seq<char>, Seq<Seq<char>>)>,
    retry_after: Option<u64>,
) -> bool {
    match e {
        Error::BadRequest { message: m, code: c } => status == 400 && m@ == message && opt_text(c)
            == code,
        Error::Authentication { message: m, code: c } => status == 401 && m@ == message
            && opt_text(c) == code,
        Error::NotFound { message: m, code: c } => status == 404 && m@ == message && opt_text(c)
            == code,
        Error::Validation { message: m, errors: f, code: c } => status == 422 && m@ == message
            && opt_text(c) == code && field_messages_view(f@) == errors,
        Error::RateLimit { message: m, retry_after: w, code: c } => status == 429 && m@ == message
            && opt_text(c) == code && w == retry_after,
        Error::Server { message: m, status_code: s, code: c } => s == status && status != 400
            && status != 401 && status != 404 && status != 422 && status != 429 && m@ == message
            && opt_text(c) == code,
        _ => false,
    }
}

/// The domain error for an unsuccessful status: 400, 401, 404, 422 and 429
/// each have a kind of their own; every other status is a server error that
/// keeps the status.
pub fn error_for_status(
    status: u16,
    message: String,
    code: Option<String>,
    errors: Vec<(String, Vec<String>)>,
    retry_after: Option<u64>,
) -> (r: Error)
    ensures
        is_error_for(r, status, message@, opt_text(code), field_messages_view(errors@), retry_after),
{
    if status == 400 {
        Error::BadRequest { message, code }
    } else if status == 401 {
        Error::Authentication { message, code }
    } else if status == 404 {
        Error::NotFound { message, code }
    } else if status == 422 {
        Error::Validation { message, errors, code }
    } else if status == 429 {
        Error::RateLimit { message, retry_after, code }
    } else {
        Error::Server { message, status_code: status, code }
    }
}

/// Reads a Retry-After value at a given current time (seconds since the
/// epoch and nanoseconds past them).
pub fn parse_retry_after_at(value: &str, now_secs: i64, now_nanos: u32) -> (r: Option<u64>)
    ensures
        r == retry_after_value(value@, now_secs, now_nanos),
{
    match parse_u64(value) {
        Some(v) => Some(v),
        None => match http_date_seconds(value) {
            Some(at) => {
                let adjust: i128 = if now_nanos > 0 {
                    1
                } else {
                    0
                };
                let d: i128 = at as i128 - now_secs as i128 - adjust;
                if at > now_secs && d <= u64::MAX as i128 {
                    Some(d as u64)
                } else {
                    None
                }
            },
            None => None,
        },
    }
}

/// Reads a Retry-After value against the current time. An integer value is
/// taken as it is; a date gives the seconds from now until it, if later.
pub fn parse_retry_after(value: &str) -> (r: Option<u64>)
    ensures
        exists|now_secs: i64, now_nanos: u32| r == retry_after_value(value@, now_secs, now_nanos),
        u64_from_text(value@) is Some ==> r == u64_from_text(value@),
        r is Some ==> u64_from_text(value@) is Some || rfc2822_timestamp(value@) is Some,
{
    let (now_secs, now_nanos) = now_since_epoch();
    parse_retry_after_at(value, now_secs, now_nanos)
}

/// Whether `e` is the error for an unsuccessful response with `status`, the
/// Retry-After header `retry_after` and the body `body`: the message, code
/// and field messages are read from the body, the wait from the header at
/// some current time.
pub open spec fn is_response_error(
    e: Error,
    status: u16,
    retry_after: Option<Seq<char>>,
    body: Seq<char>,
) -> bool {
    &&& is_error_for(
        e,
        status,
        body_message(body),
        json_string_member(body, "code"@),
        if status == 422 {
            json_string_lists_member(body, "errors"@)
        } else {
            Seq::empty()
        },
        e.retry_after_spec(),
    )
    &&& (e matches Error::Validation { errors, .. } ==> distinct_names(
        field_messages_view(errors@),
    ))
    &&& status == 429 ==> match retry_after {
        None => e.retry_after_spec() is None,
        Some(v) => exists|now_secs: i64, now_nanos: u32|
            e.retry_after_spec() == retry_after_value(v, now_secs, now_nanos),
    }
}

/// The domain error for an unsuccessful response, from its status, its
/// Retry-After header and its body. A body that is not the expected JSON
/// gives a generic message, no code and no field messages.
pub fn error_from_response(status: u16, retry_after: Option<&str>, body: &str) -> (r: Error)
    ensures
        is_response_error(r, status, opt_str_text(retry_after), body@),
{
    proof {
        reveal_strlit("Unknown error");
    }
    let message = match string_member(body, "error") {
        Some(m) => m,
        None => String::from_str("Unknown error"),
    };
    let code = string_member(body, "code");
    let errors = if status == 422 {
        string_lists_member(body, "errors")
    } else {
        Vec::new()
    };
    let wait = if status == 429 {
        match retry_after {
            Some(v) => parse_retry_after(v),
            None => None,
        }
    } else {
        None
    };
    assert(field_messages_view(errors@) =~= if status == 422 {
        json_string_lists_member(body@, "errors"@)
    } else {
        Seq::empty()
    });
    error_for_status(status, message, code, errors, wait)
}

} // verus!
