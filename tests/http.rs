use luxctl::http::{HttpRequest, HttpResponse};
use luxctl::protocol::{
    tally, ConcurrentRequestsValidator, HttpGetCompressedValidator, HttpGetFileValidator,
    HttpGetValidator, HttpHeaderPresentValidator, HttpHeaderValueValidator,
    HttpJsonExistsValidator, HttpJsonFieldValidator, HttpPostJsonValidator, HttpStatusValidator,
    RateLimitValidator,
};

#[test]
fn test_parse_http_response() {
    let raw = "HTTP/1.1 200 OK\r\nContent-Type: text/plain\r\nContent-Length: 5\r\n\r\nhello";
    let response = HttpResponse::parse(raw).unwrap();

    assert_eq!(response.status_code, 200);
    assert_eq!(response.status_text, "OK");
    assert_eq!(response.get_header("content-type"), Some("text/plain"));
    assert_eq!(response.get_header("Content-Type"), Some("text/plain"));
    assert_eq!(response.body, "hello");
}

#[test]
fn test_parse_http_response_no_body() {
    let raw = "HTTP/1.1 404 Not Found\r\nContent-Length: 0\r\n\r\n";
    let response = HttpResponse::parse(raw).unwrap();

    assert_eq!(response.status_code, 404);
    assert_eq!(response.status_text, "Not Found");
    assert!(response.body.is_empty());
}

#[test]
fn test_has_header() {
    let raw = "HTTP/1.1 200 OK\r\nX-Custom: value\r\n\r\n";
    let response = HttpResponse::parse(raw).unwrap();

    assert!(response.has_header("X-Custom"));
    assert!(response.has_header("x-custom"));
    assert!(!response.has_header("X-Missing"));
}

// ---- parser edge cases

#[test]
fn parse_errors() {
    assert_eq!(HttpResponse::parse("").unwrap_err(), "empty response");
    assert_eq!(HttpResponse::parse("garbage\r\n").unwrap_err(), "invalid status line: garbage");
    assert_eq!(HttpResponse::parse("HTTP/1.1 abc OK\r\n\r\n").unwrap_err(), "invalid status code: abc");
    assert_eq!(HttpResponse::parse("HTTP/1.1 70000 X\r\n\r\n").unwrap_err(), "invalid status code: 70000");
}

#[test]
fn body_is_kept_verbatim() {
    let r = HttpResponse::parse("HTTP/1.0 200 OK\nA: b\n\nline1\r\nline2\r\n").unwrap();
    assert_eq!(r.body, "line1\r\nline2\r\n");
    assert_eq!(r.headers, vec![("a".to_string(), "b".to_string())]);
}

#[test]
fn headers_trimmed_and_lower_cased_without_colon_skipped() {
    let r = HttpResponse::parse("HTTP/1.1 204 No Content Here\r\n  X-A :  1 \r\nnocolon\r\nX-A: 2\r\n\r\n").unwrap();
    assert_eq!(r.status_text, "No Content Here");
    assert_eq!(r.headers.len(), 2);
    assert_eq!(r.get_header("x-a"), Some("1"));
}

#[test]
fn status_line_without_text() {
    let r = HttpResponse::parse("HTTP/1.1 200").unwrap();
    assert_eq!(r.status_code, 200);
    assert_eq!(r.status_text, "");
    assert!(r.headers.is_empty());
    assert!(r.body.is_empty());
}

#[test]
fn request_wire_format() {
    let mut req = HttpRequest::plain("POST", "/x");
    req.headers.push(("A".to_string(), "b".to_string()));
    req.body = Some("héllo".to_string());
    assert_eq!(
        req.to_wire(),
        "POST /x HTTP/1.1\r\nHost: 127.0.0.1\r\nConnection: close\r\nA: b\r\nContent-Length: 6\r\n\r\nhéllo"
    );
    assert_eq!(
        HttpRequest::plain("GET", "/").to_wire(),
        "GET / HTTP/1.1\r\nHost: 127.0.0.1\r\nConnection: close\r\n\r\n"
    );
}

// ---- validators

#[test]
fn http_get_passes_on_200_and_names_codes_on_404() {
    let v = HttpGetValidator::new("/", 200, None);
    let ok = HttpResponse::parse("HTTP/1.1 200 OK\r\nContent-Length: 0\r\n\r\n").unwrap();
    let case = v.check(&ok);
    assert!(case.passed());
    assert_eq!(case.name, "GET / returns 200");
    assert_eq!(case.message(), "GET / returned 200 OK");
    let nf = HttpResponse::parse("HTTP/1.1 404 Not Found\r\nContent-Length: 0\r\n\r\n").unwrap();
    let case = v.check(&nf);
    assert!(!case.passed());
    assert!(case.message().contains("200"));
    assert!(case.message().contains("404"));
    assert_eq!(case.message(), "expected status 200, got 404");
}

#[test]
fn http_get_body_mismatch_joins_errors() {
    let v = HttpGetValidator::new("/echo/hi", 200, Some("hi".to_string()));
    let r = HttpResponse::parse("HTTP/1.1 500 X\r\n\r\n  ho \r\n").unwrap();
    assert_eq!(v.check(&r).message(), "expected status 200, got 500; expected body 'hi', got 'ho'");
    let r = HttpResponse::parse("HTTP/1.1 200 OK\r\n\r\nhi\r\n").unwrap();
    assert!(v.check(&r).passed());
}

#[test]
fn status_validator() {
    let v = HttpStatusValidator::new(201);
    let r = HttpResponse::parse("HTTP/1.1 201 Created\r\n\r\n").unwrap();
    let c = v.check(&r);
    assert_eq!(c.name, "http response status 201");
    assert_eq!(c.result, Ok("server returned 201 as expected".to_string()));
}

#[test]
fn header_validators() {
    let r = HttpResponse::parse("HTTP/1.1 200 OK\r\nServer: x\r\nConnection: keep-alive\r\n\r\n").unwrap();
    assert!(HttpHeaderPresentValidator::new("server", true).check(&r).passed());
    let c = HttpHeaderPresentValidator::new("Date", true).check(&r);
    assert_eq!(c.result, Err("header 'Date' not found in response".to_string()));
    assert_eq!(c.name, "header 'Date' present");
    assert!(HttpHeaderPresentValidator::new("Date", false).with_path("/a").check(&r).passed());
    let c = HttpHeaderValueValidator::new("Connection", "close").check(&r);
    assert_eq!(c.result, Err("header 'Connection' expected 'close', got 'keep-alive'".to_string()));
}

#[test]
fn file_and_compression_validators() {
    let r = HttpResponse::parse("HTTP/1.1 200 OK\r\nContent-Length: 11\r\nContent-Encoding: GZIP\r\n\r\nhello world").unwrap();
    assert_eq!(HttpGetFileValidator::new("/files/a", 200).check(&r).message(), "GET /files/a returned 200 (11 bytes) OK");
    let v = HttpGetCompressedValidator::new("/c", "gzip");
    assert!(v.check(&r).passed());
    assert_eq!(v.request().headers, vec![("Accept-Encoding".to_string(), "gzip".to_string())]);
    let plain = HttpResponse::parse("HTTP/1.1 200 OK\r\n\r\n").unwrap();
    assert_eq!(v.check(&plain).message(), "Content-Encoding header not present, expected 'gzip'");
}

#[test]
fn json_validators() {
    let r = HttpResponse::parse("HTTP/1.1 201 Created\r\n\r\n{\"id\":\"7\",\"n\":3,\"ok\":true}").unwrap();
    let v = HttpJsonExistsValidator::new("/j", "GET", vec!["id".to_string(), "zz".to_string()]);
    let c = v.check(&r).unwrap();
    assert_eq!(c.result, Err("missing required fields: [\"zz\"]".to_string()));
    assert_eq!(c.name, "GET /j returns JSON with [\"id\", \"zz\"]");
    assert!(HttpJsonFieldValidator::new("/j", "GET", "n", "3").check(&r).unwrap().passed());
    assert!(HttpJsonFieldValidator::new("/j", "GET", "ok", "true").check(&r).unwrap().passed());
    let bad = HttpResponse::parse("HTTP/1.1 200 OK\r\n\r\nnot json").unwrap();
    assert!(v.check(&bad).unwrap_err().starts_with("invalid JSON response: "));
    let p = HttpPostJsonValidator::new("/jobs", "{}", 201).with_expected_field("id", "8");
    assert_eq!(p.check(&r).message(), "field 'id' expected '8', got '7'");
    assert!(HttpPostJsonValidator::new("/jobs", "{}", 201).check(&bad).message().contains("got 200"));
}

#[test]
fn fanout_reports_three_of_five() {
    let v = ConcurrentRequestsValidator::new(5, "/", 200);
    let statuses = [200u16, 500, 200, 404, 200];
    let outcomes: Vec<Result<u32, String>> =
        statuses.iter().enumerate().map(|(i, s)| v.connection_outcome(i as u32, *s)).collect();
    let case = v.conclude(&outcomes);
    let msg = case.message().to_string();
    assert!(msg.starts_with("3/5 succeeded. "));
    assert!(msg.contains("connection 1 got status 500 instead of 200") || msg.contains("connection 3 got status 404 instead of 200"));
    assert_eq!(case.name, "5 concurrent requests");
    assert_eq!(tally(&outcomes).0, 3);
}

#[test]
fn fanout_truncates_after_three_errors() {
    let v = ConcurrentRequestsValidator::new(5, "/", 200);
    let outcomes: Vec<Result<u32, String>> = (0..5).map(|i| Err(format!("e{}", i))).collect();
    assert_eq!(v.conclude(&outcomes).message(), "0/5 succeeded. e0; e1; e2; ... and 2 more errors");
    let all: Vec<Result<u32, String>> = (0..5).map(Ok).collect();
    assert_eq!(v.conclude(&all).result, Ok("all 5 concurrent requests succeeded".to_string()));
}

#[test]
fn rate_limit_counts_429() {
    let v = RateLimitValidator::new("/api", "POST", 4, 1000, 2);
    assert_eq!(v.delay_per_request(), 250);
    let outcomes = vec![Ok(429u16), Ok(200), Ok(429), Err("boom".to_string())];
    let c = v.conclude(&outcomes, "1s");
    assert_eq!(c.result, Ok("rate limiting working: 2/4 requests rejected (expected >= 2), 1 succeeded, completed in 1s".to_string()));
    assert_eq!(c.name, "rate limit 4 requests in 1000ms");
    let strict = RateLimitValidator::new("/api", "POST", 4, 0, 3);
    assert_eq!(strict.delay_per_request(), 0);
    assert_eq!(strict.conclude(&outcomes, "1s").message(), "expected at least 3 rejected requests, got 2. 1 succeeded, 1 errors");
}

#[test]
fn header_names_fold_beyond_ascii() {
    let r = HttpResponse::parse("HTTP/1.1 200 OK\r\nÄrger-X: v\r\n\r\n").unwrap();
    assert_eq!(r.headers[0].0, "ärger-x");
    assert_eq!(r.get_header("ÄRGER-x"), Some("v"));
    assert!(r.has_header("ärger-X"));
}

#[test]
fn fanout_samples_distinct_errors() {
    let v = ConcurrentRequestsValidator::new(6, "/", 200);
    let outcomes: Vec<Result<u32, String>> = vec![
        Err("a".to_string()),
        Err("a".to_string()),
        Ok(2),
        Err("b".to_string()),
        Err("a".to_string()),
        Err("c".to_string()),
    ];
    assert_eq!(v.conclude(&outcomes).message(), "1/6 succeeded. a; b; c; ... and 2 more errors");
    let dup: Vec<Result<u32, String>> = vec![Err("a".to_string()), Err("a".to_string())];
    let two = ConcurrentRequestsValidator::new(2, "/", 200);
    assert_eq!(two.conclude(&dup).message(), "0/2 succeeded. a; ... and 1 more errors");
}

#[test]
fn json_field_reads_exact_member() {
    let r = HttpResponse::parse("HTTP/1.1 200 OK\r\n\r\n{\"a\":{\"b\":1},\"s\":\"x\"}").unwrap();
    let v = HttpJsonFieldValidator::new("/j", "GET", "a", "{\"b\":1}");
    assert!(v.check(&r).unwrap().passed());
    let e = HttpJsonExistsValidator::new("/j", "GET", vec!["s".to_string(), "q".to_string(), "a".to_string()]);
    assert_eq!(e.check(&r).unwrap().result, Err("missing required fields: [\"q\"]".to_string()));
    let none = HttpJsonExistsValidator::new("/j", "GET", vec![]);
    let bad = HttpResponse::parse("HTTP/1.1 200 OK\r\n\r\n{").unwrap();
    assert!(none.check(&bad).is_err());
}
