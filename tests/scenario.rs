use luxctl::scenario::{
    is_processing, less_than, read_worker_count, submitted_job, HttpHealthCheck,
    HttpJsonFieldNested, HttpJsonFieldValue, HttpRequestWithBody, HttpStatusCheck,
    JobPriorityVerified, JobProcessingVerified, JobResultVerified, JobRetryVerified,
    JobSubmissionVerified, JobTimeoutReasonVerified, JobTimeoutVerified, Next,
    WorkerPoolConcurrent, WorkerScaleDown, WorkerScaleUp,
};
use luxctl::json::{first_str_field, first_u64_field, has_path, path_text, str_field, u64_field};

fn fetch_path(n: Next) -> String {
    match n {
        Next::Fetch(p) => p,
        Next::Done(c) => panic!("unexpected end: {:?}", c),
    }
}

#[test]
fn submission_then_storage_passes() {
    let v = JobSubmissionVerified::new("test", "data");
    let req = v.submit_request();
    assert_eq!(req.body, Some("{\"type\":\"test\",\"payload\":\"data\"}".to_string()));
    assert_eq!(req.path, "/jobs");
    let id = str_field("{\"id\":\"abc\"}", "id");
    let path = fetch_path(v.after_submit(201, id).unwrap());
    assert_eq!(path, "/jobs/abc");
    let stored = str_field("{\"id\":\"abc\",\"status\":\"queued\"}", "id");
    let case = v.after_fetch("abc", 200, stored).unwrap();
    assert!(case.passed());
    assert_eq!(case.message(), "job abc submitted and verified in storage");
}

#[test]
fn submission_missing_in_storage_is_named() {
    let v = JobSubmissionVerified::new("test", "data");
    let case = v.after_fetch("abc", 404, str_field("{}", "id")).unwrap();
    assert!(!case.passed());
    assert_eq!(case.message(), "GET /jobs/abc expected 200, got 404 - job not stored");
}

#[test]
fn submission_other_failures() {
    let v = JobSubmissionVerified::new("t", "p");
    match v.after_submit(500, Ok(None)).unwrap() {
        Next::Done(c) => assert_eq!(c.result, Err("POST /jobs expected 201, got 500".to_string())),
        Next::Fetch(_) => panic!("should stop"),
    }
    assert_eq!(v.after_submit(201, Ok(None)).err().unwrap(), "POST response missing 'id' field");
    assert!(v.after_submit(201, str_field("oops", "id")).err().unwrap().starts_with("invalid JSON in POST response: "));
    let c = v.after_fetch("a", 200, Ok(Some("b".to_string()))).unwrap();
    assert_eq!(c.message(), "stored job id 'b' doesn't match submitted 'a'");
}

#[test]
fn processing_status_transition() {
    let v = JobProcessingVerified::new(200, "completed");
    assert_eq!(fetch_path(v.after_submit(201, Ok(Some("9".to_string()))).unwrap()), "/jobs/9");
    let ok = v.after_fetch("9", 200, Ok(Some("completed".to_string()))).unwrap();
    assert_eq!(ok.name, "job processing → completed");
    assert_eq!(ok.message(), "job 9 processed, status: completed");
    let pending = v.after_fetch("9", 200, Ok(None)).unwrap();
    assert_eq!(pending.message(), "expected status 'completed', got 'unknown'");
    assert_eq!(v.after_fetch("9", 500, Ok(None)).unwrap().message(), "GET /jobs/9 returned 500");
}

#[test]
fn worker_pool_verdicts() {
    let v = WorkerPoolConcurrent::new(4, 4, 1000);
    assert_eq!(v.submit_request(2).body, Some("{\"type\":\"sleep\",\"payload\":\"2\",\"duration_ms\":500}".to_string()));
    assert!(v.after_submissions(4).is_none());
    assert_eq!(v.after_submissions(3).unwrap().message(), "only 3 of 4 jobs submitted successfully");
    assert_eq!(v.settle_ms(), 600);
    assert!(v.conclude(3, 700).passed());
    assert_eq!(v.conclude(3, 1700).message(), "jobs processed but took 1700ms (max allowed: 1000ms) - workers may not be concurrent");
    assert_eq!(v.conclude(1, 700).message(), "only 1 job(s) processing at same time - expected concurrent processing with 4 workers");
    assert_eq!(v.conclude(3, 700).name, "4 workers processing 4 jobs");
    assert!(is_processing(&Some("processing".to_string())));
    assert!(!is_processing(&Some("done".to_string())));
}

#[test]
fn result_priority_timeout_retry() {
    let r = JobResultVerified::new("echo", "hello", "hello");
    assert!(r.after_fetch(Ok(Some("hello".to_string()))).unwrap().passed());
    assert_eq!(r.after_fetch(Ok(None)).unwrap().message(), "expected result 'hello', got ''");

    let p = JobPriorityVerified::new(10, 1);
    assert_eq!(p.low_request().body, Some("{\"type\":\"sleep\",\"payload\":\"low\",\"priority\":1,\"duration_ms\":100}".to_string()));
    let c = p.conclude(Ok(Some("2024-01-01T00:00:02".to_string())), Ok(Some("2024-01-01T00:00:01".to_string()))).unwrap();
    assert_eq!(c.message(), "priority 10 job completed before priority 1 job");
    let c = p.conclude(Ok(None), Ok(Some("x".to_string()))).unwrap();
    assert_eq!(c.message(), "jobs missing completed_at timestamp");
    assert!(less_than("abc", "abd"));
    assert!(!less_than("b", "a"));

    let t = JobTimeoutVerified::new(5000, "failed");
    assert!(t.conclude(Ok(Some("failed".to_string()))).unwrap().passed());
    let tr = JobTimeoutReasonVerified::new("Timeout");
    assert!(tr.conclude(first_str_field("{\"failure_reason\":\"job TIMEOUT exceeded\"}", &tr.reason_keys())).unwrap().passed());
    assert!(!tr.conclude(Ok(None)).unwrap().passed());

    let rt = JobRetryVerified::new("flaky", 3);
    assert_eq!(rt.conclude(first_u64_field("{\"retry_count\":2}", &rt.retry_keys())).unwrap().message(), "job retry tracked: 2 retries");
    assert_eq!(rt.conclude(Ok(None)).unwrap().message(), "job retries not tracked - expected retries > 0");
    assert_eq!(submitted_job(Ok(Some("5".to_string()))).unwrap(), "/jobs/5");
}

#[test]
fn scaling_verdicts() {
    let up = WorkerScaleUp::new(2, 50, 4);
    let c = up.conclude(u64_field("{\"count\":2}", "count"), u64_field("{\"count\":5}", "count")).unwrap();
    assert_eq!(c.message(), "workers scaled from 2 to 5 (expected >= 4)");
    let down = WorkerScaleDown::new(8, 4);
    assert_eq!(down.scale_request().path, "/workers/scale?count=8");
    assert_eq!(down.conclude(Ok(Some(6))).unwrap().message(), "workers still at 6 (expected <= 4)");
    assert_eq!(read_worker_count(Some(4294967298)), 2);
}

#[test]
fn single_request_checks() {
    let h = HttpRequestWithBody::new("POST", "/jobs", Some("{}"), 201);
    assert_eq!(h.request().headers.len(), 1);
    assert_eq!(h.check(201).message(), "POST /jobs returned 201");
    assert_eq!(h.check(400).message(), "expected 201, got 400");
    let n = HttpJsonFieldNested::new("/stats", "workers.total");
    assert!(n.conclude(has_path("{\"workers\":{\"total\":3}}", "workers.total")).unwrap().passed());
    assert!(!n.conclude(has_path("{\"workers\":{}}", "workers.total")).unwrap().passed());
    let hc = HttpHealthCheck::new("/health", 200, "status", "ok");
    assert!(hc.conclude(200, str_field("{\"status\":\"ok\"}", "status")).unwrap().passed());
    assert_eq!(hc.conclude(503, Ok(None)).unwrap().message(), "expected status 200, got 503");
    let fv = HttpJsonFieldValue::new("/s", "a.b", "null");
    assert!(fv.conclude(path_text("{\"a\":{\"b\":null}}", "a.b")).unwrap().passed());
    let sc = HttpStatusCheck::new("/x", 204);
    assert_eq!(sc.check(204).name, "GET /x → 204");
}

#[test]
fn processing_polls_are_counted() {
    let polls = vec![
        Ok(Some("processing".to_string())),
        Ok(Some("queued".to_string())),
        Err("connection refused".to_string()),
        Ok(None),
        str_field("{\"status\":\"processing\"}", "status"),
    ];
    assert_eq!(luxctl::scenario::count_processing(&polls), 2);
}

#[test]
fn json_readers() {
    assert_eq!(str_field("{\"id\":\"7\"}", "id"), Ok(Some("7".to_string())));
    assert_eq!(str_field("{\"id\":7}", "id"), Ok(None));
    assert_eq!(u64_field("{\"n\":7}", "n"), Ok(Some(7)));
    assert_eq!(path_text("{\"a\":{\"b\":[1,2]}}", "a.b"), Ok(Some("[1,2]".to_string())));
    assert_eq!(has_path("{\"a\":{}}", "a.b"), Ok(false));
    assert_eq!(first_str_field("{\"error\":5,\"reason\":\"x\"}", &vec!["error", "reason"]), Ok(None));
    assert_eq!(first_str_field("{\"reason\":\"x\"}", &vec!["error", "reason"]), Ok(Some("x".to_string())));
    assert!(str_field("nope", "id").is_err());
}
