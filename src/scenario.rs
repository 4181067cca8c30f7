//! Scenario validators: several HTTP steps against a job-queue service
//! (`POST /jobs`, `GET /jobs/{id}`, `GET /workers`), with waits in between.
//! Each step's decision is a function here; the caller performs the requests
//! and the waits, and hands back what it received.
use vstd::prelude::*;
use crate::http::{opt_view, pairs_view, HttpRequest, status_mismatch, status_mismatch_msg};
use crate::protocol::case_is;
use crate::results::TestCase;
use crate::text::{dec, dec_u64, lit, fold, contains, chars_of, fold_chars, find, same};

verus! {

/// The port the scenario validators talk to.
pub const SCENARIO_PORT: u16 = 8080;

/// What to do after a step: stop with a case, or fetch a path next.
pub enum Next {
    Done(TestCase),
    Fetch(String),
}

pub open spec fn next_is_done(n: Next, name: Seq<char>, outcome: Result<Seq<char>, Seq<char>>) -> bool {
    n matches Next::Done(c) && case_is(c, name, outcome)
}

pub open spec fn next_is_fetch(n: Next, path: Seq<char>) -> bool {
    n matches Next::Fetch(p) && p@ == path
}

/// `{"type":"<t>","payload":"<p>"}`
pub open spec fn job_body(t: Seq<char>, p: Seq<char>) -> Seq<char> {
    "{\"type\":\""@ + t + "\",\"payload\":\""@ + p + "\"}"@
}

fn job_body_text(t: &str, p: &str) -> (r: String)
    ensures
        r@ == job_body(t@, p@),
{
    let mut b = lit("{\"type\":\"");
    b.append(t);
    b.append("\",\"payload\":\"");
    b.append(p);
    b.append("\"}");
    b
}

/// A JSON POST of `body` to `path`.
pub open spec fn is_json_post(r: HttpRequest, path: Seq<char>, body: Seq<char>) -> bool {
    &&& r.method@ == "POST"@
    &&& r.path@ == path
    &&& pairs_view(r.headers@) == seq![("Content-Type"@, "application/json"@)]
    &&& r.body is Some && r.body->0@ == body
}

pub fn json_post(path: &str, body: String) -> (r: HttpRequest)
    ensures
        is_json_post(r, path@, body@),
{
    let mut headers: Vec<(String, String)> = Vec::new();
    headers.push((lit("Content-Type"), lit("application/json")));
    assert(pairs_view(headers@) =~= seq![("Content-Type"@, "application/json"@)]);
    HttpRequest { method: lit("POST"), path: lit(path), headers, body: Some(body) }
}

pub open spec fn job_path(id: Seq<char>) -> Seq<char> {
    "/jobs/"@ + id
}

fn job_path_text(id: &str) -> (r: String)
    ensures
        r@ == job_path(id@),
{
    let mut p = lit("/jobs/");
    p.append(id);
    p
}

fn with_prefix(prefix: &str, s: &str) -> (r: String)
    ensures
        r@ == prefix@ + s@,
{
    let mut m = lit(prefix);
    m.append(s);
    m
}

/// A missing string member reads as `default`.
pub open spec fn or_default(v: Option<Seq<char>>, default: Seq<char>) -> Seq<char> {
    match v {
        Some(s) => s,
        None => default,
    }
}

fn or_default_text(v: Option<String>, default: &str) -> (r: String)
    ensures
        r@ == or_default(opt_view(v), default@),
{
    match v {
        Some(s) => s,
        None => lit(default),
    }
}

/// The identifier of a submitted job read from the POST answer: a JSON error
/// (with `json_prefix`), a missing id (`missing`), or the path to fetch.
pub open spec fn id_step(
    reading: Result<Option<Seq<char>>, Seq<char>>,
    json_prefix: Seq<char>,
    missing: Seq<char>,
) -> Result<Seq<char>, Seq<char>> {
    match reading {
        Err(e) => Err(json_prefix + e),
        Ok(None) => Err(missing),
        Ok(Some(id)) => Ok(id),
    }
}

pub open spec fn reading_view(r: Result<Option<String>, String>) -> Result<Option<Seq<char>>, Seq<char>> {
    match r {
        Ok(o) => Ok(opt_view(o)),
        Err(e) => Err(e@),
    }
}

fn id_of(reading: Result<Option<String>, String>, json_prefix: &str, missing: &str) -> (r: Result<String, String>)
    ensures
        match id_step(reading_view(reading), json_prefix@, missing@) {
            Ok(id) => r is Ok && r->Ok_0@ == id,
            Err(e) => r is Err && r->Err_0@ == e,
        },
{
    match reading {
        Err(e) => Err(with_prefix(json_prefix, e.as_str())),
        Ok(None) => Err(lit(missing)),
        Ok(Some(id)) => Ok(id),
    }
}

// ---------------------------------------------------------------- submission

/// Submits a job, then fetches it back and expects the same id.
pub struct JobSubmissionVerified {
    pub port: u16,
    pub job_type: String,
    pub payload: String,
}

impl JobSubmissionVerified {
    pub fn new(job_type: &str, payload: &str) -> (r: Self)
        ensures
            r.port == SCENARIO_PORT,
            r.job_type@ == job_type@,
            r.payload@ == payload@,
    {
        JobSubmissionVerified { port: SCENARIO_PORT, job_type: lit(job_type), payload: lit(payload) }
    }

    pub fn submit_request(&self) -> (r: HttpRequest)
        ensures
            is_json_post(r, "/jobs"@, job_body(self.job_type@, self.payload@)),
    {
        json_post("/jobs", job_body_text(self.job_type.as_str(), self.payload.as_str()))
    }

    /// After the POST: its status and the `id` member read from its body.
    pub fn after_submit(&self, status: u16, id: Result<Option<String>, String>) -> (r: Result<Next, String>)
        ensures
            status != 201 ==> r is Ok && next_is_done(
                r->Ok_0,
                "job submission verified"@,
                Err("POST /jobs expected 201, got "@ + dec(status as int)),
            ),
            status == 201 ==> match id_step(
                reading_view(id),
                "invalid JSON in POST response: "@,
                "POST response missing 'id' field"@,
            ) {
                Ok(i) => r is Ok && next_is_fetch(r->Ok_0, job_path(i)),
                Err(e) => r is Err && r->Err_0@ == e,
            },
    {
        if status != 201 {
            let m = with_prefix("POST /jobs expected 201, got ", dec_u64(status as u64).as_str());
            return Ok(Next::Done(TestCase { name: lit("job submission verified"), result: Err(m) }));
        }
        match id_of(id, "invalid JSON in POST response: ", "POST response missing 'id' field") {
            Ok(i) => Ok(Next::Fetch(job_path_text(i.as_str()))),
            Err(e) => Err(e),
        }
    }

    pub open spec fn judged_fetch(&self, job_id: Seq<char>, status: u16, stored: Result<Option<Seq<char>>, Seq<char>>) -> Result<Result<Seq<char>, Seq<char>>, Seq<char>> {
        if status != 200 {
            Ok(Err("GET "@ + job_path(job_id) + " expected 200, got "@ + dec(status as int) + " - job not stored"@))
        } else {
            match stored {
                Err(e) => Err("invalid JSON in GET response: "@ + e),
                Ok(v) => {
                    let s = or_default(v, Seq::empty());
                    if s != job_id {
                        Ok(Err("stored job id '"@ + s + "' doesn't match submitted '"@ + job_id + "'"@))
                    } else {
                        Ok(Ok("job "@ + job_id + " submitted and verified in storage"@))
                    }
                },
            }
        }
    }

    /// After fetching the job back: its status and the stored `id` member.
    pub fn after_fetch(&self, job_id: &str, status: u16, stored: Result<Option<String>, String>) -> (r: Result<TestCase, String>)
        ensures
            match self.judged_fetch(job_id@, status, reading_view(stored)) {
                Ok(o) => r is Ok && case_is(r->Ok_0, "job submission verified"@, o),
                Err(e) => r is Err && r->Err_0@ == e,
            },
    {
        let name = lit("job submission verified");
        if status != 200 {
            let mut m = lit("GET ");
            m.append(job_path_text(job_id).as_str());
            m.append(" expected 200, got ");
            m.append(dec_u64(status as u64).as_str());
            m.append(" - job not stored");
            return Ok(TestCase { name, result: Err(m) });
        }
        let s = match stored {
            Err(e) => {
                return Err(with_prefix("invalid JSON in GET response: ", e.as_str()));
            },
            Ok(v) => or_default_text(v, ""),
        };
        proof {
            reveal_strlit("");
            assert(""@ =~= Seq::<char>::empty());
        }
        if !same(&chars_of(s.as_str()), &chars_of(job_id)) {
            let mut m = lit("stored job id '");
            m.append(s.as_str());
            m.append("' doesn't match submitted '");
            m.append(job_id);
            m.append("'");
            Ok(TestCase { name, result: Err(m) })
        } else {
            let mut m = lit("job ");
            m.append(job_id);
            m.append(" submitted and verified in storage");
            Ok(TestCase { name, result: Ok(m) })
        }
    }
}

// ---------------------------------------------------------------- processing

/// Submits a job, waits, and expects its status to have moved on.
pub struct JobProcessingVerified {
    pub port: u16,
    pub job_type: String,
    pub payload: String,
    pub wait_ms: u64,
    pub expected_status: String,
}

impl JobProcessingVerified {
    pub fn new(wait_ms: u64, expected_status: &str) -> (r: Self)
        ensures
            r.port == SCENARIO_PORT,
            r.job_type@ == "test"@,
            r.payload@ == "data"@,
            r.wait_ms == wait_ms,
            r.expected_status@ == expected_status@,
    {
        JobProcessingVerified {
            port: SCENARIO_PORT,
            job_type: lit("test"),
            payload: lit("data"),
            wait_ms,
            expected_status: lit(expected_status),
        }
    }

    pub fn submit_request(&self) -> (r: HttpRequest)
        ensures
            is_json_post(r, "/jobs"@, job_body(self.job_type@, self.payload@)),
    {
        json_post("/jobs", job_body_text(self.job_type.as_str(), self.payload.as_str()))
    }

    /// After the POST; on a fetch, the caller first waits `wait_ms`.
    pub fn after_submit(&self, status: u16, id: Result<Option<String>, String>) -> (r: Result<Next, String>)
        ensures
            status != 201 ==> r is Ok && next_is_done(
                r->Ok_0,
                "job processing verified"@,
                Err("POST /jobs expected 201, got "@ + dec(status as int)),
            ),
            status == 201 ==> match id_step(reading_view(id), "invalid JSON: "@, "missing job id"@) {
                Ok(i) => r is Ok && next_is_fetch(r->Ok_0, job_path(i)),
                Err(e) => r is Err && r->Err_0@ == e,
            },
    {
        if status != 201 {
            let m = with_prefix("POST /jobs expected 201, got ", dec_u64(status as u64).as_str());
            return Ok(Next::Done(TestCase { name: lit("job processing verified"), result: Err(m) }));
        }
        match id_of(id, "invalid JSON: ", "missing job id") {
            Ok(i) => Ok(Next::Fetch(job_path_text(i.as_str()))),
            Err(e) => Err(e),
        }
    }

    pub open spec fn judged_fetch(&self, job_id: Seq<char>, status: u16, state: Result<Option<Seq<char>>, Seq<char>>) -> Result<TestCaseView, Seq<char>> {
        if status != 200 {
            Ok(("job processing verified"@, Err("GET "@ + job_path(job_id) + " returned "@ + dec(status as int))))
        } else {
            match state {
                Err(e) => Err("invalid JSON: "@ + e),
                Ok(v) => {
                    let st = or_default(v, "unknown"@);
                    Ok((
                        "job processing → "@ + self.expected_status@,
                        if st == self.expected_status@ {
                            Ok("job "@ + job_id + " processed, status: "@ + st)
                        } else {
                            Err("expected status '"@ + self.expected_status@ + "', got '"@ + st + "'"@)
                        },
                    ))
                },
            }
        }
    }

    /// After fetching the job: its status code and `status` member.
    pub fn after_fetch(&self, job_id: &str, status: u16, state: Result<Option<String>, String>) -> (r: Result<TestCase, String>)
        ensures
            match self.judged_fetch(job_id@, status, reading_view(state)) {
                Ok(c) => r is Ok && case_is(r->Ok_0, c.0, c.1),
                Err(e) => r is Err && r->Err_0@ == e,
            },
    {
        if status != 200 {
            let mut m = lit("GET ");
            m.append(job_path_text(job_id).as_str());
            m.append(" returned ");
            m.append(dec_u64(status as u64).as_str());
            return Ok(TestCase { name: lit("job processing verified"), result: Err(m) });
        }
        let st = match state {
            Err(e) => {
                return Err(with_prefix("invalid JSON: ", e.as_str()));
            },
            Ok(v) => or_default_text(v, "unknown"),
        };
        let result = if st == self.expected_status {
            let mut m = lit("job ");
            m.append(job_id);
            m.append(" processed, status: ");
            m.append(st.as_str());
            Ok(m)
        } else {
            let mut m = lit("expected status '");
            m.append(self.expected_status.as_str());
            m.append("', got '");
            m.append(st.as_str());
            m.append("'");
            Err(m)
        };
        Ok(TestCase { name: with_prefix("job processing → ", self.expected_status.as_str()), result })
    }
}

/// A case, mathematically: its name and outcome.
pub type TestCaseView = (Seq<char>, Result<Seq<char>, Seq<char>>);

// ---------------------------------------------------------------- worker pool

/// Submits several jobs at once and expects them to run side by side.
pub struct WorkerPoolConcurrent {
    pub port: u16,
    pub worker_count: u32,
    pub job_count: u32,
    pub job_duration_ms: u64,
    pub max_total_ms: u64,
}

/// `{"type":"sleep","payload":"<i>","duration_ms":<d>}`
pub open spec fn sleep_body(payload: Seq<char>, duration: int) -> Seq<char> {
    "{\"type\":\"sleep\",\"payload\":\""@ + payload + "\",\"duration_ms\":"@ + dec(duration) + "}"@
}

fn sleep_body_text(payload: &str, duration: u64) -> (r: String)
    ensures
        r@ == sleep_body(payload@, duration as int),
{
    let mut b = lit("{\"type\":\"sleep\",\"payload\":\"");
    b.append(payload);
    b.append("\",\"duration_ms\":");
    b.append(dec_u64(duration).as_str());
    b.append("}");
    b
}

impl WorkerPoolConcurrent {
    pub fn new(worker_count: u32, job_count: u32, max_total_ms: u64) -> (r: Self)
        ensures
            r.port == SCENARIO_PORT,
            r.worker_count == worker_count,
            r.job_count == job_count,
            r.job_duration_ms == 500,
            r.max_total_ms == max_total_ms,
    {
        WorkerPoolConcurrent { port: SCENARIO_PORT, worker_count, job_count, job_duration_ms: 500, max_total_ms }
    }

    /// The POST that submits job number `i`.
    pub fn submit_request(&self, i: u32) -> (r: HttpRequest)
        ensures
            is_json_post(r, "/jobs"@, sleep_body(dec(i as int), self.job_duration_ms as int)),
    {
        json_post("/jobs", sleep_body_text(dec_u64(i as u64).as_str(), self.job_duration_ms))
    }

    pub open spec fn name(&self) -> Seq<char> {
        dec(self.worker_count as int) + " workers processing "@ + dec(self.job_count as int) + " jobs"@
    }

    /// Once the submissions settled, `accepted` of them with an id: stop when
    /// some were lost.
    pub fn after_submissions(&self, accepted: usize) -> (r: Option<TestCase>)
        ensures
            accepted == self.job_count ==> r is None,
            accepted != self.job_count ==> r is Some && case_is(
                r->0,
                "worker pool concurrent"@,
                Err("only "@ + dec(accepted as int) + " of "@ + dec(self.job_count as int) + " jobs submitted successfully"@),
            ),
    {
        if accepted as u64 == self.job_count as u64 {
            None
        } else {
            let mut m = lit("only ");
            m.append(dec_u64(accepted as u64).as_str());
            m.append(" of ");
            m.append(dec_u64(self.job_count as u64).as_str());
            m.append(" jobs submitted successfully");
            Some(TestCase { name: lit("worker pool concurrent"), result: Err(m) })
        }
    }

    /// How long to wait for every job to finish after the poll.
    pub fn settle_ms(&self) -> (r: u64)
        requires
            self.job_duration_ms <= u64::MAX - 100,
        ensures
            r == self.job_duration_ms + 100,
    {
        self.job_duration_ms + 100
    }

    pub open spec fn judged(&self, processing: u64, elapsed_ms: u64) -> Result<Seq<char>, Seq<char>> {
        if processing >= 2 {
            if elapsed_ms <= self.max_total_ms {
                Ok("concurrent processing confirmed: "@ + dec(processing as int) + " jobs processing simultaneously, completed in "@
                    + dec(elapsed_ms as int) + "ms"@)
            } else {
                Err("jobs processed but took "@ + dec(elapsed_ms as int) + "ms (max allowed: "@ + dec(self.max_total_ms as int)
                    + "ms) - workers may not be concurrent"@)
            }
        } else {
            Err("only "@ + dec(processing as int) + " job(s) processing at same time - expected concurrent processing with "@
                + dec(self.worker_count as int) + " workers"@)
        }
    }

    /// The case once `processing` jobs were seen running together and the
    /// whole run took `elapsed_ms`.
    pub fn conclude(&self, processing: u64, elapsed_ms: u64) -> (r: TestCase)
        ensures
            case_is(r, self.name(), self.judged(processing, elapsed_ms)),
    {
        let result = if processing >= 2 {
            if elapsed_ms <= self.max_total_ms {
                let mut m = lit("concurrent processing confirmed: ");
                m.append(dec_u64(processing).as_str());
                m.append(" jobs processing simultaneously, completed in ");
                m.append(dec_u64(elapsed_ms).as_str());
                m.append("ms");
                Ok(m)
            } else {
                let mut m = lit("jobs processed but took ");
                m.append(dec_u64(elapsed_ms).as_str());
                m.append("ms (max allowed: ");
                m.append(dec_u64(self.max_total_ms).as_str());
                m.append("ms) - workers may not be concurrent");
                Err(m)
            }
        } else {
            let mut m = lit("only ");
            m.append(dec_u64(processing).as_str());
            m.append(" job(s) processing at same time - expected concurrent processing with ");
            m.append(dec_u64(self.worker_count as u64).as_str());
            m.append(" workers");
            Err(m)
        };
        let mut name = dec_u64(self.worker_count as u64);
        name.append(" workers processing ");
        name.append(dec_u64(self.job_count as u64).as_str());
        name.append(" jobs");
        TestCase { name, result }
    }
}

/// Whether a polled job reported the `processing` state.
pub fn is_processing(state: &Option<String>) -> (r: bool)
    ensures
        r == (opt_view(*state) == Some("processing"@)),
{
    match state {
        Some(s) => same(&chars_of(s.as_str()), &chars_of("processing")),
        None => false,
    }
}

/// How many polled jobs reported `processing`; a failed poll counts as not.
pub open spec fn processing_count(polls: Seq<Result<Option<String>, String>>) -> nat
    decreases polls.len(),
{
    if polls.len() == 0 {
        0
    } else {
        processing_count(polls.drop_last()) + match polls.last() {
            Ok(s) => if opt_view(s) == Some("processing"@) {
                1nat
            } else {
                0nat
            },
            Err(_) => 0nat,
        }
    }
}

/// Counts the polled jobs that were `processing`, from each poll's `status`
/// member (or its error).
pub fn count_processing(polls: &Vec<Result<Option<String>, String>>) -> (r: u64)
    ensures
        r == processing_count(polls@),
{
    let mut n: usize = 0;
    let mut k: usize = 0;
    while k < polls.len()
        invariant
            k <= polls@.len(),
            n == processing_count(polls@.subrange(0, k as int)),
            n <= k,
        decreases polls@.len() - k,
    {
        assert(polls@.subrange(0, k + 1).drop_last() =~= polls@.subrange(0, k as int));
        match &polls[k] {
            Ok(s) => {
                if is_processing(s) {
                    n = n + 1;
                }
            },
            Err(_) => {},
        }
        k = k + 1;
    }
    assert(polls@.subrange(0, k as int) =~= polls@);
    n as u64
}

// ---------------------------------------------------------------- result

/// Submits a job and expects its stored result to be a given value.
pub struct JobResultVerified {
    pub port: u16,
    pub job_type: String,
    pub payload: String,
    pub expected_result: String,
}

impl JobResultVerified {
    pub fn new(job_type: &str, payload: &str, expected_result: &str) -> (r: Self)
        ensures
            r.port == SCENARIO_PORT,
            r.job_type@ == job_type@,
            r.payload@ == payload@,
            r.expected_result@ == expected_result@,
    {
        JobResultVerified {
            port: SCENARIO_PORT,
            job_type: lit(job_type),
            payload: lit(payload),
            expected_result: lit(expected_result),
        }
    }

    pub fn submit_request(&self) -> (r: HttpRequest)
        ensures
            is_json_post(r, "/jobs"@, job_body(self.job_type@, self.payload@)),
    {
        json_post("/jobs", job_body_text(self.job_type.as_str(), self.payload.as_str()))
    }

    /// After the POST; on a fetch, the caller first waits 200 ms.
    pub fn after_submit(&self, status: u16, id: Result<Option<String>, String>) -> (r: Result<Next, String>)
        ensures
            status != 201 ==> r is Ok && next_is_done(
                r->Ok_0,
                "job result: "@ + self.job_type@,
                Err("POST failed with "@ + dec(status as int)),
            ),
            status == 201 ==> match id_step(reading_view(id), "invalid JSON: "@, "missing id"@) {
                Ok(i) => r is Ok && next_is_fetch(r->Ok_0, job_path(i)),
                Err(e) => r is Err && r->Err_0@ == e,
            },
    {
        if status != 201 {
            let m = with_prefix("POST failed with ", dec_u64(status as u64).as_str());
            return Ok(Next::Done(TestCase { name: with_prefix("job result: ", self.job_type.as_str()), result: Err(m) }));
        }
        match id_of(id, "invalid JSON: ", "missing id") {
            Ok(i) => Ok(Next::Fetch(job_path_text(i.as_str()))),
            Err(e) => Err(e),
        }
    }

    pub open spec fn judged(&self, value: Seq<char>) -> Result<Seq<char>, Seq<char>> {
        if value == self.expected_result@ {
            Ok("job type '"@ + self.job_type@ + "' with payload '"@ + self.payload@ + "' returned '"@ + value + "'"@)
        } else {
            Err("expected result '"@ + self.expected_result@ + "', got '"@ + value + "'"@)
        }
    }

    /// After fetching the job: its `result` member.
    pub fn after_fetch(&self, result: Result<Option<String>, String>) -> (r: Result<TestCase, String>)
        ensures
            match reading_view(result) {
                Err(e) => r is Err && r->Err_0@ == "invalid JSON: "@ + e,
                Ok(v) => r is Ok && case_is(
                    r->Ok_0,
                    "job result: "@ + self.job_type@ + " → "@ + self.expected_result@,
                    self.judged(or_default(v, Seq::empty())),
                ),
            },
    {
        let v = match result {
            Err(e) => {
                return Err(with_prefix("invalid JSON: ", e.as_str()));
            },
            Ok(v) => or_default_text(v, ""),
        };
        proof {
            reveal_strlit("");
            assert(""@ =~= Seq::<char>::empty());
        }
        let outcome = if v == self.expected_result {
            let mut m = lit("job type '");
            m.append(self.job_type.as_str());
            m.append("' with payload '");
            m.append(self.payload.as_str());
            m.append("' returned '");
            m.append(v.as_str());
            m.append("'");
            Ok(m)
        } else {
            let mut m = lit("expected result '");
            m.append(self.expected_result.as_str());
            m.append("', got '");
            m.append(v.as_str());
            m.append("'");
            Err(m)
        };
        let mut name = lit("job result: ");
        name.append(self.job_type.as_str());
        name.append(" → ");
        name.append(self.expected_result.as_str());
        Ok(TestCase { name, result: outcome })
    }
}

// ---------------------------------------------------------------- priority

/// `a` sorts before `b`, comparing characters in order (as `str`'s `<` does).
pub open spec fn text_lt(a: Seq<char>, b: Seq<char>) -> bool
    decreases a.len(),
{
    if b.len() == 0 {
        false
    } else if a.len() == 0 {
        true
    } else if a[0] != b[0] {
        a[0] < b[0]
    } else {
        text_lt(a.drop_first(), b.drop_first())
    }
}

pub fn less_than(a: &str, b: &str) -> (r: bool)
    ensures
        r == text_lt(a@, b@),
{
    let x = chars_of(a);
    let y = chars_of(b);
    let mut k: usize = 0;
    assert(x@.subrange(0, x@.len() as int) =~= x@);
    assert(y@.subrange(0, y@.len() as int) =~= y@);
    while k < x.len() && k < y.len() && x[k] == y[k]
        invariant
            k <= x@.len(),
            k <= y@.len(),
            text_lt(x@, y@) == text_lt(x@.subrange(k as int, x@.len() as int), y@.subrange(k as int, y@.len() as int)),
        decreases x@.len() - k,
    {
        assert(x@.subrange(k as int, x@.len() as int).drop_first() =~= x@.subrange(k + 1, x@.len() as int));
        assert(y@.subrange(k as int, y@.len() as int).drop_first() =~= y@.subrange(k + 1, y@.len() as int));
        k = k + 1;
    }
    if k == y.len() {
        false
    } else if k == x.len() {
        true
    } else {
        assert(x@.subrange(k as int, x@.len() as int)[0] == x@[k as int]);
        assert(y@.subrange(k as int, y@.len() as int)[0] == y@[k as int]);
        x[k] < y[k]
    }
}

/// Submits a low-priority job, then a high-priority one, and expects the
/// high-priority one to complete first.
pub struct JobPriorityVerified {
    pub port: u16,
    pub high_priority: u32,
    pub low_priority: u32,
}

/// `{"type":"sleep","payload":"<p>","priority":<n>,"duration_ms":100}`
pub open spec fn priority_body(payload: Seq<char>, priority: int) -> Seq<char> {
    "{\"type\":\"sleep\",\"payload\":\""@ + payload + "\",\"priority\":"@ + dec(priority) + ",\"duration_ms\":100}"@
}

impl JobPriorityVerified {
    pub fn new(high_priority: u32, low_priority: u32) -> (r: Self)
        ensures
            r.port == SCENARIO_PORT,
            r.high_priority == high_priority,
            r.low_priority == low_priority,
    {
        JobPriorityVerified { port: SCENARIO_PORT, high_priority, low_priority }
    }

    /// The low-priority submission, sent first.
    pub fn low_request(&self) -> (r: HttpRequest)
        ensures
            is_json_post(r, "/jobs"@, priority_body("low"@, self.low_priority as int)),
    {
        json_post("/jobs", priority_body_text("low", self.low_priority))
    }

    /// The high-priority submission, sent 10 ms later.
    pub fn high_request(&self) -> (r: HttpRequest)
        ensures
            is_json_post(r, "/jobs"@, priority_body("high"@, self.high_priority as int)),
    {
        json_post("/jobs", priority_body_text("high", self.high_priority))
    }

    /// The path of a submitted job, from the `id` member of its POST answer.
    pub fn job_to_fetch(&self, id: Result<Option<String>, String>) -> (r: Result<String, String>)
        ensures
            match id_step(reading_view(id), "invalid JSON: "@, "missing id"@) {
                Ok(i) => r is Ok && r->Ok_0@ == job_path(i),
                Err(e) => r is Err && r->Err_0@ == e,
            },
    {
        match id_of(id, "invalid JSON: ", "missing id") {
            Ok(i) => Ok(job_path_text(i.as_str())),
            Err(e) => Err(e),
        }
    }

    pub open spec fn judged(&self, low: Option<Seq<char>>, high: Option<Seq<char>>) -> Result<Seq<char>, Seq<char>> {
        match (low, high) {
            (Some(l), Some(h)) => if text_lt(h, l) {
                Ok("priority "@ + dec(self.high_priority as int) + " job completed before priority "@ + dec(
                    self.low_priority as int,
                ) + " job"@)
            } else {
                Err("low priority job completed at "@ + l + ", high at "@ + h + " - priority not respected"@)
            },
            _ => Err("jobs missing completed_at timestamp"@),
        }
    }

    /// After fetching both jobs: their `completed_at` members.
    pub fn conclude(&self, low: Result<Option<String>, String>, high: Result<Option<String>, String>) -> (r: Result<TestCase, String>)
        ensures
            match (reading_view(low), reading_view(high)) {
                (Err(e), _) => r is Err && r->Err_0@ == "invalid JSON: "@ + e,
                (Ok(_), Err(e)) => r is Err && r->Err_0@ == "invalid JSON: "@ + e,
                (Ok(l), Ok(h)) => r is Ok && case_is(
                    r->Ok_0,
                    "priority "@ + dec(self.high_priority as int) + " before "@ + dec(self.low_priority as int),
                    self.judged(l, h),
                ),
            },
    {
        let l = match low {
            Err(e) => {
                return Err(with_prefix("invalid JSON: ", e.as_str()));
            },
            Ok(v) => v,
        };
        let h = match high {
            Err(e) => {
                return Err(with_prefix("invalid JSON: ", e.as_str()));
            },
            Ok(v) => v,
        };
        let result = match (l, h) {
            (Some(lt), Some(ht)) => {
                if less_than(ht.as_str(), lt.as_str()) {
                    let mut m = lit("priority ");
                    m.append(dec_u64(self.high_priority as u64).as_str());
                    m.append(" job completed before priority ");
                    m.append(dec_u64(self.low_priority as u64).as_str());
                    m.append(" job");
                    Ok(m)
                } else {
                    let mut m = lit("low priority job completed at ");
                    m.append(lt.as_str());
                    m.append(", high at ");
                    m.append(ht.as_str());
                    m.append(" - priority not respected");
                    Err(m)
                }
            },
            _ => Err(lit("jobs missing completed_at timestamp")),
        };
        let mut name = lit("priority ");
        name.append(dec_u64(self.high_priority as u64).as_str());
        name.append(" before ");
        name.append(dec_u64(self.low_priority as u64).as_str());
        Ok(TestCase { name, result })
    }
}

fn priority_body_text(payload: &str, priority: u32) -> (r: String)
    ensures
        r@ == priority_body(payload@, priority as int),
{
    let mut b = lit("{\"type\":\"sleep\",\"payload\":\"");
    b.append(payload);
    b.append("\",\"priority\":");
    b.append(dec_u64(priority as u64).as_str());
    b.append(",\"duration_ms\":100}");
    b
}

// ---------------------------------------------------------------- timeouts

/// Submits a slow job and expects it to end in a failure state.
pub struct JobTimeoutVerified {
    pub port: u16,
    pub job_duration_ms: u64,
    pub expected_status: String,
}

/// `{"type":"sleep","payload":"slow","duration_ms":<d>}`
pub open spec fn slow_body(duration: int) -> Seq<char> {
    sleep_body("slow"@, duration)
}

/// The path of a submitted job, from the `id` member of its POST answer.
pub fn submitted_job(id: Result<Option<String>, String>) -> (r: Result<String, String>)
    ensures
        match id_step(reading_view(id), "invalid JSON: "@, "missing id"@) {
            Ok(i) => r is Ok && r->Ok_0@ == job_path(i),
            Err(e) => r is Err && r->Err_0@ == e,
        },
{
    match id_of(id, "invalid JSON: ", "missing id") {
        Ok(i) => Ok(job_path_text(i.as_str())),
        Err(e) => Err(e),
    }
}

impl JobTimeoutVerified {
    pub fn new(job_duration_ms: u64, expected_status: &str) -> (r: Self)
        ensures
            r.port == SCENARIO_PORT,
            r.job_duration_ms == job_duration_ms,
            r.expected_status@ == expected_status@,
    {
        JobTimeoutVerified { port: SCENARIO_PORT, job_duration_ms, expected_status: lit(expected_status) }
    }

    /// The slow job; the caller waits 2000 ms before fetching it.
    pub fn submit_request(&self) -> (r: HttpRequest)
        ensures
            is_json_post(r, "/jobs"@, slow_body(self.job_duration_ms as int)),
    {
        json_post("/jobs", sleep_body_text("slow", self.job_duration_ms))
    }

    pub open spec fn judged(&self, state: Seq<char>) -> Result<Seq<char>, Seq<char>> {
        if state == self.expected_status@ {
            Ok("slow job timed out correctly, status: "@ + state)
        } else {
            Err("expected status '"@ + self.expected_status@ + "', got '"@ + state + "'"@)
        }
    }

    /// After fetching the job: its `status` member.
    pub fn conclude(&self, state: Result<Option<String>, String>) -> (r: Result<TestCase, String>)
        ensures
            match reading_view(state) {
                Err(e) => r is Err && r->Err_0@ == "invalid JSON: "@ + e,
                Ok(v) => r is Ok && case_is(r->Ok_0, "job timeout"@, self.judged(or_default(v, Seq::empty()))),
            },
    {
        let st = match state {
            Err(e) => {
                return Err(with_prefix("invalid JSON: ", e.as_str()));
            },
            Ok(v) => or_default_text(v, ""),
        };
        proof {
            reveal_strlit("");
            assert(""@ =~= Seq::<char>::empty());
        }
        let result = if st == self.expected_status {
            Ok(with_prefix("slow job timed out correctly, status: ", st.as_str()))
        } else {
            let mut m = lit("expected status '");
            m.append(self.expected_status.as_str());
            m.append("', got '");
            m.append(st.as_str());
            m.append("'");
            Err(m)
        };
        Ok(TestCase { name: lit("job timeout"), result })
    }
}

/// Submits a slow job and expects its failure reason to mention a text.
pub struct JobTimeoutReasonVerified {
    pub port: u16,
    pub expected_reason: String,
}

impl JobTimeoutReasonVerified {
    pub fn new(expected_reason: &str) -> (r: Self)
        ensures
            r.port == SCENARIO_PORT,
            r.expected_reason@ == expected_reason@,
    {
        JobTimeoutReasonVerified { port: SCENARIO_PORT, expected_reason: lit(expected_reason) }
    }

    /// A job that sleeps 5000 ms; the caller waits 2000 ms before fetching it.
    pub fn submit_request(&self) -> (r: HttpRequest)
        ensures
            is_json_post(r, "/jobs"@, slow_body(5000)),
    {
        json_post("/jobs", sleep_body_text("slow", 5000))
    }

    /// The members that may carry the reason, first present one wins.
    pub fn reason_keys(&self) -> (r: Vec<&'static str>)
        ensures
            r@.len() == 3,
            r@[0]@ == "error"@,
            r@[1]@ == "failure_reason"@,
            r@[2]@ == "reason"@,
    {
        let mut v: Vec<&'static str> = Vec::new();
        v.push("error");
        v.push("failure_reason");
        v.push("reason");
        v
    }

    pub open spec fn judged(&self, reason: Seq<char>) -> Result<Seq<char>, Seq<char>> {
        if contains(fold(reason), fold(self.expected_reason@)) {
            Ok("timeout reason correctly set: "@ + reason)
        } else {
            Err("expected reason containing '"@ + self.expected_reason@ + "', got '"@ + reason + "'"@)
        }
    }

    /// After fetching the job: the reason read from it.
    pub fn conclude(&self, reason: Result<Option<String>, String>) -> (r: Result<TestCase, String>)
        ensures
            match reading_view(reason) {
                Err(e) => r is Err && r->Err_0@ == "invalid JSON: "@ + e,
                Ok(v) => r is Ok && case_is(r->Ok_0, "job timeout reason"@, self.judged(or_default(v, Seq::empty()))),
            },
    {
        let why = match reason {
            Err(e) => {
                return Err(with_prefix("invalid JSON: ", e.as_str()));
            },
            Ok(v) => or_default_text(v, ""),
        };
        proof {
            reveal_strlit("");
            assert(""@ =~= Seq::<char>::empty());
        }
        let found = find(&fold_chars(&chars_of(why.as_str())), &fold_chars(&chars_of(self.expected_reason.as_str())));
        let result = if found.is_some() {
            Ok(with_prefix("timeout reason correctly set: ", why.as_str()))
        } else {
            let mut m = lit("expected reason containing '");
            m.append(self.expected_reason.as_str());
            m.append("', got '");
            m.append(why.as_str());
            m.append("'");
            Err(m)
        };
        Ok(TestCase { name: lit("job timeout reason"), result })
    }
}

// ---------------------------------------------------------------- retries

/// Submits a flaky job and expects a retry count to be reported.
pub struct JobRetryVerified {
    pub port: u16,
    pub job_type: String,
    pub max_retries: u32,
}

/// `{"type":"<t>","payload":"test","max_retries":<n>}`
pub open spec fn retry_body(t: Seq<char>, n: int) -> Seq<char> {
    "{\"type\":\""@ + t + "\",\"payload\":\"test\",\"max_retries\":"@ + dec(n) + "}"@
}

impl JobRetryVerified {
    pub fn new(job_type: &str, max_retries: u32) -> (r: Self)
        ensures
            r.port == SCENARIO_PORT,
            r.job_type@ == job_type@,
            r.max_retries == max_retries,
    {
        JobRetryVerified { port: SCENARIO_PORT, job_type: lit(job_type), max_retries }
    }

    /// The flaky job; the caller waits 5000 ms before fetching it.
    pub fn submit_request(&self) -> (r: HttpRequest)
        ensures
            is_json_post(r, "/jobs"@, retry_body(self.job_type@, self.max_retries as int)),
    {
        let mut b = lit("{\"type\":\"");
        b.append(self.job_type.as_str());
        b.append("\",\"payload\":\"test\",\"max_retries\":");
        b.append(dec_u64(self.max_retries as u64).as_str());
        b.append("}");
        json_post("/jobs", b)
    }

    /// The members that may carry the retry count, first present one wins.
    pub fn retry_keys(&self) -> (r: Vec<&'static str>)
        ensures
            r@.len() == 2,
            r@[0]@ == "retries"@,
            r@[1]@ == "retry_count"@,
    {
        let mut v: Vec<&'static str> = Vec::new();
        v.push("retries");
        v.push("retry_count");
        v
    }

    pub open spec fn judged(&self, retries: u64) -> Result<Seq<char>, Seq<char>> {
        if retries > 0 {
            Ok("job retry tracked: "@ + dec(retries as int) + " retries"@)
        } else {
            Err("job retries not tracked - expected retries > 0"@)
        }
    }

    /// After fetching the job: its retry count, if it has one.
    pub fn conclude(&self, retries: Result<Option<u64>, String>) -> (r: Result<TestCase, String>)
        ensures
            match retries {
                Err(e) => r is Err && r->Err_0@ == "invalid JSON: "@ + e@,
                Ok(v) => r is Ok && case_is(r->Ok_0, "job retry tracking"@, self.judged(match v {
                    Some(n) => n,
                    None => 0,
                })),
            },
    {
        let n: u64 = match retries {
            Err(e) => {
                return Err(with_prefix("invalid JSON: ", e.as_str()));
            },
            Ok(Some(n)) => n,
            Ok(None) => 0,
        };
        let result = if n > 0 {
            let mut m = lit("job retry tracked: ");
            m.append(dec_u64(n).as_str());
            m.append(" retries");
            Ok(m)
        } else {
            Err(lit("job retries not tracked - expected retries > 0"))
        };
        Ok(TestCase { name: lit("job retry tracking"), result })
    }
}

// ---------------------------------------------------------------- scaling

/// A worker count read from `GET /workers`: the `count` member, 0 when absent,
/// kept to its low 32 bits.
pub open spec fn worker_count(v: Option<u64>) -> u32 {
    match v {
        Some(n) => (n % 0x1_0000_0000) as u32,
        None => 0,
    }
}

pub fn read_worker_count(v: Option<u64>) -> (r: u32)
    ensures
        r == worker_count(v),
{
    match v {
        Some(n) => (n % 0x1_0000_0000) as u32,
        None => 0,
    }
}

/// Submits a burst of jobs and expects the pool to grow.
pub struct WorkerScaleUp {
    pub port: u16,
    pub initial_workers: u32,
    pub job_count: u32,
    pub expected_min_workers: u32,
}

impl WorkerScaleUp {
    pub fn new(initial_workers: u32, job_count: u32, expected_min_workers: u32) -> (r: Self)
        ensures
            r.port == SCENARIO_PORT,
            r.initial_workers == initial_workers,
            r.job_count == job_count,
            r.expected_min_workers == expected_min_workers,
    {
        WorkerScaleUp { port: SCENARIO_PORT, initial_workers, job_count, expected_min_workers }
    }

    /// The `i`-th job of the burst; answers are not looked at.
    pub fn burst_request(&self, i: u32) -> (r: HttpRequest)
        ensures
            is_json_post(r, "/jobs"@, sleep_body(dec(i as int), 2000)),
    {
        json_post("/jobs", sleep_body_text(dec_u64(i as u64).as_str(), 2000))
    }

    pub open spec fn judged(&self, initial: u32, last: u32) -> Result<Seq<char>, Seq<char>> {
        if last >= self.expected_min_workers {
            Ok("workers scaled from "@ + dec(initial as int) + " to "@ + dec(last as int) + " (expected >= "@ + dec(
                self.expected_min_workers as int,
            ) + ")"@)
        } else {
            Err("workers at "@ + dec(last as int) + " (expected >= "@ + dec(self.expected_min_workers as int) + ")"@)
        }
    }

    /// The case from the counts read before and after the burst (each the
    /// `count` member of `GET /workers`).
    pub fn conclude(&self, initial: Result<Option<u64>, String>, last: Result<Option<u64>, String>) -> (r: Result<TestCase, String>)
        ensures
            match (initial, last) {
                (Err(e), _) => r is Err && r->Err_0@ == "invalid JSON: "@ + e@,
                (Ok(_), Err(e)) => r is Err && r->Err_0@ == "invalid JSON: "@ + e@,
                (Ok(a), Ok(b)) => r is Ok && case_is(
                    r->Ok_0,
                    "worker scale up"@,
                    self.judged(worker_count(a), worker_count(b)),
                ),
            },
    {
        let a = match initial {
            Err(e) => {
                return Err(with_prefix("invalid JSON: ", e.as_str()));
            },
            Ok(v) => read_worker_count(v),
        };
        let b = match last {
            Err(e) => {
                return Err(with_prefix("invalid JSON: ", e.as_str()));
            },
            Ok(v) => read_worker_count(v),
        };
        let result = if b >= self.expected_min_workers {
            let mut m = lit("workers scaled from ");
            m.append(dec_u64(a as u64).as_str());
            m.append(" to ");
            m.append(dec_u64(b as u64).as_str());
            m.append(" (expected >= ");
            m.append(dec_u64(self.expected_min_workers as u64).as_str());
            m.append(")");
            Ok(m)
        } else {
            let mut m = lit("workers at ");
            m.append(dec_u64(b as u64).as_str());
            m.append(" (expected >= ");
            m.append(dec_u64(self.expected_min_workers as u64).as_str());
            m.append(")");
            Err(m)
        };
        Ok(TestCase { name: lit("worker scale up"), result })
    }
}

/// Forces a large pool, waits while idle, and expects it to shrink.
pub struct WorkerScaleDown {
    pub port: u16,
    pub initial_workers: u32,
    pub expected_max_workers: u32,
}

impl WorkerScaleDown {
    pub fn new(initial_workers: u32, expected_max_workers: u32) -> (r: Self)
        ensures
            r.port == SCENARIO_PORT,
            r.initial_workers == initial_workers,
            r.expected_max_workers == expected_max_workers,
    {
        WorkerScaleDown { port: SCENARIO_PORT, initial_workers, expected_max_workers }
    }

    /// The request that scales the pool up; the caller then waits 3000 ms.
    pub fn scale_request(&self) -> (r: HttpRequest)
        ensures
            r.method@ == "POST"@,
            r.path@ == "/workers/scale?count="@ + dec(self.initial_workers as int),
            r.headers@.len() == 0,
            r.body is None,
    {
        let path = with_prefix("/workers/scale?count=", dec_u64(self.initial_workers as u64).as_str());
        HttpRequest { method: lit("POST"), path, headers: Vec::new(), body: None }
    }

    pub open spec fn judged(&self, count: u32) -> Result<Seq<char>, Seq<char>> {
        if count <= self.expected_max_workers {
            Ok("workers scaled down to "@ + dec(count as int) + " (expected <= "@ + dec(self.expected_max_workers as int) + ")"@)
        } else {
            Err("workers still at "@ + dec(count as int) + " (expected <= "@ + dec(self.expected_max_workers as int) + ")"@)
        }
    }

    /// The case from the `count` member of `GET /workers` after the wait.
    pub fn conclude(&self, count: Result<Option<u64>, String>) -> (r: Result<TestCase, String>)
        ensures
            match count {
                Err(e) => r is Err && r->Err_0@ == "invalid JSON: "@ + e@,
                Ok(v) => r is Ok && case_is(r->Ok_0, "worker scale down"@, self.judged(worker_count(v))),
            },
    {
        let c = match count {
            Err(e) => {
                return Err(with_prefix("invalid JSON: ", e.as_str()));
            },
            Ok(v) => read_worker_count(v),
        };
        let mut m = if c <= self.expected_max_workers {
            lit("workers scaled down to ")
        } else {
            lit("workers still at ")
        };
        m.append(dec_u64(c as u64).as_str());
        m.append(" (expected <= ");
        m.append(dec_u64(self.expected_max_workers as u64).as_str());
        m.append(")");
        let result = if c <= self.expected_max_workers {
            Ok(m)
        } else {
            Err(m)
        };
        Ok(TestCase { name: lit("worker scale down"), result })
    }
}

// ---------------------------------------------------------------- single requests

/// Any method and path, with an optional JSON body, expecting a status.
pub struct HttpRequestWithBody {
    pub port: u16,
    pub method: String,
    pub path: String,
    pub body: Option<String>,
    pub expected_status: u16,
}

impl HttpRequestWithBody {
    pub fn new(method: &str, path: &str, body: Option<&str>, expected_status: u16) -> (r: Self)
        ensures
            r.port == SCENARIO_PORT,
            r.method@ == method@,
            r.path@ == path@,
            opt_view(r.body) == match body {
                Some(b) => Some(b@),
                None => None::<Seq<char>>,
            },
            r.expected_status == expected_status,
    {
        let b = match body {
            Some(t) => Some(lit(t)),
            None => None,
        };
        HttpRequestWithBody { port: SCENARIO_PORT, method: lit(method), path: lit(path), body: b, expected_status }
    }

    /// The request: a body goes with a JSON content type.
    pub fn request(&self) -> (r: HttpRequest)
        ensures
            r.method@ == self.method@,
            r.path@ == self.path@,
            opt_view(r.body) == opt_view(self.body),
            self.body is Some ==> pairs_view(r.headers@) == seq![("Content-Type"@, "application/json"@)],
            self.body is None ==> r.headers@.len() == 0,
    {
        let mut headers: Vec<(String, String)> = Vec::new();
        let body = match &self.body {
            Some(b) => {
                headers.push((lit("Content-Type"), lit("application/json")));
                assert(pairs_view(headers@) =~= seq![("Content-Type"@, "application/json"@)]);
                Some(b.clone())
            },
            None => None,
        };
        HttpRequest { method: self.method.clone(), path: self.path.clone(), headers, body }
    }

    pub open spec fn judged(&self, status: u16) -> Result<Seq<char>, Seq<char>> {
        if status == self.expected_status {
            Ok(self.method@ + " "@ + self.path@ + " returned "@ + dec(self.expected_status as int))
        } else {
            Err("expected "@ + dec(self.expected_status as int) + ", got "@ + dec(status as int))
        }
    }

    pub fn check(&self, status: u16) -> (r: TestCase)
        ensures
            case_is(
                r,
                self.method@ + " "@ + self.path@ + " → "@ + dec(self.expected_status as int),
                self.judged(status),
            ),
    {
        let e = dec_u64(self.expected_status as u64);
        let result = if status == self.expected_status {
            let mut m = lit(self.method.as_str());
            m.append(" ");
            m.append(self.path.as_str());
            m.append(" returned ");
            m.append(e.as_str());
            Ok(m)
        } else {
            let mut m = lit("expected ");
            m.append(e.as_str());
            m.append(", got ");
            m.append(dec_u64(status as u64).as_str());
            Err(m)
        };
        let mut name = lit(self.method.as_str());
        name.append(" ");
        name.append(self.path.as_str());
        name.append(" → ");
        name.append(e.as_str());
        TestCase { name, result }
    }
}

/// GET a path and expect a nested JSON field such as `workers.total` to exist.
pub struct HttpJsonFieldNested {
    pub port: u16,
    pub path: String,
    pub field_path: String,
}

impl HttpJsonFieldNested {
    pub fn new(path: &str, field_path: &str) -> (r: Self)
        ensures
            r.port == SCENARIO_PORT,
            r.path@ == path@,
            r.field_path@ == field_path@,
    {
        HttpJsonFieldNested { port: SCENARIO_PORT, path: lit(path), field_path: lit(field_path) }
    }

    pub fn request(&self) -> (r: HttpRequest)
        ensures
            r.method@ == "GET"@ && r.path@ == self.path@ && r.headers@.len() == 0 && r.body is None,
    {
        HttpRequest::plain("GET", self.path.as_str())
    }

    /// The case from whether the body has the field (or is not JSON).
    pub fn conclude(&self, found: Result<bool, String>) -> (r: Result<TestCase, String>)
        ensures
            match found {
                Err(e) => r is Err && r->Err_0@ == "invalid JSON: "@ + e@,
                Ok(b) => r is Ok && case_is(
                    r->Ok_0,
                    "JSON field: "@ + self.field_path@,
                    if b {
                        Ok::<Seq<char>, Seq<char>>("field '"@ + self.field_path@ + "' exists"@)
                    } else {
                        Err("field '"@ + self.field_path@ + "' not found"@)
                    },
                ),
            },
    {
        let b = match found {
            Err(e) => {
                return Err(with_prefix("invalid JSON: ", e.as_str()));
            },
            Ok(b) => b,
        };
        let mut m = lit("field '");
        m.append(self.field_path.as_str());
        let result = if b {
            m.append("' exists");
            Ok(m)
        } else {
            m.append("' not found");
            Err(m)
        };
        Ok(TestCase { name: with_prefix("JSON field: ", self.field_path.as_str()), result })
    }
}

/// GET a path, expect a status, then a string field with a value.
pub struct HttpHealthCheck {
    pub port: u16,
    pub path: String,
    pub expected_status: u16,
    pub expected_field: String,
    pub expected_value: String,
}

impl HttpHealthCheck {
    pub fn new(path: &str, expected_status: u16, field: &str, value: &str) -> (r: Self)
        ensures
            r.port == SCENARIO_PORT,
            r.path@ == path@,
            r.expected_status == expected_status,
            r.expected_field@ == field@,
            r.expected_value@ == value@,
    {
        HttpHealthCheck {
            port: SCENARIO_PORT,
            path: lit(path),
            expected_status,
            expected_field: lit(field),
            expected_value: lit(value),
        }
    }

    pub fn request(&self) -> (r: HttpRequest)
        ensures
            r.method@ == "GET"@ && r.path@ == self.path@ && r.headers@.len() == 0 && r.body is None,
    {
        HttpRequest::plain("GET", self.path.as_str())
    }

    pub open spec fn judged(&self, status: u16, value: Result<Option<Seq<char>>, Seq<char>>) -> Result<TestCaseView, Seq<char>> {
        let p = self.path@;
        let e = dec(self.expected_status as int);
        let f = self.expected_field@;
        let v = self.expected_value@;
        if status != self.expected_status {
            Ok(("GET "@ + p + " → "@ + e, Err(status_mismatch(self.expected_status, status))))
        } else {
            match value {
                Err(j) => Err("invalid JSON: "@ + j),
                Ok(a) => {
                    let actual = or_default(a, Seq::empty());
                    Ok((
                        "GET "@ + p + " → "@ + e + " ("@ + f + "="@ + v + ")"@,
                        if actual == v {
                            Ok("GET "@ + p + " returned "@ + e + " with "@ + f + "="@ + v)
                        } else {
                            Err("expected "@ + f + "='"@ + v + "', got '"@ + actual + "'"@)
                        },
                    ))
                },
            }
        }
    }

    /// The case from the status and the expected field read as a string.
    pub fn conclude(&self, status: u16, value: Result<Option<String>, String>) -> (r: Result<TestCase, String>)
        ensures
            match self.judged(status, reading_view(value)) {
                Ok(c) => r is Ok && case_is(r->Ok_0, c.0, c.1),
                Err(e) => r is Err && r->Err_0@ == e,
            },
    {
        let e = dec_u64(self.expected_status as u64);
        let mut name = lit("GET ");
        name.append(self.path.as_str());
        name.append(" → ");
        name.append(e.as_str());
        if status != self.expected_status {
            return Ok(TestCase { name, result: Err(status_mismatch_msg(self.expected_status, status)) });
        }
        let actual = match value {
            Err(j) => {
                return Err(with_prefix("invalid JSON: ", j.as_str()));
            },
            Ok(a) => or_default_text(a, ""),
        };
        proof {
            reveal_strlit("");
            assert(""@ =~= Seq::<char>::empty());
        }
        name.append(" (");
        name.append(self.expected_field.as_str());
        name.append("=");
        name.append(self.expected_value.as_str());
        name.append(")");
        let result = if actual == self.expected_value {
            let mut m = lit("GET ");
            m.append(self.path.as_str());
            m.append(" returned ");
            m.append(e.as_str());
            m.append(" with ");
            m.append(self.expected_field.as_str());
            m.append("=");
            m.append(self.expected_value.as_str());
            Ok(m)
        } else {
            let mut m = lit("expected ");
            m.append(self.expected_field.as_str());
            m.append("='");
            m.append(self.expected_value.as_str());
            m.append("', got '");
            m.append(actual.as_str());
            m.append("'");
            Err(m)
        };
        Ok(TestCase { name, result })
    }
}

/// GET a path and expect a (possibly nested) JSON field to read a value.
pub struct HttpJsonFieldValue {
    pub port: u16,
    pub path: String,
    pub field: String,
    pub expected_value: String,
}

impl HttpJsonFieldValue {
    pub fn new(path: &str, field: &str, expected_value: &str) -> (r: Self)
        ensures
            r.port == SCENARIO_PORT,
            r.path@ == path@,
            r.field@ == field@,
            r.expected_value@ == expected_value@,
    {
        HttpJsonFieldValue { port: SCENARIO_PORT, path: lit(path), field: lit(field), expected_value: lit(expected_value) }
    }

    pub fn request(&self) -> (r: HttpRequest)
        ensures
            r.method@ == "GET"@ && r.path@ == self.path@ && r.headers@.len() == 0 && r.body is None,
    {
        HttpRequest::plain("GET", self.path.as_str())
    }

    pub open spec fn judged(&self, actual: Seq<char>) -> Result<Seq<char>, Seq<char>> {
        let f = self.field@;
        let v = self.expected_value@;
        if actual == v {
            Ok("field '"@ + f + "' = '"@ + v + "'"@)
        } else {
            Err("field '"@ + f + "' expected '"@ + v + "', got '"@ + actual + "'"@)
        }
    }

    /// The case from the field's text (empty when absent).
    pub fn conclude(&self, value: Result<Option<String>, String>) -> (r: Result<TestCase, String>)
        ensures
            match reading_view(value) {
                Err(e) => r is Err && r->Err_0@ == "invalid JSON: "@ + e,
                Ok(a) => r is Ok && case_is(
                    r->Ok_0,
                    "GET "@ + self.path@ + " field '"@ + self.field@ + "' = '"@ + self.expected_value@ + "'"@,
                    self.judged(or_default(a, Seq::empty())),
                ),
            },
    {
        let actual = match value {
            Err(j) => {
                return Err(with_prefix("invalid JSON: ", j.as_str()));
            },
            Ok(a) => or_default_text(a, ""),
        };
        proof {
            reveal_strlit("");
            assert(""@ =~= Seq::<char>::empty());
        }
        let mut m = lit("field '");
        m.append(self.field.as_str());
        let result = if actual == self.expected_value {
            m.append("' = '");
            m.append(self.expected_value.as_str());
            m.append("'");
            Ok(m)
        } else {
            m.append("' expected '");
            m.append(self.expected_value.as_str());
            m.append("', got '");
            m.append(actual.as_str());
            m.append("'");
            Err(m)
        };
        let mut name = lit("GET ");
        name.append(self.path.as_str());
        name.append(" field '");
        name.append(self.field.as_str());
        name.append("' = '");
        name.append(self.expected_value.as_str());
        name.append("'");
        Ok(TestCase { name, result })
    }
}

/// GET a path and expect a status.
pub struct HttpStatusCheck {
    pub port: u16,
    pub path: String,
    pub expected_status: u16,
}

impl HttpStatusCheck {
    pub fn new(path: &str, expected_status: u16) -> (r: Self)
        ensures
            r.port == SCENARIO_PORT,
            r.path@ == path@,
            r.expected_status == expected_status,
    {
        HttpStatusCheck { port: SCENARIO_PORT, path: lit(path), expected_status }
    }

    pub fn request(&self) -> (r: HttpRequest)
        ensures
            r.method@ == "GET"@ && r.path@ == self.path@ && r.headers@.len() == 0 && r.body is None,
    {
        HttpRequest::plain("GET", self.path.as_str())
    }

    pub fn check(&self, status: u16) -> (r: TestCase)
        ensures
            case_is(
                r,
                "GET "@ + self.path@ + " → "@ + dec(self.expected_status as int),
                if status == self.expected_status {
                    Ok::<Seq<char>, Seq<char>>("GET "@ + self.path@ + " returned "@ + dec(self.expected_status as int))
                } else {
                    Err(status_mismatch(self.expected_status, status))
                },
            ),
    {
        let e = dec_u64(self.expected_status as u64);
        let mut name = lit("GET ");
        name.append(self.path.as_str());
        let mut m = lit("GET ");
        m.append(self.path.as_str());
        name.append(" → ");
        name.append(e.as_str());
        let result = if status == self.expected_status {
            m.append(" returned ");
            m.append(e.as_str());
            Ok(m)
        } else {
            Err(status_mismatch_msg(self.expected_status, status))
        };
        TestCase { name, result }
    }
}

} // verus!
