//! The protocol validators: each states the request it sends and how a
//! response is judged. Sending and receiving is left to the caller.
use vstd::prelude::*;
use crate::http::{
    join, join_strings, lookup, pairs_view, status_mismatch, status_mismatch_msg, HttpRequest,
    HttpResponse, DEFAULT_PORT,
};
use crate::json::{json_error, json_parse_error, json_text_at, member_text, strings_view};
use crate::results::{outcome_view, TestCase};
use crate::text::{dec, dec_u64, lit, fold, trim, trim_str, chars_of, fold_chars, same};

verus! {

pub open spec fn case_is(c: TestCase, name: Seq<char>, outcome: Result<Seq<char>, Seq<char>>) -> bool {
    c.name@ == name && c.outcome() == outcome
}

/// Problems found with a response to a GET: a wrong status, then a body that
/// (trimmed) differs from the one expected.
pub open spec fn get_errors(expected: u16, expected_body: Option<Seq<char>>, resp: (u16, Seq<char>)) -> Seq<Seq<char>> {
    (if resp.0 != expected {
        seq![status_mismatch(expected, resp.0)]
    } else {
        Seq::empty()
    }) + match expected_body {
        Some(b) => if trim(resp.1) != b {
            seq!["expected body '"@ + b + "', got '"@ + trim(resp.1) + "'"@]
        } else {
            Seq::empty()
        },
        None => Seq::empty(),
    }
}

pub open spec fn verdict(ok: Seq<char>, errors: Seq<Seq<char>>) -> Result<Seq<char>, Seq<char>> {
    if errors.len() == 0 {
        Ok(ok)
    } else {
        Err(join(errors, "; "@))
    }
}

fn get_check_errors(expected: u16, expected_body: &Option<String>, resp: &HttpResponse) -> (r: Vec<String>)
    ensures
        strings_view(r@) == get_errors(
            expected,
            crate::http::opt_view(*expected_body),
            (resp.status_code, resp.body@),
        ),
{
    let mut errors: Vec<String> = Vec::new();
    if resp.status_code != expected {
        errors.push(status_mismatch_msg(expected, resp.status_code));
    }
    let ghost first = strings_view(errors@);
    match expected_body {
        Some(b) => {
            let t = trim_str(resp.body.as_str());
            if t != *b {
                let mut m = lit("expected body '");
                m.append(b.as_str());
                m.append("', got '");
                m.append(t.as_str());
                m.append("'");
                errors.push(m);
                assert(strings_view(errors@) =~= first + seq![m@]);
            } else {
                assert(strings_view(errors@) =~= first + Seq::<Seq<char>>::empty());
            }
        },
        None => {
            assert(strings_view(errors@) =~= first + Seq::<Seq<char>>::empty());
        },
    }
    errors
}

fn verdict_of(ok: String, errors: Vec<String>) -> (r: Result<String, String>)
    ensures
        outcome_view(r) == verdict(ok@, strings_view(errors@)),
{
    if errors.len() == 0 {
        Ok(ok)
    } else {
        Err(join_strings(&errors, "; "))
    }
}

// ---------------------------------------------------------------- status

/// Checks that `GET /` answers with a given status.
pub struct HttpStatusValidator {
    pub port: u16,
    pub expected_status: u16,
}

impl HttpStatusValidator {
    pub fn new(expected_status: u16) -> (r: Self)
        ensures
            r.port == DEFAULT_PORT,
            r.expected_status == expected_status,
    {
        HttpStatusValidator { port: DEFAULT_PORT, expected_status }
    }

    pub fn request(&self) -> (r: HttpRequest)
        ensures
            r.method@ == "GET"@ && r.path@ == "/"@ && r.headers@.len() == 0 && r.body is None,
    {
        HttpRequest::plain("GET", "/")
    }

    pub open spec fn judged(&self, status: u16) -> Result<Seq<char>, Seq<char>> {
        if status == self.expected_status {
            Ok("server returned "@ + dec(self.expected_status as int) + " as expected"@)
        } else {
            Err(status_mismatch(self.expected_status, status))
        }
    }

    pub fn check(&self, resp: &HttpResponse) -> (r: TestCase)
        ensures
            case_is(r, "http response status "@ + dec(self.expected_status as int), self.judged(resp.status_code)),
    {
        let result = if resp.status_code == self.expected_status {
            let mut m = lit("server returned ");
            m.append(dec_u64(self.expected_status as u64).as_str());
            m.append(" as expected");
            Ok(m)
        } else {
            Err(status_mismatch_msg(self.expected_status, resp.status_code))
        };
        let mut name = lit("http response status ");
        name.append(dec_u64(self.expected_status as u64).as_str());
        TestCase { name, result }
    }
}

// ---------------------------------------------------------------- GET

/// Checks that `GET path` answers with a status and, optionally, a body
/// (compared after trimming).
pub struct HttpGetValidator {
    pub port: u16,
    pub path: String,
    pub expected_status: u16,
    pub expected_body: Option<String>,
}

impl HttpGetValidator {
    pub fn new(path: &str, expected_status: u16, expected_body: Option<String>) -> (r: Self)
        ensures
            r.port == DEFAULT_PORT,
            r.path@ == path@,
            r.expected_status == expected_status,
            r.expected_body == expected_body,
    {
        HttpGetValidator { port: DEFAULT_PORT, path: lit(path), expected_status, expected_body }
    }

    pub fn request(&self) -> (r: HttpRequest)
        ensures
            r.method@ == "GET"@ && r.path@ == self.path@ && r.headers@.len() == 0 && r.body is None,
    {
        HttpRequest::plain("GET", self.path.as_str())
    }

    pub open spec fn judged(&self, resp: (u16, Seq<char>)) -> Result<Seq<char>, Seq<char>> {
        verdict(
            "GET "@ + self.path@ + " returned "@ + dec(self.expected_status as int) + " OK"@,
            get_errors(self.expected_status, crate::http::opt_view(self.expected_body), resp),
        )
    }

    pub fn check(&self, resp: &HttpResponse) -> (r: TestCase)
        ensures
            case_is(
                r,
                "GET "@ + self.path@ + " returns "@ + dec(self.expected_status as int),
                self.judged((resp.status_code, resp.body@)),
            ),
    {
        let errors = get_check_errors(self.expected_status, &self.expected_body, resp);
        let mut ok = lit("GET ");
        ok.append(self.path.as_str());
        ok.append(" returned ");
        ok.append(dec_u64(self.expected_status as u64).as_str());
        ok.append(" OK");
        let result = verdict_of(ok, errors);
        let mut name = lit("GET ");
        name.append(self.path.as_str());
        name.append(" returns ");
        name.append(dec_u64(self.expected_status as u64).as_str());
        TestCase { name, result }
    }
}

// ---------------------------------------------------------------- headers

/// Checks that a response header is present, or absent.
pub struct HttpHeaderPresentValidator {
    pub port: u16,
    pub path: String,
    pub header_name: String,
    pub should_exist: bool,
}

impl HttpHeaderPresentValidator {
    pub fn new(header_name: &str, should_exist: bool) -> (r: Self)
        ensures
            r.port == DEFAULT_PORT,
            r.path@ == "/"@,
            r.header_name@ == header_name@,
            r.should_exist == should_exist,
    {
        HttpHeaderPresentValidator { port: DEFAULT_PORT, path: lit("/"), header_name: lit(header_name), should_exist }
    }

    /// The same check against another path.
    pub fn with_path(self, path: &str) -> (r: Self)
        ensures
            r.path@ == path@,
            r.port == self.port,
            r.header_name == self.header_name,
            r.should_exist == self.should_exist,
    {
        HttpHeaderPresentValidator { path: lit(path), ..self }
    }

    pub fn request(&self) -> (r: HttpRequest)
        ensures
            r.method@ == "GET"@ && r.path@ == self.path@ && r.headers@.len() == 0 && r.body is None,
    {
        HttpRequest::plain("GET", self.path.as_str())
    }

    pub open spec fn judged(&self, present: bool) -> Result<Seq<char>, Seq<char>> {
        let h = self.header_name@;
        if present == self.should_exist {
            if self.should_exist {
                Ok("header '"@ + h + "' is present"@)
            } else {
                Ok("header '"@ + h + "' is absent as expected"@)
            }
        } else if self.should_exist {
            Err("header '"@ + h + "' not found in response"@)
        } else {
            Err("header '"@ + h + "' should not be present"@)
        }
    }

    pub fn check(&self, resp: &HttpResponse) -> (r: TestCase)
        ensures
            case_is(
                r,
                "header '"@ + self.header_name@ + "' "@ + if self.should_exist {
                    "present"@
                } else {
                    "absent"@
                },
                self.judged(lookup(pairs_view(resp.headers@), fold(self.header_name@)) is Some),
            ),
    {
        let present = resp.has_header(self.header_name.as_str());
        let h = self.header_name.as_str();
        let mut m = lit("header '");
        m.append(h);
        let result = if present == self.should_exist {
            if self.should_exist {
                m.append("' is present");
            } else {
                m.append("' is absent as expected");
            }
            Ok(m)
        } else {
            if self.should_exist {
                m.append("' not found in response");
            } else {
                m.append("' should not be present");
            }
            Err(m)
        };
        let mut name = lit("header '");
        name.append(h);
        name.append("' ");
        name.append(if self.should_exist { "present" } else { "absent" });
        TestCase { name, result }
    }
}

/// Checks that a response header has an exact value.
pub struct HttpHeaderValueValidator {
    pub port: u16,
    pub path: String,
    pub header_name: String,
    pub expected_value: String,
}

impl HttpHeaderValueValidator {
    pub fn new(header_name: &str, expected_value: &str) -> (r: Self)
        ensures
            r.port == DEFAULT_PORT,
            r.path@ == "/"@,
            r.header_name@ == header_name@,
            r.expected_value@ == expected_value@,
    {
        HttpHeaderValueValidator {
            port: DEFAULT_PORT,
            path: lit("/"),
            header_name: lit(header_name),
            expected_value: lit(expected_value),
        }
    }

    pub fn request(&self) -> (r: HttpRequest)
        ensures
            r.method@ == "GET"@ && r.path@ == self.path@ && r.headers@.len() == 0 && r.body is None,
    {
        HttpRequest::plain("GET", self.path.as_str())
    }

    pub open spec fn judged(&self, value: Option<Seq<char>>) -> Result<Seq<char>, Seq<char>> {
        let h = self.header_name@;
        let e = self.expected_value@;
        match value {
            Some(v) => if v == e {
                Ok("header '"@ + h + "' has value '"@ + e + "'"@)
            } else {
                Err("header '"@ + h + "' expected '"@ + e + "', got '"@ + v + "'"@)
            },
            None => Err("header '"@ + h + "' not found"@),
        }
    }

    pub fn check(&self, resp: &HttpResponse) -> (r: TestCase)
        ensures
            case_is(
                r,
                "header '"@ + self.header_name@ + "' = '"@ + self.expected_value@ + "'"@,
                self.judged(lookup(pairs_view(resp.headers@), fold(self.header_name@))),
            ),
    {
        let h = self.header_name.as_str();
        let e = self.expected_value.as_str();
        let mut m = lit("header '");
        m.append(h);
        let result = match resp.get_header(h) {
            Some(v) => {
                if same(&chars_of(v), &chars_of(e)) {
                    m.append("' has value '");
                    m.append(e);
                    m.append("'");
                    Ok(m)
                } else {
                    m.append("' expected '");
                    m.append(e);
                    m.append("', got '");
                    m.append(v);
                    m.append("'");
                    Err(m)
                }
            },
            None => {
                m.append("' not found");
                Err(m)
            },
        };
        let mut name = lit("header '");
        name.append(h);
        name.append("' = '");
        name.append(e);
        name.append("'");
        TestCase { name, result }
    }
}

/// Checks a GET that carries one extra request header.
pub struct HttpGetWithHeaderValidator {
    pub port: u16,
    pub path: String,
    pub request_header: (String, String),
    pub expected_status: u16,
    pub expected_body: Option<String>,
}

impl HttpGetWithHeaderValidator {
    pub fn new(
        path: &str,
        header_name: &str,
        header_value: &str,
        expected_status: u16,
        expected_body: Option<String>,
    ) -> (r: Self)
        ensures
            r.port == DEFAULT_PORT,
            r.path@ == path@,
            r.request_header.0@ == header_name@,
            r.request_header.1@ == header_value@,
            r.expected_status == expected_status,
            r.expected_body == expected_body,
    {
        HttpGetWithHeaderValidator {
            port: DEFAULT_PORT,
            path: lit(path),
            request_header: (lit(header_name), lit(header_value)),
            expected_status,
            expected_body,
        }
    }

    pub fn request(&self) -> (r: HttpRequest)
        ensures
            r.method@ == "GET"@ && r.path@ == self.path@ && r.body is None,
            pairs_view(r.headers@) == seq![(self.request_header.0@, self.request_header.1@)],
    {
        let mut headers: Vec<(String, String)> = Vec::new();
        headers.push((self.request_header.0.clone(), self.request_header.1.clone()));
        assert(pairs_view(headers@) =~= seq![(self.request_header.0@, self.request_header.1@)]);
        HttpRequest { method: lit("GET"), path: self.path.clone(), headers, body: None }
    }

    pub open spec fn judged(&self, resp: (u16, Seq<char>)) -> Result<Seq<char>, Seq<char>> {
        verdict(
            "GET "@ + self.path@ + " with header "@ + self.request_header.0@ + "="@
                + self.request_header.1@ + " returned "@ + dec(self.expected_status as int) + " OK"@,
            get_errors(self.expected_status, crate::http::opt_view(self.expected_body), resp),
        )
    }

    pub fn check(&self, resp: &HttpResponse) -> (r: TestCase)
        ensures
            case_is(
                r,
                "GET "@ + self.path@ + " with "@ + self.request_header.0@ + ": "@ + self.request_header.1@,
                self.judged((resp.status_code, resp.body@)),
            ),
    {
        let errors = get_check_errors(self.expected_status, &self.expected_body, resp);
        let mut ok = lit("GET ");
        ok.append(self.path.as_str());
        ok.append(" with header ");
        ok.append(self.request_header.0.as_str());
        ok.append("=");
        ok.append(self.request_header.1.as_str());
        ok.append(" returned ");
        ok.append(dec_u64(self.expected_status as u64).as_str());
        ok.append(" OK");
        let result = verdict_of(ok, errors);
        let mut name = lit("GET ");
        name.append(self.path.as_str());
        name.append(" with ");
        name.append(self.request_header.0.as_str());
        name.append(": ");
        name.append(self.request_header.1.as_str());
        TestCase { name, result }
    }
}

// ---------------------------------------------------------------- fan-out

/// `errors` without repeats, each kept where it first occurs.
pub open spec fn distinct(errors: Seq<Seq<char>>) -> Seq<Seq<char>>
    decreases errors.len(),
{
    if errors.len() == 0 {
        Seq::empty()
    } else {
        let d = distinct(errors.drop_last());
        if d.contains(errors.last()) {
            d
        } else {
            d.push(errors.last())
        }
    }
}

/// At most the first three of `d`.
pub open spec fn first_three(d: Seq<Seq<char>>) -> Seq<Seq<char>> {
    if d.len() <= 3 {
        d
    } else {
        d.subrange(0, 3)
    }
}

/// Up to three distinct errors joined with "; ", then how many errors
/// were left out, if any.
pub open spec fn error_summary(errors: Seq<Seq<char>>, noun: Seq<char>) -> Seq<char> {
    let shown = first_three(distinct(errors));
    join(shown, "; "@) + if errors.len() > shown.len() {
        "; ... and "@ + dec(errors.len() - shown.len()) + " more "@ + noun
    } else {
        Seq::empty()
    }
}

fn holds_text(v: &Vec<String>, x: &String) -> (r: bool)
    ensures
        r == strings_view(v@).contains(x@),
{
    let mut k: usize = 0;
    while k < v.len()
        invariant
            k <= v@.len(),
            forall|j: int| 0 <= j < k ==> strings_view(v@)[j] != x@,
        decreases v@.len() - k,
    {
        if v[k] == *x {
            assert(strings_view(v@)[k as int] == x@);
            return true;
        }
        k = k + 1;
    }
    false
}

/// `errors` without repeats.
pub fn distinct_errors(errors: &Vec<String>) -> (r: Vec<String>)
    ensures
        strings_view(r@) == distinct(strings_view(errors@)),
{
    let ghost ev = strings_view(errors@);
    let mut d: Vec<String> = Vec::new();
    let mut k: usize = 0;
    while k < errors.len()
        invariant
            k <= errors@.len(),
            ev == strings_view(errors@),
            strings_view(d@) == distinct(ev.subrange(0, k as int)),
        decreases errors@.len() - k,
    {
        assert(ev.subrange(0, k + 1).drop_last() =~= ev.subrange(0, k as int));
        assert(ev.subrange(0, k + 1).last() == errors@[k as int]@);
        if !holds_text(&d, &errors[k]) {
            let c = errors[k].clone();
            let ghost before = strings_view(d@);
            d.push(c);
            assert(strings_view(d@) =~= before.push(c@));
        }
        k = k + 1;
    }
    assert(ev.subrange(0, k as int) =~= ev);
    d
}

pub fn error_summary_text(errors: &Vec<String>, noun: &str) -> (r: String)
    ensures
        r@ == error_summary(strings_view(errors@), noun@),
{
    let d = distinct_errors(errors);
    proof {
        lemma_distinct_len(strings_view(errors@));
    }
    let mut shown: Vec<String> = Vec::new();
    let mut k: usize = 0;
    while k < d.len() && k < 3
        invariant
            k <= d@.len(),
            k <= 3,
            strings_view(shown@) == strings_view(d@).subrange(0, k as int),
        decreases d@.len() - k,
    {
        let c = d[k].clone();
        let ghost before = strings_view(shown@);
        shown.push(c);
        assert(strings_view(shown@) =~= before.push(c@));
        assert(strings_view(d@).subrange(0, k + 1) =~= strings_view(d@).subrange(0, k as int).push(d@[k as int]@));
        k = k + 1;
    }
    if d.len() <= 3 {
        assert(strings_view(d@).subrange(0, k as int) =~= strings_view(d@));
    }
    let mut m = join_strings(&shown, "; ");
    if errors.len() > shown.len() {
        m.append("; ... and ");
        m.append(dec_u64((errors.len() - shown.len()) as u64).as_str());
        m.append(" more ");
        m.append(noun);
    } else {
        assert(m@ + Seq::<char>::empty() =~= m@);
    }
    m
}

proof fn lemma_distinct_len(e: Seq<Seq<char>>)
    ensures
        distinct(e).len() <= e.len(),
    decreases e.len(),
{
    if e.len() > 0 {
        lemma_distinct_len(e.drop_last());
    }
}

/// A list's first error is the first of its distinct errors.
pub proof fn lemma_distinct_first(e: Seq<Seq<char>>)
    requires
        e.len() > 0,
    ensures
        distinct(e).len() > 0,
        distinct(e)[0] == e[0],
    decreases e.len(),
{
    let d = distinct(e.drop_last());
    if e.len() > 1 {
        lemma_distinct_first(e.drop_last());
        assert(e.drop_last()[0] == e[0]);
        if !d.contains(e.last()) {
            assert(d.push(e.last())[0] == d[0]);
        }
    } else {
        assert(e.drop_last() =~= Seq::<Seq<char>>::empty());
        assert(d =~= Seq::<Seq<char>>::empty());
        assert(!d.contains(e.last()));
        assert(d.push(e.last())[0] == e.last());
    }
}

/// What one connection of a fan-out contributes: its index, or its error.
pub open spec fn successes(outcomes: Seq<Result<u32, String>>) -> nat
    decreases outcomes.len(),
{
    if outcomes.len() == 0 {
        0
    } else {
        successes(outcomes.drop_last()) + if outcomes.last() is Ok {
            1nat
        } else {
            0nat
        }
    }
}

/// The error messages of a fan-out, in order.
pub open spec fn failures(outcomes: Seq<Result<u32, String>>) -> Seq<Seq<char>>
    decreases outcomes.len(),
{
    if outcomes.len() == 0 {
        Seq::empty()
    } else {
        failures(outcomes.drop_last()) + match outcomes.last() {
            Ok(_) => Seq::empty(),
            Err(e) => seq![e@],
        }
    }
}

/// Opens several connections at once and expects each to answer with a status.
pub struct ConcurrentRequestsValidator {
    pub port: u16,
    pub num_connections: u32,
    pub path: String,
    pub expected_status: u16,
}

impl ConcurrentRequestsValidator {
    pub fn new(num_connections: u32, path: &str, expected_status: u16) -> (r: Self)
        ensures
            r.port == DEFAULT_PORT,
            r.num_connections == num_connections,
            r.path@ == path@,
            r.expected_status == expected_status,
    {
        ConcurrentRequestsValidator { port: DEFAULT_PORT, num_connections, path: lit(path), expected_status }
    }

    /// The request every connection sends.
    pub fn request(&self) -> (r: HttpRequest)
        ensures
            r.method@ == "GET"@ && r.path@ == self.path@ && r.headers@.len() == 0 && r.body is None,
    {
        HttpRequest::plain("GET", self.path.as_str())
    }

    pub open spec fn connection_error(&self, index: u32, got: u16) -> Seq<char> {
        "connection "@ + dec(index as int) + " got status "@ + dec(got as int) + " instead of "@ + dec(
            self.expected_status as int,
        )
    }

    /// How connection `index` fared, given the status it received.
    pub fn connection_outcome(&self, index: u32, status: u16) -> (r: Result<u32, String>)
        ensures
            status == self.expected_status ==> r == Ok::<u32, String>(index),
            status != self.expected_status ==> r is Err && r->Err_0@ == self.connection_error(index, status),
    {
        if status == self.expected_status {
            Ok(index)
        } else {
            let mut m = lit("connection ");
            m.append(dec_u64(index as u64).as_str());
            m.append(" got status ");
            m.append(dec_u64(status as u64).as_str());
            m.append(" instead of ");
            m.append(dec_u64(self.expected_status as u64).as_str());
            Err(m)
        }
    }

    pub open spec fn judged(&self, outcomes: Seq<Result<u32, String>>) -> Result<Seq<char>, Seq<char>> {
        let n = self.num_connections as int;
        if successes(outcomes) == n {
            Ok("all "@ + dec(n) + " concurrent requests succeeded"@)
        } else {
            Err(dec(successes(outcomes) as int) + "/"@ + dec(n) + " succeeded. "@ + error_summary(
                failures(outcomes),
                "errors"@,
            ))
        }
    }

    /// The aggregate case once every connection has settled.
    pub fn conclude(&self, outcomes: &Vec<Result<u32, String>>) -> (r: TestCase)
        ensures
            case_is(r, dec(self.num_connections as int) + " concurrent requests"@, self.judged(outcomes@)),
    {
        let (ok_count, errors) = tally(outcomes);
        let n = self.num_connections as u64;
        let result = if ok_count as u64 == n {
            let mut m = lit("all ");
            m.append(dec_u64(n).as_str());
            m.append(" concurrent requests succeeded");
            Ok(m)
        } else {
            let mut m = dec_u64(ok_count as u64);
            m.append("/");
            m.append(dec_u64(n).as_str());
            m.append(" succeeded. ");
            m.append(error_summary_text(&errors, "errors").as_str());
            Err(m)
        };
        let mut name = dec_u64(n);
        name.append(" concurrent requests");
        TestCase { name, result }
    }
}

/// Counts the successes of a fan-out and collects its errors in order.
pub fn tally(outcomes: &Vec<Result<u32, String>>) -> (r: (usize, Vec<String>))
    ensures
        r.0 == successes(outcomes@),
        strings_view(r.1@) == failures(outcomes@),
{
    let mut n: usize = 0;
    let mut errors: Vec<String> = Vec::new();
    let mut k: usize = 0;
    while k < outcomes.len()
        invariant
            k <= outcomes@.len(),
            n == successes(outcomes@.subrange(0, k as int)),
            n <= k,
            strings_view(errors@) == failures(outcomes@.subrange(0, k as int)),
        decreases outcomes@.len() - k,
    {
        assert(outcomes@.subrange(0, k + 1).drop_last() =~= outcomes@.subrange(0, k as int));
        match &outcomes[k] {
            Ok(_) => {
                n = n + 1;
                assert(strings_view(errors@) =~= strings_view(errors@) + Seq::<Seq<char>>::empty());
            },
            Err(e) => {
                let ghost before = strings_view(errors@);
                errors.push(e.clone());
                assert(strings_view(errors@) =~= before + seq![e@]);
            },
        }
        k = k + 1;
    }
    assert(outcomes@.subrange(0, k as int) =~= outcomes@);
    (n, errors)
}

// ---------------------------------------------------------------- files

/// Checks that POSTing a body to a path answers with a status.
pub struct HttpPostFileValidator {
    pub port: u16,
    pub path: String,
    pub body: String,
    pub expected_status: u16,
}

impl HttpPostFileValidator {
    pub fn new(path: &str, body: &str, expected_status: u16) -> (r: Self)
        ensures
            r.port == DEFAULT_PORT,
            r.path@ == path@,
            r.body@ == body@,
            r.expected_status == expected_status,
    {
        HttpPostFileValidator { port: DEFAULT_PORT, path: lit(path), body: lit(body), expected_status }
    }

    pub fn request(&self) -> (r: HttpRequest)
        ensures
            r.method@ == "POST"@ && r.path@ == self.path@ && r.headers@.len() == 0,
            r.body is Some && r.body->0@ == self.body@,
    {
        HttpRequest {
            method: lit("POST"),
            path: self.path.clone(),
            headers: Vec::new(),
            body: Some(self.body.clone()),
        }
    }

    pub open spec fn judged(&self, status: u16) -> Result<Seq<char>, Seq<char>> {
        if status == self.expected_status {
            Ok("POST "@ + self.path@ + " returned "@ + dec(self.expected_status as int) + " as expected"@)
        } else {
            Err(status_mismatch(self.expected_status, status))
        }
    }

    pub fn check(&self, resp: &HttpResponse) -> (r: TestCase)
        ensures
            case_is(
                r,
                "POST "@ + self.path@ + " returns "@ + dec(self.expected_status as int),
                self.judged(resp.status_code),
            ),
    {
        let result = post_status_result(self.path.as_str(), self.expected_status, resp.status_code);
        TestCase { name: post_name(self.path.as_str(), self.expected_status), result }
    }
}

fn post_status_result(path: &str, expected: u16, got: u16) -> (r: Result<String, String>)
    ensures
        outcome_view(r) == if got == expected {
            Ok::<Seq<char>, Seq<char>>("POST "@ + path@ + " returned "@ + dec(expected as int) + " as expected"@)
        } else {
            Err(status_mismatch(expected, got))
        },
{
    if got == expected {
        let mut m = lit("POST ");
        m.append(path);
        m.append(" returned ");
        m.append(dec_u64(expected as u64).as_str());
        m.append(" as expected");
        Ok(m)
    } else {
        Err(status_mismatch_msg(expected, got))
    }
}

fn post_name(path: &str, expected: u16) -> (r: String)
    ensures
        r@ == "POST "@ + path@ + " returns "@ + dec(expected as int),
{
    let mut name = lit("POST ");
    name.append(path);
    name.append(" returns ");
    name.append(dec_u64(expected as u64).as_str());
    name
}

/// Checks that a file is served with a status.
pub struct HttpGetFileValidator {
    pub port: u16,
    pub path: String,
    pub expected_status: u16,
}

impl HttpGetFileValidator {
    pub fn new(path: &str, expected_status: u16) -> (r: Self)
        ensures
            r.port == DEFAULT_PORT,
            r.path@ == path@,
            r.expected_status == expected_status,
    {
        HttpGetFileValidator { port: DEFAULT_PORT, path: lit(path), expected_status }
    }

    pub fn request(&self) -> (r: HttpRequest)
        ensures
            r.method@ == "GET"@ && r.path@ == self.path@ && r.headers@.len() == 0 && r.body is None,
    {
        HttpRequest::plain("GET", self.path.as_str())
    }

    pub open spec fn judged(&self, status: u16, length: Option<Seq<char>>) -> Result<Seq<char>, Seq<char>> {
        if status == self.expected_status {
            Ok("GET "@ + self.path@ + " returned "@ + dec(self.expected_status as int) + match length {
                Some(l) => " ("@ + l + " bytes)"@,
                None => Seq::empty(),
            } + " OK"@)
        } else {
            Err(status_mismatch(self.expected_status, status))
        }
    }

    pub fn check(&self, resp: &HttpResponse) -> (r: TestCase)
        ensures
            case_is(
                r,
                "GET file "@ + self.path@ + " returns "@ + dec(self.expected_status as int),
                self.judged(resp.status_code, lookup(pairs_view(resp.headers@), fold("content-length"@))),
            ),
    {
        let result = if resp.status_code == self.expected_status {
            let mut m = lit("GET ");
            m.append(self.path.as_str());
            m.append(" returned ");
            m.append(dec_u64(self.expected_status as u64).as_str());
            let info = match resp.get_header("content-length") {
                Some(l) => {
                    let mut i = lit(" (");
                    i.append(l);
                    i.append(" bytes)");
                    i
                },
                None => String::new(),
            };
            m.append(info.as_str());
            m.append(" OK");
            Ok(m)
        } else {
            Err(status_mismatch_msg(self.expected_status, resp.status_code))
        };
        let mut name = lit("GET file ");
        name.append(self.path.as_str());
        name.append(" returns ");
        name.append(dec_u64(self.expected_status as u64).as_str());
        TestCase { name, result }
    }
}

/// Checks that the server answers with the content encoding it was offered.
pub struct HttpGetCompressedValidator {
    pub port: u16,
    pub path: String,
    pub encoding: String,
}

impl HttpGetCompressedValidator {
    pub fn new(path: &str, encoding: &str) -> (r: Self)
        ensures
            r.port == DEFAULT_PORT,
            r.path@ == path@,
            r.encoding@ == encoding@,
    {
        HttpGetCompressedValidator { port: DEFAULT_PORT, path: lit(path), encoding: lit(encoding) }
    }

    pub fn request(&self) -> (r: HttpRequest)
        ensures
            r.method@ == "GET"@ && r.path@ == self.path@ && r.body is None,
            pairs_view(r.headers@) == seq![("Accept-Encoding"@, self.encoding@)],
    {
        let mut headers: Vec<(String, String)> = Vec::new();
        headers.push((lit("Accept-Encoding"), self.encoding.clone()));
        assert(pairs_view(headers@) =~= seq![("Accept-Encoding"@, self.encoding@)]);
        HttpRequest { method: lit("GET"), path: self.path.clone(), headers, body: None }
    }

    pub open spec fn judged(&self, actual: Option<Seq<char>>) -> Result<Seq<char>, Seq<char>> {
        let e = self.encoding@;
        match actual {
            Some(a) => if fold(a) == fold(e) {
                Ok("server returned Content-Encoding: "@ + e)
            } else {
                Err("expected Content-Encoding '"@ + e + "', got '"@ + a + "'"@)
            },
            None => Err("Content-Encoding header not present, expected '"@ + e + "'"@),
        }
    }

    pub fn check(&self, resp: &HttpResponse) -> (r: TestCase)
        ensures
            case_is(
                r,
                "GET "@ + self.path@ + " with compression "@ + self.encoding@,
                self.judged(lookup(pairs_view(resp.headers@), fold("content-encoding"@))),
            ),
    {
        let e = self.encoding.as_str();
        let result = match resp.get_header("content-encoding") {
            Some(a) => {
                if same(&fold_chars(&chars_of(a)), &fold_chars(&chars_of(e))) {
                    let mut m = lit("server returned Content-Encoding: ");
                    m.append(e);
                    Ok(m)
                } else {
                    let mut m = lit("expected Content-Encoding '");
                    m.append(e);
                    m.append("', got '");
                    m.append(a);
                    m.append("'");
                    Err(m)
                }
            },
            None => {
                let mut m = lit("Content-Encoding header not present, expected '");
                m.append(e);
                m.append("'");
                Err(m)
            },
        };
        let mut name = lit("GET ");
        name.append(self.path.as_str());
        name.append(" with compression ");
        name.append(e);
        TestCase { name, result }
    }
}

// ---------------------------------------------------------------- JSON

/// Field names as a bracketed list of quoted names.
pub open spec fn quoted_list(fields: Seq<Seq<char>>) -> Seq<char> {
    "["@ + join(fields.map_values(|f: Seq<char>| "\""@ + f + "\""@), ", "@) + "]"@
}

pub fn quoted_list_text(fields: &Vec<String>) -> (r: String)
    ensures
        r@ == quoted_list(strings_view(fields@)),
{
    let mut quoted: Vec<String> = Vec::new();
    let mut k: usize = 0;
    while k < fields.len()
        invariant
            k <= fields@.len(),
            strings_view(quoted@) == strings_view(fields@).subrange(0, k as int).map_values(
                |f: Seq<char>| "\""@ + f + "\""@,
            ),
        decreases fields@.len() - k,
    {
        let mut q = lit("\"");
        q.append(fields[k].as_str());
        q.append("\"");
        let ghost before = strings_view(quoted@);
        quoted.push(q);
        assert(strings_view(quoted@) =~= before.push(q@));
        assert(strings_view(fields@).subrange(0, k + 1).map_values(|f: Seq<char>| "\""@ + f + "\""@)
            =~= strings_view(fields@).subrange(0, k as int).map_values(
            |f: Seq<char>| "\""@ + f + "\""@,
        ).push(q@));
        k = k + 1;
    }
    assert(strings_view(fields@).subrange(0, k as int) =~= strings_view(fields@));
    let mut m = lit("[");
    m.append(join_strings(&quoted, ", ").as_str());
    m.append("]");
    m
}

/// The error for a body that is not JSON.
pub open spec fn invalid_json(body: Seq<char>) -> Seq<char> {
    "invalid JSON response: "@ + json_parse_error(body)->0
}

/// Checks that a JSON response has every one of a list of top-level fields.
pub struct HttpJsonExistsValidator {
    pub port: u16,
    pub path: String,
    pub method: String,
    pub fields: Vec<String>,
}

impl HttpJsonExistsValidator {
    pub fn new(path: &str, method: &str, fields: Vec<String>) -> (r: Self)
        ensures
            r.port == DEFAULT_PORT,
            r.path@ == path@,
            r.method@ == method@,
            r.fields@ == fields@,
    {
        HttpJsonExistsValidator { port: DEFAULT_PORT, path: lit(path), method: lit(method), fields }
    }

    pub fn request(&self) -> (r: HttpRequest)
        ensures
            r.method@ == self.method@ && r.path@ == self.path@ && r.headers@.len() == 0 && r.body is None,
    {
        HttpRequest::plain(self.method.as_str(), self.path.as_str())
    }

    pub open spec fn case_name(&self) -> Seq<char> {
        self.method@ + " "@ + self.path@ + " returns JSON with "@ + quoted_list(strings_view(self.fields@))
    }

    pub open spec fn judged(&self, missing: Seq<Seq<char>>) -> Result<Seq<char>, Seq<char>> {
        if missing.len() == 0 {
            Ok("JSON response contains all required fields: "@ + quoted_list(strings_view(self.fields@)))
        } else {
            Err("missing required fields: "@ + quoted_list(missing))
        }
    }

    /// The case for a document that lacks the fields `missing`.
    pub fn conclude(&self, missing: &Vec<String>) -> (r: TestCase)
        ensures
            case_is(r, self.case_name(), self.judged(strings_view(missing@))),
    {
        let result = if missing.len() == 0 {
            let mut m = lit("JSON response contains all required fields: ");
            m.append(quoted_list_text(&self.fields).as_str());
            Ok(m)
        } else {
            let mut m = lit("missing required fields: ");
            m.append(quoted_list_text(missing).as_str());
            Err(m)
        };
        let mut name = lit(self.method.as_str());
        name.append(" ");
        name.append(self.path.as_str());
        name.append(" returns JSON with ");
        name.append(quoted_list_text(&self.fields).as_str());
        TestCase { name, result }
    }

    /// Reads the body as JSON and looks each field up; a body that is not
    /// JSON is an error rather than a failed case.
    pub fn check(&self, resp: &HttpResponse) -> (r: Result<TestCase, String>)
        ensures
            r is Err <==> json_parse_error(resp.body@) is Some,
            r is Err ==> r->Err_0@ == invalid_json(resp.body@),
            r is Ok ==> case_is(
                r->Ok_0,
                self.case_name(),
                self.judged(missing_fields(resp.body@, strings_view(self.fields@))),
            ),
    {
        let body = resp.body.as_str();
        match json_error(body) {
            Some(e) => {
                let mut m = lit("invalid JSON response: ");
                m.append(e.as_str());
                return Err(m);
            },
            None => {},
        }
        let ghost fv = strings_view(self.fields@);
        let mut missing: Vec<String> = Vec::new();
        let mut k: usize = 0;
        while k < self.fields.len()
            invariant
                k <= self.fields@.len(),
                fv == strings_view(self.fields@),
                json_parse_error(body@) is None,
                strings_view(missing@) == missing_fields(body@, fv.subrange(0, k as int)),
            decreases self.fields@.len() - k,
        {
            assert(fv.subrange(0, k + 1).drop_last() =~= fv.subrange(0, k as int));
            assert(fv.subrange(0, k + 1).last() == self.fields@[k as int]@);
            match member_text(body, self.fields[k].as_str()) {
                Ok(None) => {
                    let f = self.fields[k].clone();
                    let ghost before = strings_view(missing@);
                    missing.push(f);
                    assert(strings_view(missing@) =~= before + seq![f@]);
                },
                Ok(Some(_)) => {
                    assert(strings_view(missing@) =~= strings_view(missing@) + Seq::<Seq<char>>::empty());
                },
                Err(e) => {
                    return Err(e);
                },
            }
            k = k + 1;
        }
        assert(fv.subrange(0, k as int) =~= fv);
        Ok(self.conclude(&missing))
    }
}

/// The fields among `fields` that the JSON document `body` does not have, in order.
pub open spec fn missing_fields(body: Seq<char>, fields: Seq<Seq<char>>) -> Seq<Seq<char>>
    decreases fields.len(),
{
    if fields.len() == 0 {
        Seq::empty()
    } else {
        missing_fields(body, fields.drop_last()) + if json_text_at(body, seq![fields.last()]) is None {
            seq![fields.last()]
        } else {
            Seq::empty()
        }
    }
}

/// Checks that a top-level JSON field has an exact value (strings compared by
/// contents, other values by their JSON text).
pub struct HttpJsonFieldValidator {
    pub port: u16,
    pub path: String,
    pub method: String,
    pub field: String,
    pub expected_value: String,
}

impl HttpJsonFieldValidator {
    pub fn new(path: &str, method: &str, field: &str, expected_value: &str) -> (r: Self)
        ensures
            r.port == DEFAULT_PORT,
            r.path@ == path@,
            r.method@ == method@,
            r.field@ == field@,
            r.expected_value@ == expected_value@,
    {
        HttpJsonFieldValidator {
            port: DEFAULT_PORT,
            path: lit(path),
            method: lit(method),
            field: lit(field),
            expected_value: lit(expected_value),
        }
    }

    pub fn request(&self) -> (r: HttpRequest)
        ensures
            r.method@ == self.method@ && r.path@ == self.path@ && r.headers@.len() == 0 && r.body is None,
    {
        HttpRequest::plain(self.method.as_str(), self.path.as_str())
    }

    pub open spec fn case_name(&self) -> Seq<char> {
        self.method@ + " "@ + self.path@ + " field '"@ + self.field@ + "' = '"@ + self.expected_value@ + "'"@
    }

    pub open spec fn judged(&self, value: Option<Seq<char>>) -> Result<Seq<char>, Seq<char>> {
        let f = self.field@;
        let e = self.expected_value@;
        match value {
            Some(v) => if v == e {
                Ok("field '"@ + f + "' has expected value '"@ + e + "'"@)
            } else {
                Err("field '"@ + f + "' expected '"@ + e + "', got '"@ + v + "'"@)
            },
            None => Err("field '"@ + f + "' not found in JSON response"@),
        }
    }

    /// The case for a field whose text is `value`, or that is absent.
    pub fn conclude(&self, value: Option<String>) -> (r: TestCase)
        ensures
            case_is(r, self.case_name(), self.judged(crate::http::opt_view(value))),
    {
        let f = self.field.as_str();
        let e = self.expected_value.as_str();
        let mut m = lit("field '");
        m.append(f);
        let result = match value {
            Some(v) => {
                if v == self.expected_value {
                    m.append("' has expected value '");
                    m.append(e);
                    m.append("'");
                    Ok(m)
                } else {
                    m.append("' expected '");
                    m.append(e);
                    m.append("', got '");
                    m.append(v.as_str());
                    m.append("'");
                    Err(m)
                }
            },
            None => {
                m.append("' not found in JSON response");
                Err(m)
            },
        };
        let mut name = lit(self.method.as_str());
        name.append(" ");
        name.append(self.path.as_str());
        name.append(" field '");
        name.append(f);
        name.append("' = '");
        name.append(e);
        name.append("'");
        TestCase { name, result }
    }

    pub fn check(&self, resp: &HttpResponse) -> (r: Result<TestCase, String>)
        ensures
            r is Err <==> json_parse_error(resp.body@) is Some,
            r is Err ==> r->Err_0@ == invalid_json(resp.body@),
            r is Ok ==> case_is(
                r->Ok_0,
                self.case_name(),
                self.judged(json_text_at(resp.body@, seq![self.field@])),
            ),
    {
        match member_text(resp.body.as_str(), self.field.as_str()) {
            Ok(value) => Ok(self.conclude(value)),
            Err(e) => {
                let mut m = lit("invalid JSON response: ");
                m.append(e.as_str());
                Err(m)
            },
        }
    }
}

/// Checks a JSON POST: its status and, optionally, one field of the answer.
pub struct HttpPostJsonValidator {
    pub port: u16,
    pub path: String,
    pub body: String,
    pub expected_status: u16,
    pub expected_field: Option<(String, String)>,
}

/// What was read of the expected field: the body was not JSON (its error),
/// or the field's text, if present.
pub type FieldReading = Result<Option<Seq<char>>, Seq<char>>;

pub open spec fn reading_view(r: Result<Option<String>, String>) -> FieldReading {
    match r {
        Ok(o) => Ok(crate::http::opt_view(o)),
        Err(e) => Err(e@),
    }
}

/// The complaint about an expected JSON field, if any.
pub open spec fn field_error(f: Seq<char>, e: Seq<char>, reading: FieldReading) -> Option<Seq<char>> {
    match reading {
        Err(j) => Some("invalid JSON response: "@ + j),
        Ok(None) => Some("field '"@ + f + "' not found in response"@),
        Ok(Some(v)) => if v != e {
            Some("field '"@ + f + "' expected '"@ + e + "', got '"@ + v + "'"@)
        } else {
            None
        },
    }
}

fn field_error_text(f: &String, e: &String, reading: Result<Option<String>, String>) -> (r: Option<String>)
    ensures
        crate::http::opt_view(r) == field_error(f@, e@, reading_view(reading)),
{
    match reading {
        Err(j) => {
            let mut m = lit("invalid JSON response: ");
            m.append(j.as_str());
            Some(m)
        },
        Ok(None) => {
            let mut m = lit("field '");
            m.append(f.as_str());
            m.append("' not found in response");
            Some(m)
        },
        Ok(Some(v)) => {
            if v != *e {
                let mut m = lit("field '");
                m.append(f.as_str());
                m.append("' expected '");
                m.append(e.as_str());
                m.append("', got '");
                m.append(v.as_str());
                m.append("'");
                Some(m)
            } else {
                None
            }
        },
    }
}

impl HttpPostJsonValidator {
    pub fn new(path: &str, body: &str, expected_status: u16) -> (r: Self)
        ensures
            r.port == DEFAULT_PORT,
            r.path@ == path@,
            r.body@ == body@,
            r.expected_status == expected_status,
            r.expected_field is None,
    {
        HttpPostJsonValidator {
            port: DEFAULT_PORT,
            path: lit(path),
            body: lit(body),
            expected_status,
            expected_field: None,
        }
    }

    /// The same check, also expecting `field` to read `value`.
    pub fn with_expected_field(self, field: &str, value: &str) -> (r: Self)
        ensures
            r.expected_field is Some,
            crate::http::pair_view(r.expected_field->0) == (field@, value@),
            r.port == self.port && r.path == self.path && r.body == self.body,
            r.expected_status == self.expected_status,
    {
        HttpPostJsonValidator { expected_field: Some((lit(field), lit(value))), ..self }
    }

    pub fn request(&self) -> (r: HttpRequest)
        ensures
            r.method@ == "POST"@ && r.path@ == self.path@,
            pairs_view(r.headers@) == seq![("Content-Type"@, "application/json"@)],
            r.body is Some && r.body->0@ == self.body@,
    {
        let mut headers: Vec<(String, String)> = Vec::new();
        headers.push((lit("Content-Type"), lit("application/json")));
        assert(pairs_view(headers@) =~= seq![("Content-Type"@, "application/json"@)]);
        HttpRequest { method: lit("POST"), path: self.path.clone(), headers, body: Some(self.body.clone()) }
    }

    pub open spec fn errors(&self, status: u16, reading: FieldReading) -> Seq<Seq<char>> {
        (if status != self.expected_status {
            seq![status_mismatch(self.expected_status, status)]
        } else {
            Seq::empty()
        }) + match self.expected_field {
            None => Seq::empty(),
            Some(fv) => match field_error(fv.0@, fv.1@, reading) {
                Some(m) => seq![m],
                None => Seq::empty(),
            },
        }
    }

    pub open spec fn judged(&self, status: u16, reading: FieldReading) -> Result<Seq<char>, Seq<char>> {
        verdict(
            "POST "@ + self.path@ + " returned "@ + dec(self.expected_status as int) + " as expected"@,
            self.errors(status, reading),
        )
    }

    /// The case for a response with `status`, the field read as `reading`.
    pub fn conclude(&self, status: u16, reading: Result<Option<String>, String>) -> (r: TestCase)
        ensures
            case_is(
                r,
                "POST "@ + self.path@ + " returns "@ + dec(self.expected_status as int),
                self.judged(status, reading_view(reading)),
            ),
    {
        let mut errors: Vec<String> = Vec::new();
        if status != self.expected_status {
            errors.push(status_mismatch_msg(self.expected_status, status));
            assert(strings_view(errors@) =~= seq![status_mismatch(self.expected_status, status)]);
        } else {
            assert(strings_view(errors@) =~= Seq::<Seq<char>>::empty());
        }
        let ghost first = strings_view(errors@);
        match &self.expected_field {
            None => {
                assert(strings_view(errors@) =~= first + Seq::<Seq<char>>::empty());
            },
            Some((f, e)) => {
                match field_error_text(f, e, reading) {
                    Some(m) => {
                        errors.push(m);
                        assert(strings_view(errors@) =~= first + seq![m@]);
                    },
                    None => {
                        assert(strings_view(errors@) =~= first + Seq::<Seq<char>>::empty());
                    },
                }
            },
        }
        let mut ok = lit("POST ");
        ok.append(self.path.as_str());
        ok.append(" returned ");
        ok.append(dec_u64(self.expected_status as u64).as_str());
        ok.append(" as expected");
        let result = verdict_of(ok, errors);
        TestCase { name: post_name(self.path.as_str(), self.expected_status), result }
    }

    /// What is read of the expected field from `body`: the JSON error, or
    /// the field's text if present.
    pub open spec fn reading_of(&self, body: Seq<char>) -> FieldReading {
        match self.expected_field {
            None => Ok(None),
            Some(fv) => match json_parse_error(body) {
                Some(e) => Err(e),
                None => Ok(json_text_at(body, seq![fv.0@])),
            },
        }
    }

    pub fn check(&self, resp: &HttpResponse) -> (r: TestCase)
        ensures
            case_is(
                r,
                "POST "@ + self.path@ + " returns "@ + dec(self.expected_status as int),
                self.judged(resp.status_code, self.reading_of(resp.body@)),
            ),
    {
        let reading: Result<Option<String>, String> = match &self.expected_field {
            None => Ok(None),
            Some((f, _)) => member_text(resp.body.as_str(), f.as_str()),
        };
        self.conclude(resp.status_code, reading)
    }
}

// ---------------------------------------------------------------- rate limit

pub open spec fn count_status(outcomes: Seq<Result<u16, String>>, wanted: Set<u16>) -> nat
    decreases outcomes.len(),
{
    if outcomes.len() == 0 {
        0
    } else {
        count_status(outcomes.drop_last(), wanted) + match outcomes.last() {
            Ok(s) => if wanted.contains(s) {
                1nat
            } else {
                0nat
            },
            Err(_) => 0nat,
        }
    }
}

pub open spec fn count_errors(outcomes: Seq<Result<u16, String>>) -> nat
    decreases outcomes.len(),
{
    if outcomes.len() == 0 {
        0
    } else {
        count_errors(outcomes.drop_last()) + if outcomes.last() is Err {
            1nat
        } else {
            0nat
        }
    }
}

/// Sends a burst of requests spread over a time window and expects at least
/// a number of them to be refused with 429.
pub struct RateLimitValidator {
    pub port: u16,
    pub path: String,
    pub method: String,
    pub requests: u32,
    pub window_ms: u64,
    pub expected_rejected: u32,
}

impl RateLimitValidator {
    pub fn new(path: &str, method: &str, requests: u32, window_ms: u64, expected_rejected: u32) -> (r: Self)
        ensures
            r.port == DEFAULT_PORT,
            r.path@ == path@,
            r.method@ == method@,
            r.requests == requests,
            r.window_ms == window_ms,
            r.expected_rejected == expected_rejected,
    {
        RateLimitValidator {
            port: DEFAULT_PORT,
            path: lit(path),
            method: lit(method),
            requests,
            window_ms,
            expected_rejected,
        }
    }

    /// The request sent again and again.
    pub fn request(&self) -> (r: HttpRequest)
        ensures
            r.method@ == self.method@ && r.path@ == self.path@ && r.headers@.len() == 0 && r.body is None,
    {
        HttpRequest::plain(self.method.as_str(), self.path.as_str())
    }

    /// Pause after each request so the burst spans the window evenly.
    pub fn delay_per_request(&self) -> (r: u64)
        ensures
            r == if self.requests > 0 {
                self.window_ms / (self.requests as u64)
            } else {
                0
            },
    {
        if self.requests > 0 {
            self.window_ms / (self.requests as u64)
        } else {
            0
        }
    }

    pub open spec fn judged(&self, outcomes: Seq<Result<u16, String>>, elapsed: Seq<char>) -> Result<Seq<char>, Seq<char>> {
        let rejected = count_status(outcomes, set![429u16]) as int;
        let succeeded = count_status(outcomes, set![200u16, 201u16]) as int;
        if rejected >= self.expected_rejected {
            Ok("rate limiting working: "@ + dec(rejected) + "/"@ + dec(self.requests as int) + " requests rejected (expected >= "@
                + dec(self.expected_rejected as int) + "), "@ + dec(succeeded) + " succeeded, completed in "@ + elapsed)
        } else {
            Err("expected at least "@ + dec(self.expected_rejected as int) + " rejected requests, got "@ + dec(rejected)
                + ". "@ + dec(succeeded) + " succeeded, "@ + dec(count_errors(outcomes) as int) + " errors"@)
        }
    }

    /// The case once every request has settled: each outcome is the status
    /// received or the error met; `elapsed` says how long the burst took.
    pub fn conclude(&self, outcomes: &Vec<Result<u16, String>>, elapsed: &str) -> (r: TestCase)
        ensures
            case_is(
                r,
                "rate limit "@ + dec(self.requests as int) + " requests in "@ + dec(self.window_ms as int) + "ms"@,
                self.judged(outcomes@, elapsed@),
            ),
    {
        let mut rejected: usize = 0;
        let mut succeeded: usize = 0;
        let mut errors: usize = 0;
        let mut k: usize = 0;
        while k < outcomes.len()
            invariant
                k <= outcomes@.len(),
                rejected == count_status(outcomes@.subrange(0, k as int), set![429u16]),
                succeeded == count_status(outcomes@.subrange(0, k as int), set![200u16, 201u16]),
                errors == count_errors(outcomes@.subrange(0, k as int)),
                rejected <= k && succeeded <= k && errors <= k,
            decreases outcomes@.len() - k,
        {
            assert(outcomes@.subrange(0, k + 1).drop_last() =~= outcomes@.subrange(0, k as int));
            match &outcomes[k] {
                Ok(s) => {
                    if *s == 429 {
                        rejected = rejected + 1;
                    } else if *s == 200 || *s == 201 {
                        succeeded = succeeded + 1;
                    }
                },
                Err(_) => {
                    errors = errors + 1;
                },
            }
            k = k + 1;
        }
        assert(outcomes@.subrange(0, k as int) =~= outcomes@);
        let result = if rejected as u64 >= self.expected_rejected as u64 {
            let mut m = lit("rate limiting working: ");
            m.append(dec_u64(rejected as u64).as_str());
            m.append("/");
            m.append(dec_u64(self.requests as u64).as_str());
            m.append(" requests rejected (expected >= ");
            m.append(dec_u64(self.expected_rejected as u64).as_str());
            m.append("), ");
            m.append(dec_u64(succeeded as u64).as_str());
            m.append(" succeeded, completed in ");
            m.append(elapsed);
            Ok(m)
        } else {
            let mut m = lit("expected at least ");
            m.append(dec_u64(self.expected_rejected as u64).as_str());
            m.append(" rejected requests, got ");
            m.append(dec_u64(rejected as u64).as_str());
            m.append(". ");
            m.append(dec_u64(succeeded as u64).as_str());
            m.append(" succeeded, ");
            m.append(dec_u64(errors as u64).as_str());
            m.append(" errors");
            Err(m)
        };
        let mut name = lit("rate limit ");
        name.append(dec_u64(self.requests as u64).as_str());
        name.append(" requests in ");
        name.append(dec_u64(self.window_ms).as_str());
        name.append("ms");
        TestCase { name, result }
    }
}

} // verus!
