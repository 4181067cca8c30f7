//! Single-shot validators: a port that accepts connections, an endpoint that
//! answers 200, a JSON content type, and a file's contents.
use vstd::prelude::*;
use crate::http::{lines_of, split_lines, HttpRequest};
use crate::protocol::case_is;
use crate::results::TestCase;
use crate::text::{chars_of, contains, dec, dec_u64, find, lit, fold, slice_of, text_of, fold_chars, trim, trimmed, same};

verus! {

/// How an attempt to connect ended.
pub enum ConnectOutcome {
    Connected,
    /// The connection failed with this error.
    Failed(String),
    /// No answer within the connect timeout.
    TimedOut,
}

/// Checks that something accepts TCP connections on a port.
pub struct PortValidator {
    port: u16,
}

impl PortValidator {
    pub fn new(port: u16) -> (r: Self)
        ensures
            r.spec_port() == port,
    {
        PortValidator { port }
    }

    pub closed spec fn spec_port(&self) -> u16 {
        self.port
    }

    pub fn port(&self) -> (r: u16)
        ensures
            r == self.spec_port(),
    {
        self.port
    }

    /// Milliseconds to wait for a connection.
    pub fn connect_timeout_ms(&self) -> (r: u64)
        ensures
            r == 2000,
    {
        2000
    }

    pub open spec fn judged(&self, outcome: ConnectOutcome) -> Result<Seq<char>, Seq<char>> {
        match outcome {
            ConnectOutcome::Connected => Ok("successfully connected to port "@ + dec(self.spec_port() as int)),
            ConnectOutcome::Failed(e) => Err("connection failed: "@ + e@),
            ConnectOutcome::TimedOut => Err("connection timeout after 2 seconds"@),
        }
    }

    pub fn judge(&self, outcome: ConnectOutcome) -> (r: TestCase)
        ensures
            case_is(r, "server listening on port "@ + dec(self.spec_port() as int), self.judged(outcome)),
    {
        let result = match outcome {
            ConnectOutcome::Connected => {
                let mut m = lit("successfully connected to port ");
                m.append(dec_u64(self.port as u64).as_str());
                Ok(m)
            },
            ConnectOutcome::Failed(e) => {
                let mut m = lit("connection failed: ");
                m.append(e.as_str());
                Err(m)
            },
            ConnectOutcome::TimedOut => Err(lit("connection timeout after 2 seconds")),
        };
        let mut name = lit("server listening on port ");
        name.append(dec_u64(self.port as u64).as_str());
        TestCase { name, result }
    }
}

/// The first line of a raw response, or `no response`.
pub open spec fn first_line(raw: Seq<char>) -> Seq<char> {
    if lines_of(raw).len() > 0 {
        lines_of(raw)[0]
    } else {
        "no response"@
    }
}

/// Checks that an endpoint answers `200`.
pub struct EndpointValidator {
    endpoint: String,
    port: u16,
}

impl EndpointValidator {
    pub fn new(endpoint: &str) -> (r: Self)
        ensures
            r.spec_endpoint() == endpoint@,
            r.spec_port() == 8000,
    {
        EndpointValidator { endpoint: lit(endpoint), port: 8000 }
    }

    pub closed spec fn spec_endpoint(&self) -> Seq<char> {
        self.endpoint@
    }

    pub closed spec fn spec_port(&self) -> u16 {
        self.port
    }

    pub fn port(&self) -> (r: u16)
        ensures
            r == self.spec_port(),
    {
        self.port
    }

    pub fn request(&self) -> (r: HttpRequest)
        ensures
            r.method@ == "GET"@ && r.path@ == self.spec_endpoint() && r.headers@.len() == 0 && r.body is None,
    {
        HttpRequest::plain("GET", self.endpoint.as_str())
    }

    pub open spec fn judged(&self, raw: Seq<char>) -> Result<Seq<char>, Seq<char>> {
        if contains(raw, "HTTP/1.1 200"@) || contains(raw, "HTTP/1.0 200"@) {
            Ok("endpoint "@ + self.spec_endpoint() + " returned 200 ok"@)
        } else {
            Err("expected 200 ok, got: "@ + first_line(raw))
        }
    }

    /// The case from the raw response text.
    pub fn judge(&self, raw: &str) -> (r: TestCase)
        ensures
            case_is(r, "endpoint "@ + self.spec_endpoint() + " returns 200 ok"@, self.judged(raw@)),
    {
        let v = chars_of(raw);
        let result = if find(&v, &chars_of("HTTP/1.1 200")).is_some() || find(&v, &chars_of("HTTP/1.0 200")).is_some() {
            let mut m = lit("endpoint ");
            m.append(self.endpoint.as_str());
            m.append(" returned 200 ok");
            Ok(m)
        } else {
            let lines = split_lines(raw);
            let mut m = lit("expected 200 ok, got: ");
            if lines.len() > 0 {
                assert(lines@.map_values(|l: Vec<char>| l@)[0] == lines@[0]@);
                m.append(text_of(lines[0].as_slice()).as_str());
            } else {
                m.append("no response");
            }
            Err(m)
        };
        let mut name = lit("endpoint ");
        name.append(self.endpoint.as_str());
        name.append(" returns 200 ok");
        TestCase { name, result }
    }
}

/// A header line announcing JSON.
pub open spec fn json_type_line(l: Seq<char>) -> bool {
    contains(fold(l), "content-type"@) && contains(fold(l), "application/json"@)
}

/// Checks that `/api/v1/hello` answers with a JSON content type.
pub struct JsonResponseValidator {
    endpoint: String,
    port: u16,
}

impl JsonResponseValidator {
    pub fn new() -> (r: Self)
        ensures
            r.spec_endpoint() == "/api/v1/hello"@,
            r.spec_port() == 8000,
    {
        JsonResponseValidator { endpoint: lit("/api/v1/hello"), port: 8000 }
    }

    pub closed spec fn spec_endpoint(&self) -> Seq<char> {
        self.endpoint@
    }

    pub closed spec fn spec_port(&self) -> u16 {
        self.port
    }

    pub fn port(&self) -> (r: u16)
        ensures
            r == self.spec_port(),
    {
        self.port
    }

    pub fn request(&self) -> (r: HttpRequest)
        ensures
            r.method@ == "GET"@ && r.path@ == self.spec_endpoint() && r.headers@.len() == 0 && r.body is None,
    {
        HttpRequest::plain("GET", self.endpoint.as_str())
    }

    /// The case from the raw response text.
    pub fn judge(&self, raw: &str) -> (r: TestCase)
        ensures
            case_is(
                r,
                "response has json content-type header"@,
                if exists|i: int| 0 <= i < lines_of(raw@).len() && json_type_line(#[trigger] lines_of(raw@)[i]) {
                    Ok::<Seq<char>, Seq<char>>("response has json content-type header"@)
                } else {
                    Err("missing or incorrect content-type header"@)
                },
            ),
    {
        let lines = split_lines(raw);
        let ct = chars_of("content-type");
        let aj = chars_of("application/json");
        let mut found = false;
        let mut k: usize = 0;
        while k < lines.len()
            invariant
                k <= lines@.len(),
                lines@.map_values(|l: Vec<char>| l@) == lines_of(raw@),
                ct@ == "content-type"@,
                aj@ == "application/json"@,
                found ==> exists|i: int| 0 <= i < lines_of(raw@).len() && json_type_line(#[trigger] lines_of(raw@)[i]),
                !found ==> forall|i: int| 0 <= i < k ==> !json_type_line(#[trigger] lines_of(raw@)[i]),
            decreases lines@.len() - k,
        {
            assert(lines@.map_values(|l: Vec<char>| l@)[k as int] == lines@[k as int]@);
            let low = fold_chars(&lines[k]);
            if find(&low, &ct).is_some() && find(&low, &aj).is_some() {
                found = true;
            }
            k = k + 1;
        }
        let result = if found {
            Ok(lit("response has json content-type header"))
        } else {
            Err(lit("missing or incorrect content-type header"))
        };
        TestCase { name: lit("response has json content-type header"), result }
    }
}

/// At most the first 50 characters.
pub open spec fn preview(s: Seq<char>) -> Seq<char> {
    if s.len() <= 50 { s } else { s.subrange(0, 50) }
}

/// Checks that a file holds an expected text (both compared trimmed).
pub struct FileContentsMatchValidator {
    pub path: String,
    pub expected_content: String,
}

impl FileContentsMatchValidator {
    pub fn new(path: &str, expected_content: &str) -> (r: Self)
        ensures
            r.path@ == path@,
            r.expected_content@ == expected_content@,
    {
        FileContentsMatchValidator { path: lit(path), expected_content: lit(expected_content) }
    }

    /// The case for a file that does not exist.
    pub fn missing(&self) -> (r: TestCase)
        ensures
            case_is(r, "file "@ + self.path@ + " exists"@, Err("file '"@ + self.path@ + "' does not exist"@)),
    {
        let mut name = lit("file ");
        name.append(self.path.as_str());
        name.append(" exists");
        let mut m = lit("file '");
        m.append(self.path.as_str());
        m.append("' does not exist");
        TestCase { name, result: Err(m) }
    }

    pub open spec fn judged(&self, content: Seq<char>) -> Result<Seq<char>, Seq<char>> {
        let got = trim(content);
        let want = trim(self.expected_content@);
        if got == want {
            Ok("file '"@ + self.path@ + "' content matches expected"@)
        } else {
            Err("content mismatch:\n  expected: '"@ + preview(want) + "...'\n  got: '"@ + preview(got) + "...'"@)
        }
    }

    /// The case for the file's contents.
    pub fn judge(&self, content: &str) -> (r: TestCase)
        ensures
            case_is(r, "file '"@ + self.path@ + "' content matches"@, self.judged(content@)),
    {
        let got = trimmed(&chars_of(content));
        let want = trimmed(&chars_of(self.expected_content.as_str()));
        let result = if same(&got, &want) {
            let mut m = lit("file '");
            m.append(self.path.as_str());
            m.append("' content matches expected");
            Ok(m)
        } else {
            let g = if got.len() <= 50 { slice_of(&got, 0, got.len()) } else { slice_of(&got, 0, 50) };
            let w = if want.len() <= 50 { slice_of(&want, 0, want.len()) } else { slice_of(&want, 0, 50) };
            assert(got@.subrange(0, got@.len() as int) =~= got@);
            assert(want@.subrange(0, want@.len() as int) =~= want@);
            let mut m = lit("content mismatch:\n  expected: '");
            m.append(text_of(w.as_slice()).as_str());
            m.append("...'\n  got: '");
            m.append(text_of(g.as_slice()).as_str());
            m.append("...'");
            Err(m)
        };
        let mut name = lit("file '");
        name.append(self.path.as_str());
        name.append("' content matches");
        TestCase { name, result }
    }
}

} // verus!
