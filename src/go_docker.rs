//! Go-specific checks run in a stock Go container: a race-detector run under
//! concurrent load, and a plain build with chosen flags.
use vstd::prelude::*;
use crate::http::{join, join_strings, lines_of, split_lines};
use crate::json::strings_view;
use crate::protocol::case_is;
use crate::results::TestCase;
use crate::text::{chars_of, contains, dec, dec_u64, find, has_prefix, lit, starts_with, text_of};

verus! {

/// The image every Go check runs in.
pub const GO_IMAGE: &'static str = "golang:1.22-alpine";

/// Seconds a race-detector run may take unless told otherwise.
pub const RACE_TIMEOUT_SECS: u64 = 120;

/// What a command run in a container produced.
#[derive(Debug)]
pub struct CommandResult {
    pub success: bool,
    pub stdout: String,
    pub stderr: String,
}

/// A line that opens a race report.
pub open spec fn is_race_line(l: Seq<char>) -> bool {
    contains(l, "WARNING: DATA RACE"@) || contains(l, "race detected"@)
}

/// Scanning state: finished reports, the report being read, and whether one is open.
pub type RaceScan = (Seq<Seq<char>>, Seq<Seq<char>>, bool);

/// One line of the scan: a race line opens a report (dropping one left
/// open); inside a report, a `=====` line closes it and any other line joins it.
pub open spec fn race_step(st: RaceScan, l: Seq<char>) -> RaceScan {
    if is_race_line(l) {
        (st.0, seq![l], true)
    } else if st.2 {
        if has_prefix(l, "====="@) {
            (if st.1.len() > 0 { st.0.push(join(st.1, "\n"@)) } else { st.0 }, Seq::empty(), false)
        } else {
            (st.0, st.1.push(l), true)
        }
    } else {
        st
    }
}

pub open spec fn race_scan(ls: Seq<Seq<char>>) -> RaceScan
    decreases ls.len(),
{
    if ls.len() == 0 {
        (Seq::empty(), Seq::empty(), false)
    } else {
        race_step(race_scan(ls.drop_last()), ls.last())
    }
}

/// The race reports found in `stderr`, a report still open at the end included.
pub open spec fn race_sections(stderr: Seq<char>) -> Seq<Seq<char>> {
    let st = race_scan(lines_of(stderr));
    if st.1.len() > 0 { st.0.push(join(st.1, "\n"@)) } else { st.0 }
}

pub open spec fn first_n<A>(s: Seq<A>, n: nat) -> Seq<A> {
    if s.len() <= n { s } else { s.subrange(0, n as int) }
}

/// The first three race reports, blank-line separated; without any, the
/// first twenty lines.
pub open spec fn race_info(stderr: Seq<char>) -> Seq<char> {
    let secs = race_sections(stderr);
    if secs.len() == 0 {
        join(first_n(lines_of(stderr), 20), "\n"@)
    } else {
        join(first_n(secs, 3), "\n\n"@)
    }
}

fn first_strings(v: &Vec<String>, n: usize) -> (r: Vec<String>)
    ensures
        strings_view(r@) == first_n(strings_view(v@), n as nat),
{
    let mut out: Vec<String> = Vec::new();
    let mut k: usize = 0;
    while k < v.len() && k < n
        invariant
            k <= v@.len(),
            k <= n,
            strings_view(out@) == strings_view(v@).subrange(0, k as int),
        decreases v@.len() - k,
    {
        let c = v[k].clone();
        let ghost before = strings_view(out@);
        out.push(c);
        assert(strings_view(out@) =~= before.push(c@));
        assert(strings_view(v@).subrange(0, k + 1) =~= strings_view(v@).subrange(0, k as int).push(v@[k as int]@));
        k = k + 1;
    }
    if v.len() <= n {
        assert(strings_view(v@).subrange(0, k as int) =~= strings_view(v@));
    }
    out
}

fn line_texts(s: &str) -> (r: Vec<String>)
    ensures
        strings_view(r@) == lines_of(s@),
{
    let ls = split_lines(s);
    let mut out: Vec<String> = Vec::new();
    let mut k: usize = 0;
    while k < ls.len()
        invariant
            k <= ls@.len(),
            ls@.map_values(|l: Vec<char>| l@) == lines_of(s@),
            strings_view(out@) == lines_of(s@).subrange(0, k as int),
        decreases ls@.len() - k,
    {
        let t = text_of(ls[k].as_slice());
        let ghost before = strings_view(out@);
        out.push(t);
        assert(ls@.map_values(|l: Vec<char>| l@)[k as int] == ls@[k as int]@);
        assert(strings_view(out@) =~= before.push(t@));
        assert(lines_of(s@).subrange(0, k + 1) =~= lines_of(s@).subrange(0, k as int).push(lines_of(s@)[k as int]));
        k = k + 1;
    }
    assert(lines_of(s@).subrange(0, k as int) =~= lines_of(s@));
    out
}

fn is_race_text(l: &Vec<char>) -> (r: bool)
    ensures
        r == is_race_line(l@),
{
    find(l, &chars_of("WARNING: DATA RACE")).is_some() || find(l, &chars_of("race detected")).is_some()
}

/// The race reports in a race detector's output, for an error message.
pub fn extract_race_info(stderr: &str) -> (r: String)
    ensures
        r@ == race_info(stderr@),
{
    let lines = line_texts(stderr);
    let ghost ls = lines_of(stderr@);
    let mut sections: Vec<String> = Vec::new();
    let mut current: Vec<String> = Vec::new();
    let mut inside = false;
    let mut k: usize = 0;
    while k < lines.len()
        invariant
            k <= lines@.len(),
            strings_view(lines@) == ls,
            (strings_view(sections@), strings_view(current@), inside) == race_scan(ls.subrange(0, k as int)),
        decreases lines@.len() - k,
    {
        assert(ls.subrange(0, k + 1).drop_last() =~= ls.subrange(0, k as int));
        assert(ls.subrange(0, k + 1).last() == lines@[k as int]@);
        let l = chars_of(lines[k].as_str());
        if is_race_text(&l) {
            current = Vec::new();
            current.push(lines[k].clone());
            assert(strings_view(current@) =~= seq![lines@[k as int]@]);
            inside = true;
        } else if inside {
            if starts_with(&l, &chars_of("=====")) {
                if current.len() > 0 {
                    let ghost before = strings_view(sections@);
                    let j = join_strings(&current, "\n");
                    sections.push(j);
                    assert(strings_view(sections@) =~= before.push(j@));
                }
                current = Vec::new();
                assert(strings_view(current@) =~= Seq::<Seq<char>>::empty());
                inside = false;
            } else {
                let ghost before = strings_view(current@);
                current.push(lines[k].clone());
                assert(strings_view(current@) =~= before.push(lines@[k as int]@));
            }
        }
        k = k + 1;
    }
    assert(ls.subrange(0, k as int) =~= ls);
    if current.len() > 0 {
        let ghost before = strings_view(sections@);
        let j = join_strings(&current, "\n");
        sections.push(j);
        assert(strings_view(sections@) =~= before.push(j@));
    }
    if sections.len() == 0 {
        join_strings(&first_strings(&lines, 20), "\n")
    } else {
        join_strings(&first_strings(&sections, 3), "\n\n")
    }
}

/// The first `n` lines of `s` joined with newlines.
pub fn first_lines(s: &str, n: usize) -> (r: String)
    ensures
        r@ == join(first_n(lines_of(s@), n as nat), "\n"@),
{
    join_strings(&first_strings(&line_texts(s), n), "\n")
}

/// Builds the code with `-race`, runs it under concurrent load, and looks for
/// race reports.
pub struct RaceDetectorValidator {
    pub source_dir: String,
    pub expected_clean: bool,
    pub timeout_secs: u64,
    pub concurrent_requests: u32,
    pub port: u16,
}

impl RaceDetectorValidator {
    pub fn new(expected_clean: bool) -> (r: Self)
        ensures
            r.source_dir@ == "."@,
            r.expected_clean == expected_clean,
            r.timeout_secs == RACE_TIMEOUT_SECS,
            r.concurrent_requests == 50,
            r.port == 8080,
    {
        RaceDetectorValidator {
            source_dir: lit("."),
            expected_clean,
            timeout_secs: RACE_TIMEOUT_SECS,
            concurrent_requests: 50,
            port: 8080,
        }
    }

    pub fn with_source_dir(self, dir: &str) -> (r: Self)
        ensures
            r.source_dir@ == dir@,
            r.expected_clean == self.expected_clean,
            r.timeout_secs == self.timeout_secs,
            r.concurrent_requests == self.concurrent_requests,
            r.port == self.port,
    {
        RaceDetectorValidator { source_dir: lit(dir), ..self }
    }

    pub fn with_timeout(self, secs: u64) -> (r: Self)
        ensures
            r.timeout_secs == secs,
            r.source_dir == self.source_dir,
            r.expected_clean == self.expected_clean,
            r.concurrent_requests == self.concurrent_requests,
            r.port == self.port,
    {
        RaceDetectorValidator { timeout_secs: secs, ..self }
    }

    /// The case when Docker is not there.
    pub fn docker_missing(&self) -> (r: TestCase)
        ensures
            case_is(r, "race detector"@, Err("docker not available - required for race detector"@)),
    {
        TestCase { name: lit("race detector"), result: Err(lit("docker not available - required for race detector")) }
    }

    /// `docker run --rm -v <src>:/app -w /app golang go build -race -o /tmp/server .`
    pub fn build_args(&self, source_path: &str) -> (r: Vec<String>)
        ensures
            strings_view(r@) == seq![
                "run"@, "--rm"@, "-v"@, source_path@ + ":/app"@, "-w"@, "/app"@, GO_IMAGE@,
                "go"@, "build"@, "-race"@, "-o"@, "/tmp/server"@, "."@,
            ],
    {
        let mut mount = lit(source_path);
        mount.append(":/app");
        let v = vec![
            lit("run"), lit("--rm"), lit("-v"), mount, lit("-w"), lit("/app"), lit(GO_IMAGE),
            lit("go"), lit("build"), lit("-race"), lit("-o"), lit("/tmp/server"), lit("."),
        ];
        assert(strings_view(v@) =~= seq![
            "run"@, "--rm"@, "-v"@, source_path@ + ":/app"@, "-w"@, "/app"@, GO_IMAGE@,
            "go"@, "build"@, "-race"@, "-o"@, "/tmp/server"@, "."@,
        ]);
        v
    }

    /// The case when the race build failed.
    pub fn build_failed(&self, stderr: &str) -> (r: TestCase)
        ensures
            case_is(r, "race detector build"@, Err("build failed: "@ + stderr@)),
    {
        let mut m = lit("build failed: ");
        m.append(stderr);
        TestCase { name: lit("race detector build"), result: Err(m) }
    }

    /// The shell script run in the container: build with the race detector,
    /// start the server, send concurrent requests, then print its stderr.
    pub fn load_script(&self) -> (r: String)
        ensures
            r@ == race_script(self.concurrent_requests as int, self.port as int),
    {
        let n = dec_u64(self.concurrent_requests as u64);
        let p = dec_u64(self.port as u64);
        let mut s = lit(SCRIPT_HEAD);
        s.append(n.as_str());
        s.append(SCRIPT_LOOP);
        s.append(p.as_str());
        s.append(SCRIPT_POST);
        s.append(p.as_str());
        s.append(SCRIPT_TAIL);
        s
    }

    /// `docker run --rm --network=host -v <src>:/app golang /bin/sh -c <script>`
    pub fn run_args(&self, source_path: &str) -> (r: Vec<String>)
        ensures
            strings_view(r@) == seq![
                "run"@, "--rm"@, "--network=host"@, "-v"@, source_path@ + ":/app"@, GO_IMAGE@,
                "/bin/sh"@, "-c"@, race_script(self.concurrent_requests as int, self.port as int),
            ],
    {
        let mut mount = lit(source_path);
        mount.append(":/app");
        let v = vec![
            lit("run"), lit("--rm"), lit("--network=host"), lit("-v"), mount, lit(GO_IMAGE),
            lit("/bin/sh"), lit("-c"), self.load_script(),
        ];
        assert(strings_view(v@) =~= seq![
            "run"@, "--rm"@, "--network=host"@, "-v"@, source_path@ + ":/app"@, GO_IMAGE@,
            "/bin/sh"@, "-c"@, race_script(self.concurrent_requests as int, self.port as int),
        ]);
        v
    }

    /// The error for a run that outlived the timeout.
    pub fn timeout_message(&self) -> (r: String)
        ensures
            r@ == "race detector test timed out after "@ + dec(self.timeout_secs as int) + "s"@,
    {
        let mut m = lit("race detector test timed out after ");
        m.append(dec_u64(self.timeout_secs).as_str());
        m.append("s");
        m
    }

    pub open spec fn judged(&self, stderr: Seq<char>) -> Result<Seq<char>, Seq<char>> {
        let race = is_race_line(stderr);
        if !race && self.expected_clean {
            Ok("no race conditions detected"@)
        } else if !race {
            Err("expected race condition but none detected"@)
        } else if self.expected_clean {
            Err("race condition detected:\n"@ + race_info(stderr))
        } else {
            Ok("race condition detected as expected"@)
        }
    }

    /// The case from the loaded run's stderr.
    pub fn verdict(&self, stderr: &str) -> (r: TestCase)
        ensures
            case_is(r, "go race detector"@, self.judged(stderr@)),
    {
        let race = is_race_text(&chars_of(stderr));
        let result = if !race && self.expected_clean {
            Ok(lit("no race conditions detected"))
        } else if !race {
            Err(lit("expected race condition but none detected"))
        } else if self.expected_clean {
            let mut m = lit("race condition detected:\n");
            m.append(extract_race_info(stderr).as_str());
            Err(m)
        } else {
            Ok(lit("race condition detected as expected"))
        };
        TestCase { name: lit("go race detector"), result }
    }
}

pub const SCRIPT_HEAD: &'static str = "\nset -e\n\n# build with race detector\ncd /app\ngo build -race -o /tmp/server . 2>&1\n\n# start server in background, capture stderr for race reports\n/tmp/server 2>/tmp/race_output.txt &\nSERVER_PID=$!\n\n# wait for server to start\nsleep 2\n\n# check if server is running\nif ! kill -0 $SERVER_PID 2>/dev/null; then\n    echo \"server failed to start\"\n    cat /tmp/race_output.txt\n    exit 1\nfi\n\n# generate concurrent load\nfor i in $(seq 1 ";

pub const SCRIPT_LOOP: &'static str = "); do\n    (\n        curl -s -X POST http://localhost:";

pub const SCRIPT_POST: &'static str = "/jobs \\\n            -H \"Content-Type: application/json\" \\\n            -d '{\"type\":\"test\",\"payload\":\"race-test-'$i'\"}' > /dev/null 2>&1 &\n        curl -s http://localhost:";

pub const SCRIPT_TAIL: &'static str = "/jobs > /dev/null 2>&1 &\n    ) &\ndone\n\n# wait for requests to complete\nwait\n\n# give race detector time to report\nsleep 2\n\n# stop server gracefully\nkill -TERM $SERVER_PID 2>/dev/null || true\nsleep 1\n\n# force kill if still running\nkill -9 $SERVER_PID 2>/dev/null || true\n\n# output race detector results\ncat /tmp/race_output.txt\n";

/// The load script for `requests` concurrent clients against `port`.
pub open spec fn race_script(requests: int, port: int) -> Seq<char> {
    SCRIPT_HEAD@ + dec(requests) + SCRIPT_LOOP@ + dec(port) + SCRIPT_POST@ + dec(port) + SCRIPT_TAIL@
}

/// Builds the code with chosen flags and expects the build to succeed, or to fail.
pub struct GoCompileValidator {
    pub source_dir: String,
    pub expected_success: bool,
    pub flags: Vec<String>,
}

impl GoCompileValidator {
    pub fn new(expected_success: bool) -> (r: Self)
        ensures
            r.source_dir@ == "."@,
            r.expected_success == expected_success,
            r.flags@.len() == 0,
    {
        GoCompileValidator { source_dir: lit("."), expected_success, flags: Vec::new() }
    }

    pub fn with_flags(self, flags: Vec<String>) -> (r: Self)
        ensures
            r.flags == flags,
            r.source_dir == self.source_dir,
            r.expected_success == self.expected_success,
    {
        GoCompileValidator { flags, ..self }
    }

    /// `docker run --rm -v <src>:/app -w /app golang go build <flags...> .`
    pub fn args(&self, source_path: &str) -> (r: Vec<String>)
        ensures
            strings_view(r@) == seq!["run"@, "--rm"@, "-v"@, source_path@ + ":/app"@, "-w"@, "/app"@, GO_IMAGE@, "go"@, "build"@]
                + strings_view(self.flags@) + seq!["."@],
    {
        let mut mount = lit(source_path);
        mount.append(":/app");
        let mut v = vec![lit("run"), lit("--rm"), lit("-v"), mount, lit("-w"), lit("/app"), lit(GO_IMAGE), lit("go"), lit("build")];
        let ghost head = seq!["run"@, "--rm"@, "-v"@, source_path@ + ":/app"@, "-w"@, "/app"@, GO_IMAGE@, "go"@, "build"@];
        assert(strings_view(v@) =~= head);
        let mut k: usize = 0;
        while k < self.flags.len()
            invariant
                k <= self.flags@.len(),
                strings_view(v@) == head + strings_view(self.flags@).subrange(0, k as int),
            decreases self.flags@.len() - k,
        {
            let f = self.flags[k].clone();
            let ghost before = strings_view(v@);
            v.push(f);
            assert(strings_view(v@) =~= before.push(f@));
            assert(head + strings_view(self.flags@).subrange(0, k + 1) =~= (head + strings_view(self.flags@).subrange(0, k as int)).push(self.flags@[k as int]@));
            k = k + 1;
        }
        assert(strings_view(self.flags@).subrange(0, k as int) =~= strings_view(self.flags@));
        let ghost before = strings_view(v@);
        let dot = lit(".");
        v.push(dot);
        assert(strings_view(v@) =~= before.push(dot@));
        v
    }

    /// The case when Docker is not there.
    pub fn docker_missing(&self) -> (r: TestCase)
        ensures
            case_is(r, "go compile"@, Err("docker not available"@)),
    {
        TestCase { name: lit("go compile"), result: Err(lit("docker not available")) }
    }

    pub open spec fn judged(&self, compiled: bool, stderr: Seq<char>) -> Result<Seq<char>, Seq<char>> {
        if compiled && self.expected_success {
            Ok("go build succeeded"@)
        } else if !compiled && !self.expected_success {
            Ok("go build failed as expected"@)
        } else if compiled {
            Err("expected build to fail, but it succeeded"@)
        } else {
            Err("build failed:\n"@ + join(first_n(lines_of(stderr), 10), "\n"@))
        }
    }

    /// The case from whether the build succeeded and what it printed on stderr.
    pub fn verdict(&self, compiled: bool, stderr: &str) -> (r: TestCase)
        ensures
            case_is(r, "go compile"@, self.judged(compiled, stderr@)),
    {
        let result = if compiled && self.expected_success {
            Ok(lit("go build succeeded"))
        } else if !compiled && !self.expected_success {
            Ok(lit("go build failed as expected"))
        } else if compiled {
            Err(lit("expected build to fail, but it succeeded"))
        } else {
            let mut m = lit("build failed:\n");
            m.append(first_lines(stderr, 10).as_str());
            Err(m)
        };
        TestCase { name: lit("go compile"), result }
    }
}

} // verus!
