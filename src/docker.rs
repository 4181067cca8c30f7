//! The Docker sandbox: which image to build or pull (only registered ones),
//! the commands to run, and how a container's output is judged.
use vstd::prelude::*;
use crate::json::strings_view;
use crate::number::{int_in, parse_i32};
use crate::protocol::{case_is, quoted_list, quoted_list_text};
use crate::registry::{entry_of, index_of_key, list_keys, lookup, registry_entries, registry_keys, RegisteredImage};
use crate::results::TestCase;
use crate::text::{chars_of, contains, dec, dec_i64, dec_u64, find, has_prefix, lit, fold, occurs_at, slice_of, starts_with, text_of, fold_chars, trim, trimmed};

verus! {

/// What a container run is judged by.
#[derive(Debug, Clone)]
pub enum Expectation {
    /// The exit code must be this one.
    ExitCode(i32),
    /// Fails when stdout contains the text.
    FailIfStdoutContains(String),
    /// Fails when stderr contains the text.
    FailIfStderrContains(String),
    /// Passes only when stdout contains the text.
    PassIfStdoutContains(String),
    /// Passes only when stderr contains the text.
    PassIfStderrContains(String),
}

/// An expectation, mathematically.
pub enum ExpectationView {
    ExitCode(int),
    FailIfStdoutContains(Seq<char>),
    FailIfStderrContains(Seq<char>),
    PassIfStdoutContains(Seq<char>),
    PassIfStderrContains(Seq<char>),
}

impl View for Expectation {
    type V = ExpectationView;

    open spec fn view(&self) -> ExpectationView {
        match self {
            Expectation::ExitCode(c) => ExpectationView::ExitCode(*c as int),
            Expectation::FailIfStdoutContains(s) => ExpectationView::FailIfStdoutContains(s@),
            Expectation::FailIfStderrContains(s) => ExpectationView::FailIfStderrContains(s@),
            Expectation::PassIfStdoutContains(s) => ExpectationView::PassIfStdoutContains(s@),
            Expectation::PassIfStderrContains(s) => ExpectationView::PassIfStderrContains(s@),
        }
    }
}

/// `s` without the prefix `p`, when it has it.
pub open spec fn after(s: Seq<char>, p: Seq<char>) -> Seq<char> {
    s.subrange(p.len() as int, s.len() as int)
}

/// `stdout contains X` / `stderr contains X` after `fail_if:` or `pass_if:`.
pub open spec fn contains_expectation(s: Seq<char>, fail_if: bool) -> Result<ExpectationView, Seq<char>> {
    let t = trim(s);
    if has_prefix(t, "stdout contains "@) {
        let p = trim(after(t, "stdout contains "@));
        Ok(if fail_if { ExpectationView::FailIfStdoutContains(p) } else { ExpectationView::PassIfStdoutContains(p) })
    } else if has_prefix(t, "stderr contains "@) {
        let p = trim(after(t, "stderr contains "@));
        Ok(if fail_if { ExpectationView::FailIfStderrContains(p) } else { ExpectationView::PassIfStderrContains(p) })
    } else {
        Err("invalid contains format, expected 'stdout contains X' or 'stderr contains X': "@ + t)
    }
}

/// What an expectation string denotes.
pub open spec fn expectation_of(s: Seq<char>) -> Result<ExpectationView, Seq<char>> {
    let t = trim(s);
    if has_prefix(t, "exit:"@) {
        let code = after(t, "exit:"@);
        let v = int_in(trim(code), true, i32::MIN as int, i32::MAX as int);
        if v is Some {
            Ok(ExpectationView::ExitCode(v->0))
        } else {
            Err("invalid exit code: "@ + code)
        }
    } else if has_prefix(t, "fail_if:"@) {
        contains_expectation(after(t, "fail_if:"@), true)
    } else if has_prefix(t, "pass_if:"@) {
        contains_expectation(after(t, "pass_if:"@), false)
    } else {
        Err("unknown expectation format: "@ + t)
    }
}

fn strip(t: &Vec<char>, p: &str) -> (r: Option<Vec<char>>)
    ensures
        r is Some <==> has_prefix(t@, p@),
        r is Some ==> r->0@ == after(t@, p@),
{
    let k = chars_of(p);
    if starts_with(t, &k) {
        Some(slice_of(t, k.len(), t.len()))
    } else {
        None
    }
}

fn contains_from_chars(s: &Vec<char>, fail_if: bool) -> (r: Result<Expectation, String>)
    ensures
        match contains_expectation(s@, fail_if) {
            Ok(e) => r is Ok && r->Ok_0@ == e,
            Err(m) => r is Err && r->Err_0@ == m,
        },
{
    let t = trimmed(s);
    if let Some(rest) = strip(&t, "stdout contains ") {
        let p = text_of(trimmed(&rest).as_slice());
        return Ok(if fail_if { Expectation::FailIfStdoutContains(p) } else { Expectation::PassIfStdoutContains(p) });
    }
    if let Some(rest) = strip(&t, "stderr contains ") {
        let p = text_of(trimmed(&rest).as_slice());
        return Ok(if fail_if { Expectation::FailIfStderrContains(p) } else { Expectation::PassIfStderrContains(p) });
    }
    let mut m = lit("invalid contains format, expected 'stdout contains X' or 'stderr contains X': ");
    m.append(text_of(t.as_slice()).as_str());
    Err(m)
}

/// Reads `X` of `stdout contains X` / `stderr contains X` into the matching
/// fail-if or pass-if expectation.
pub fn parse_contains_expectation(s: &str, is_fail_if: bool) -> (r: Result<Expectation, String>)
    ensures
        match contains_expectation(s@, is_fail_if) {
            Ok(e) => r is Ok && r->Ok_0@ == e,
            Err(m) => r is Err && r->Err_0@ == m,
        },
{
    contains_from_chars(&chars_of(s), is_fail_if)
}

impl Expectation {
    /// Parses `exit:<int>`, `fail_if:stdout contains X`, `fail_if:stderr contains X`,
    /// `pass_if:stdout contains X` or `pass_if:stderr contains X`.
    pub fn parse(s: &str) -> (r: Result<Expectation, String>)
        ensures
            match expectation_of(s@) {
                Ok(e) => r is Ok && r->Ok_0@ == e,
                Err(m) => r is Err && r->Err_0@ == m,
            },
    {
        let t = trimmed(&chars_of(s));
        if let Some(code) = strip(&t, "exit:") {
            return match parse_i32(&trimmed(&code)) {
                Some(c) => Ok(Expectation::ExitCode(c)),
                None => {
                    let mut m = lit("invalid exit code: ");
                    m.append(text_of(code.as_slice()).as_str());
                    Err(m)
                },
            };
        }
        if let Some(rest) = strip(&t, "fail_if:") {
            return contains_from_chars(&rest, true);
        }
        if let Some(rest) = strip(&t, "pass_if:") {
            return contains_from_chars(&rest, false);
        }
        let mut m = lit("unknown expectation format: ");
        m.append(text_of(t.as_slice()).as_str());
        Err(m)
    }
}

/// What a container run produced.
#[derive(Debug)]
pub struct ExecutorResult {
    pub exit_code: i32,
    pub stdout: String,
    pub stderr: String,
}

impl ExecutorResult {
    pub fn success(&self) -> (r: bool)
        ensures
            r == (self.exit_code == 0),
    {
        self.exit_code == 0
    }
}

/// At most `max_len` characters of `s`, with `...` added when cut.
pub open spec fn truncated(s: Seq<char>, max_len: nat) -> Seq<char> {
    if s.len() <= max_len {
        s
    } else {
        s.subrange(0, max_len as int) + "..."@
    }
}

pub fn truncate_output(s: &str, max_len: usize) -> (r: String)
    ensures
        r@ == truncated(s@, max_len as nat),
{
    let v = chars_of(s);
    if v.len() <= max_len {
        text_of(v.as_slice())
    } else {
        let mut m = text_of(slice_of(&v, 0, max_len).as_slice());
        m.append("...");
        m
    }
}

/// The first index at which `p` occurs in `s`.
pub open spec fn first_occurrence(s: Seq<char>, p: Seq<char>) -> int {
    choose|i: int| occurs_at(s, p, i) && forall|j: int| 0 <= j < i ==> !occurs_at(s, p, j)
}

/// Up to `context / 2` characters on each side of the first occurrence of
/// `pattern`, marked with `...` where cut; without one, the start of `s`.
pub open spec fn context_of(s: Seq<char>, pattern: Seq<char>, context: nat) -> Seq<char> {
    if contains(s, pattern) {
        let pos = first_occurrence(s, pattern);
        let half = (context / 2) as int;
        let start = if pos >= half { pos - half } else { 0 };
        let end = if pos + pattern.len() + half <= s.len() { pos + pattern.len() + half } else { s.len() as int };
        let excerpt = s.subrange(start, end);
        if start > 0 || end < s.len() {
            "..."@ + excerpt + "..."@
        } else {
            excerpt
        }
    } else {
        truncated(s, context)
    }
}

pub fn extract_context(s: &str, pattern: &str, context_chars: usize) -> (r: String)
    ensures
        r@ == context_of(s@, pattern@, context_chars as nat),
{
    let v = chars_of(s);
    let p = chars_of(pattern);
    match find(&v, &p) {
        Some(pos) => {
            proof {
                let w = first_occurrence(v@, p@);
                assert(occurs_at(v@, p@, pos as int));
                assert(w == pos) by {
                    if w < pos {} else if w > pos {}
                }
            }
            let half = context_chars / 2;
            let start = if pos >= half { pos - half } else { 0 };
            let end = if half <= v.len() - pos - p.len() { pos + p.len() + half } else { v.len() };
            let excerpt = text_of(slice_of(&v, start, end).as_slice());
            if start > 0 || end < v.len() {
                let mut m = lit("...");
                m.append(excerpt.as_str());
                m.append("...");
                m
            } else {
                excerpt
            }
        },
        None => truncate_output(s, context_chars),
    }
}

/// Runs a registered image and judges its output.
pub struct DockerValidator {
    pub dockerfile_name: String,
    pub expectation: Expectation,
    pub timeout_secs: Option<u64>,
}


impl DockerValidator {
    pub fn new(dockerfile_name: &str, expectation: Expectation) -> (r: Self)
        ensures
            r.dockerfile_name@ == dockerfile_name@,
            r.expectation@ == expectation@,
            r.timeout_secs is None,
    {
        DockerValidator { dockerfile_name: lit(dockerfile_name), expectation, timeout_secs: None }
    }

    pub fn with_timeout(self, secs: u64) -> (r: Self)
        ensures
            r.timeout_secs == Some(secs),
            r.dockerfile_name == self.dockerfile_name,
            r.expectation@ == self.expectation@,
    {
        DockerValidator { timeout_secs: Some(secs), ..self }
    }

    pub open spec fn judged(&self, code: i32, out: Seq<char>, err: Seq<char>) -> Result<Seq<char>, Seq<char>> {
        match self.expectation@ {
            ExpectationView::ExitCode(e) => if code as int == e {
                Ok("exit code "@ + dec(e) + " as expected"@)
            } else {
                Err("expected exit code "@ + dec(e) + ", got "@ + dec(code as int) + "\n"@ + truncated(err, 500))
            },
            ExpectationView::FailIfStdoutContains(p) => if contains(out, p) {
                Err("stdout contains '"@ + p + "' (failure condition)"@)
            } else {
                Ok("validation passed"@)
            },
            ExpectationView::FailIfStderrContains(p) => if contains(err, p) {
                Err("stderr contains '"@ + p + "':\n"@ + context_of(err, p, 200))
            } else {
                Ok("validation passed"@)
            },
            ExpectationView::PassIfStdoutContains(p) => if contains(out, p) {
                Ok("stdout contains '"@ + p + "' as expected"@)
            } else {
                Err("expected stdout to contain '"@ + p + "'"@)
            },
            ExpectationView::PassIfStderrContains(p) => if contains(err, p) {
                Ok("stderr contains '"@ + p + "' as expected"@)
            } else {
                Err("expected stderr to contain '"@ + p + "'"@)
            },
        }
    }

    /// The case for a finished container run.
    pub fn interpret(&self, result: &ExecutorResult) -> (r: TestCase)
        ensures
            case_is(
                r,
                "docker:"@ + self.dockerfile_name@,
                self.judged(result.exit_code, result.stdout@, result.stderr@),
            ),
    {
        let out = chars_of(result.stdout.as_str());
        let err = chars_of(result.stderr.as_str());
        let outcome = match &self.expectation {
            Expectation::ExitCode(e) => {
                if result.exit_code == *e {
                    let mut m = lit("exit code ");
                    m.append(dec_i64(*e as i64).as_str());
                    m.append(" as expected");
                    Ok(m)
                } else {
                    let mut m = lit("expected exit code ");
                    m.append(dec_i64(*e as i64).as_str());
                    m.append(", got ");
                    m.append(dec_i64(result.exit_code as i64).as_str());
                    m.append("\n");
                    m.append(truncate_output(result.stderr.as_str(), 500).as_str());
                    Err(m)
                }
            },
            Expectation::FailIfStdoutContains(p) => {
                if find(&out, &chars_of(p.as_str())).is_some() {
                    let mut m = lit("stdout contains '");
                    m.append(p.as_str());
                    m.append("' (failure condition)");
                    Err(m)
                } else {
                    Ok(lit("validation passed"))
                }
            },
            Expectation::FailIfStderrContains(p) => {
                if find(&err, &chars_of(p.as_str())).is_some() {
                    let mut m = lit("stderr contains '");
                    m.append(p.as_str());
                    m.append("':\n");
                    m.append(extract_context(result.stderr.as_str(), p.as_str(), 200).as_str());
                    Err(m)
                } else {
                    Ok(lit("validation passed"))
                }
            },
            Expectation::PassIfStdoutContains(p) => {
                if find(&out, &chars_of(p.as_str())).is_some() {
                    let mut m = lit("stdout contains '");
                    m.append(p.as_str());
                    m.append("' as expected");
                    Ok(m)
                } else {
                    let mut m = lit("expected stdout to contain '");
                    m.append(p.as_str());
                    m.append("'");
                    Err(m)
                }
            },
            Expectation::PassIfStderrContains(p) => {
                if find(&err, &chars_of(p.as_str())).is_some() {
                    let mut m = lit("stderr contains '");
                    m.append(p.as_str());
                    m.append("' as expected");
                    Ok(m)
                } else {
                    let mut m = lit("expected stderr to contain '");
                    m.append(p.as_str());
                    m.append("'");
                    Err(m)
                }
            },
        };
        let mut name = lit("docker:");
        name.append(self.dockerfile_name.as_str());
        TestCase { name, result: outcome }
    }
}

/// Where local Dockerfiles are fetched from.
pub const DOCKERFILE_BASE_URL: &'static str = "https://raw.githubusercontent.com/thearyanahmed/luxctl/master/docker";

/// Seconds a container may run when no timeout was given.
pub const DEFAULT_TIMEOUT_SECS: u64 = 120;

/// The rejection of a key that is not in the registry: it names the key and
/// lists every registered one.
pub open spec fn rejection(key: Seq<char>) -> Seq<char> {
    "image '"@ + key + "' not registered. available: "@ + quoted_list(registry_keys())
}

pub open spec fn dots_to_dashes(s: Seq<char>) -> Seq<char> {
    s.map_values(|c: char| if c == '.' { '-' } else { c })
}


/// Plans and describes container runs; the commands themselves are run by
/// the caller.
pub struct DockerExecutor {
    pub cache_dir: String,
}

impl DockerExecutor {
    pub fn new(cache_dir: &str) -> (r: Self)
        ensures
            r.cache_dir@ == cache_dir@,
    {
        DockerExecutor { cache_dir: lit(cache_dir) }
    }

    /// The registered image for `image_key`; any other key is refused before
    /// anything is fetched, built or pulled.
    pub fn resolve(&self, image_key: &str) -> (r: Result<RegisteredImage, String>)
        ensures
            match index_of_key(fold(image_key@)) {
                Some(i) => r is Ok && entry_of(r->Ok_0) == registry_entries()[i],
                None => r is Err && r->Err_0@ == rejection(image_key@),
            },
    {
        match lookup(image_key) {
            Some(img) => Ok(img),
            None => {
                let keys = list_keys();
                let mut names: Vec<String> = Vec::new();
                let mut k: usize = 0;
                while k < keys.len()
                    invariant
                        k <= keys@.len(),
                        keys@.map_values(|s: &'static str| s@) == registry_keys(),
                        strings_view(names@) == registry_keys().subrange(0, k as int),
                    decreases keys@.len() - k,
                {
                    let ghost before = strings_view(names@);
                    let n = lit(keys[k]);
                    names.push(n);
                    assert(keys@.map_values(|s: &'static str| s@)[k as int] == keys@[k as int]@);
                    assert(strings_view(names@) =~= before.push(n@));
                    assert(registry_keys().subrange(0, k + 1) =~= registry_keys().subrange(0, k as int).push(
                        registry_keys()[k as int],
                    ));
                    k = k + 1;
                }
                assert(registry_keys().subrange(0, 3) =~= registry_keys());
                let mut m = lit("image '");
                m.append(image_key);
                m.append("' not registered. available: ");
                m.append(quoted_list_text(&names).as_str());
                Err(m)
            },
        }
    }

    /// Where a local Dockerfile is downloaded from.
    pub fn dockerfile_url(&self, name: &str) -> (r: String)
        ensures
            r@ == DOCKERFILE_BASE_URL@ + "/"@ + name@,
    {
        let mut u = lit(DOCKERFILE_BASE_URL);
        u.append("/");
        u.append(name);
        u
    }

    /// A tag unique to this run: `luxctl-<key, lower case, dots as dashes>:<secs>`.
    pub fn image_tag(&self, image_key: &str, secs: u64) -> (r: String)
        ensures
            r@ == "luxctl-"@ + dots_to_dashes(fold(image_key@)) + ":"@ + dec(secs as int),
    {
        let low = fold_chars(&chars_of(image_key));
        let mut out: Vec<char> = Vec::new();
        let mut k: usize = 0;
        while k < low.len()
            invariant
                k <= low@.len(),
                out@ == dots_to_dashes(low@.subrange(0, k as int)),
            decreases low@.len() - k,
        {
            let c = low[k];
            out.push(if c == '.' { '-' } else { c });
            assert(dots_to_dashes(low@.subrange(0, k + 1)) =~= dots_to_dashes(low@.subrange(0, k as int)).push(
                if c == '.' { '-' } else { c },
            ));
            k = k + 1;
        }
        assert(low@.subrange(0, k as int) =~= low@);
        let mut t = lit("luxctl-");
        t.append(text_of(out.as_slice()).as_str());
        t.append(":");
        t.append(dec_u64(secs).as_str());
        t
    }

    /// `docker build -f <dockerfile> -t <tag> <context>`
    pub fn build_args(&self, dockerfile: &str, tag: &str, context: &str) -> (r: Vec<String>)
        ensures
            strings_view(r@) == seq!["build"@, "-f"@, dockerfile@, "-t"@, tag@, context@],
    {
        let v = vec![lit("build"), lit("-f"), lit(dockerfile), lit("-t"), lit(tag), lit(context)];
        assert(strings_view(v@) =~= seq!["build"@, "-f"@, dockerfile@, "-t"@, tag@, context@]);
        v
    }

    /// `docker run --rm --network=host -v <workspace>:/app -w /app <image>`
    pub fn run_args(&self, image: &str, workspace: &str) -> (r: Vec<String>)
        ensures
            strings_view(r@) == seq![
                "run"@,
                "--rm"@,
                "--network=host"@,
                "-v"@,
                workspace@ + ":/app"@,
                "-w"@,
                "/app"@,
                image@,
            ],
    {
        let mut mount = lit(workspace);
        mount.append(":/app");
        let v = vec![
            lit("run"),
            lit("--rm"),
            lit("--network=host"),
            lit("-v"),
            mount,
            lit("-w"),
            lit("/app"),
            lit(image),
        ];
        assert(strings_view(v@) =~= seq![
            "run"@,
            "--rm"@,
            "--network=host"@,
            "-v"@,
            workspace@ + ":/app"@,
            "-w"@,
            "/app"@,
            image@,
        ]);
        v
    }

    /// `docker pull <image>`
    pub fn pull_args(&self, image: &str) -> (r: Vec<String>)
        ensures
            strings_view(r@) == seq!["pull"@, image@],
    {
        let v = vec![lit("pull"), lit(image)];
        assert(strings_view(v@) =~= seq!["pull"@, image@]);
        v
    }

    /// `docker rmi -f <tag>`, run after every local build, whatever happened.
    pub fn remove_args(&self, tag: &str) -> (r: Vec<String>)
        ensures
            strings_view(r@) == seq!["rmi"@, "-f"@, tag@],
    {
        let v = vec![lit("rmi"), lit("-f"), lit(tag)];
        assert(strings_view(v@) =~= seq!["rmi"@, "-f"@, tag@]);
        v
    }

    /// How long a run may take.
    pub fn run_timeout(&self, timeout_secs: Option<u64>) -> (r: u64)
        ensures
            r == match timeout_secs {
                Some(s) => s,
                None => DEFAULT_TIMEOUT_SECS,
            },
    {
        match timeout_secs {
            Some(s) => s,
            None => DEFAULT_TIMEOUT_SECS,
        }
    }

    /// The error for a run that outlived its timeout.
    pub fn timeout_message(&self, secs: u64) -> (r: String)
        ensures
            r@ == "container timed out after "@ + dec(secs as int) + "s"@,
    {
        let mut m = lit("container timed out after ");
        m.append(dec_u64(secs).as_str());
        m.append("s");
        m
    }
}

/// `docker version --format {{.Server.Version}}`, which succeeds only when a
/// Docker daemon answers.
pub fn availability_args() -> (r: Vec<String>)
    ensures
        strings_view(r@) == seq!["version"@, "--format"@, "{{.Server.Version}}"@],
{
    let v = vec![lit("version"), lit("--format"), lit("{{.Server.Version}}")];
    assert(strings_view(v@) =~= seq!["version"@, "--format"@, "{{.Server.Version}}"@]);
    v
}

} // verus!
