//! Process validators: graceful shutdown on a termination signal, and many
//! concurrent clients against a running server.
use vstd::prelude::*;
use crate::http::HttpRequest;
use crate::json::strings_view;
use crate::protocol::{case_is, error_summary, error_summary_text};
use crate::results::TestCase;
use crate::text::{dec, dec_i64, dec_u64, lit};

verus! {

/// Milliseconds the concurrent clients may take in all.
pub const ACCESS_TIMEOUT_MS: u64 = 5000;

/// How a signalled process ended.
pub enum ShutdownOutcome {
    /// It exited; with its code, or `None` when a signal ended it.
    Exited(Option<i32>),
    /// Waiting for it failed, with this error.
    WaitFailed(String),
    /// It was still running when the timeout ran out, and was killed.
    TimedOut,
}

/// Starts a binary, sends it a termination signal, and expects it to exit
/// with a given code within a timeout.
pub struct GracefulShutdownValidator {
    pub binary_path: String,
    pub timeout_ms: u64,
    pub expected_exit_code: i32,
    pub startup_wait_ms: u64,
}

impl GracefulShutdownValidator {
    pub fn new(binary_path: &str, timeout_ms: u64) -> (r: Self)
        ensures
            r.binary_path@ == binary_path@,
            r.timeout_ms == timeout_ms,
            r.expected_exit_code == 0,
            r.startup_wait_ms == 1000,
    {
        GracefulShutdownValidator { binary_path: lit(binary_path), timeout_ms, expected_exit_code: 0, startup_wait_ms: 1000 }
    }

    pub fn with_expected_exit_code(self, code: i32) -> (r: Self)
        ensures
            r.expected_exit_code == code,
            r.binary_path == self.binary_path,
            r.timeout_ms == self.timeout_ms,
            r.startup_wait_ms == self.startup_wait_ms,
    {
        GracefulShutdownValidator { expected_exit_code: code, ..self }
    }

    pub fn with_startup_wait(self, ms: u64) -> (r: Self)
        ensures
            r.startup_wait_ms == ms,
            r.binary_path == self.binary_path,
            r.timeout_ms == self.timeout_ms,
            r.expected_exit_code == self.expected_exit_code,
    {
        GracefulShutdownValidator { startup_wait_ms: ms, ..self }
    }

    pub open spec fn name(&self) -> Seq<char> {
        "graceful shutdown within "@ + dec(self.timeout_ms as int) + "ms"@
    }

    pub open spec fn judged(&self, outcome: ShutdownOutcome) -> Result<Seq<char>, Seq<char>> {
        match outcome {
            ShutdownOutcome::Exited(code) => {
                let c: int = match code {
                    Some(c) => c as int,
                    None => -1,
                };
                if c == self.expected_exit_code as int {
                    Ok("process exited gracefully with code "@ + dec(c) + " after SIGTERM"@)
                } else {
                    Err("expected exit code "@ + dec(self.expected_exit_code as int) + ", got "@ + dec(c))
                }
            },
            ShutdownOutcome::WaitFailed(e) => Err("failed to wait for process: "@ + e@),
            ShutdownOutcome::TimedOut => Err("process did not exit within "@ + dec(self.timeout_ms as int) + "ms after SIGTERM"@),
        }
    }

    /// The case for how the signalled process ended.
    pub fn judge(&self, outcome: ShutdownOutcome) -> (r: TestCase)
        ensures
            case_is(r, self.name(), self.judged(outcome)),
    {
        let result = match outcome {
            ShutdownOutcome::Exited(code) => {
                let c: i32 = match code {
                    Some(c) => c,
                    None => -1,
                };
                if c == self.expected_exit_code {
                    let mut m = lit("process exited gracefully with code ");
                    m.append(dec_i64(c as i64).as_str());
                    m.append(" after SIGTERM");
                    Ok(m)
                } else {
                    let mut m = lit("expected exit code ");
                    m.append(dec_i64(self.expected_exit_code as i64).as_str());
                    m.append(", got ");
                    m.append(dec_i64(c as i64).as_str());
                    Err(m)
                }
            },
            ShutdownOutcome::WaitFailed(e) => {
                let mut m = lit("failed to wait for process: ");
                m.append(e.as_str());
                Err(m)
            },
            ShutdownOutcome::TimedOut => {
                let mut m = lit("process did not exit within ");
                m.append(dec_u64(self.timeout_ms).as_str());
                m.append("ms after SIGTERM");
                Err(m)
            },
        };
        let mut name = lit("graceful shutdown within ");
        name.append(dec_u64(self.timeout_ms).as_str());
        name.append("ms");
        TestCase { name, result }
    }

    /// The case where processes cannot be signalled: the check is reported
    /// as unsupported, never skipped silently.
    pub fn unsupported(&self) -> (r: TestCase)
        ensures
            case_is(r, "graceful shutdown"@, Err("graceful_shutdown validator only supported on Unix systems"@)),
    {
        TestCase {
            name: lit("graceful shutdown"),
            result: Err(lit("graceful_shutdown validator only supported on Unix systems")),
        }
    }
}

/// One operation of one client: `error` is `None` when it succeeded.
pub struct Operation {
    pub client: u32,
    pub op: u32,
    pub error: Option<String>,
}

/// How the concurrent clients ended.
pub enum AccessOutcome {
    /// Every operation settled.
    Settled(Vec<Operation>),
    /// A client task failed, with this error.
    Crashed(String),
    /// The clients were still busy when the timeout ran out.
    TimedOut,
}

pub open spec fn failure_text(o: Operation) -> Seq<char> {
    "client "@ + dec(o.client as int) + ", op "@ + dec(o.op as int) + ": "@ + o.error->0@
}

/// The failed operations, described in order.
pub open spec fn op_failures(ops: Seq<Operation>) -> Seq<Seq<char>>
    decreases ops.len(),
{
    if ops.len() == 0 {
        Seq::empty()
    } else {
        op_failures(ops.drop_last()) + if ops.last().error is Some {
            seq![failure_text(ops.last())]
        } else {
            Seq::empty()
        }
    }
}

pub open spec fn op_successes(ops: Seq<Operation>) -> nat
    decreases ops.len(),
{
    if ops.len() == 0 {
        0
    } else {
        op_successes(ops.drop_last()) + if ops.last().error is None {
            1nat
        } else {
            0nat
        }
    }
}

/// Runs many clients at once, each making several requests, and reports
/// failures; a timeout is reported as a probable deadlock.
pub struct ConcurrentAccessValidator {
    pub port: u16,
    pub path: String,
    pub concurrent_count: u32,
    pub operations_per_client: u32,
    pub timeout_ms: u64,
}

impl ConcurrentAccessValidator {
    pub fn new(port: u16, path: &str, concurrent_count: u32, operations_per_client: u32) -> (r: Self)
        ensures
            r.port == port,
            r.path@ == path@,
            r.concurrent_count == concurrent_count,
            r.operations_per_client == operations_per_client,
            r.timeout_ms == ACCESS_TIMEOUT_MS,
    {
        ConcurrentAccessValidator {
            port,
            path: lit(path),
            concurrent_count,
            operations_per_client,
            timeout_ms: ACCESS_TIMEOUT_MS,
        }
    }

    /// The request every operation sends.
    pub fn request(&self) -> (r: HttpRequest)
        ensures
            r.method@ == "GET"@ && r.path@ == self.path@ && r.headers@.len() == 0 && r.body is None,
    {
        HttpRequest::plain("GET", self.path.as_str())
    }

    pub open spec fn name(&self) -> Seq<char> {
        dec(self.concurrent_count as int) + " concurrent clients x "@ + dec(self.operations_per_client as int) + " operations"@
    }

    pub open spec fn judged(&self, outcome: AccessOutcome) -> Result<Seq<char>, Seq<char>> {
        match outcome {
            AccessOutcome::Settled(ops) => {
                let total = ops@.len() as int;
                let failed = op_failures(ops@);
                if failed.len() == 0 {
                    Ok("all "@ + dec(op_successes(ops@) as int) + "/"@ + dec(total) + " concurrent operations completed successfully"@)
                } else {
                    Err(dec(failed.len() as int) + "/"@ + dec(total) + " operations failed: "@ + error_summary(failed, "failures"@))
                }
            },
            AccessOutcome::Crashed(e) => Err(e@),
            AccessOutcome::TimedOut => Err("concurrent operations timed out after "@ + dec(self.timeout_ms as int) + "ms - possible deadlock"@),
        }
    }

    /// The case for how the clients ended.
    pub fn judge(&self, outcome: AccessOutcome) -> (r: TestCase)
        ensures
            case_is(r, self.name(), self.judged(outcome)),
    {
        let ghost g = outcome;
        let result = match outcome {
            AccessOutcome::Settled(ops) => {
                let mut failures: Vec<String> = Vec::new();
                let mut ok: usize = 0;
                let mut k: usize = 0;
                while k < ops.len()
                    invariant
                        k <= ops@.len(),
                        strings_view(failures@) == op_failures(ops@.subrange(0, k as int)),
                        ok == op_successes(ops@.subrange(0, k as int)),
                        ok <= k,
                    decreases ops@.len() - k,
                {
                    assert(ops@.subrange(0, k + 1).drop_last() =~= ops@.subrange(0, k as int));
                    match &ops[k].error {
                        None => {
                            ok = ok + 1;
                            assert(strings_view(failures@) =~= strings_view(failures@) + Seq::<Seq<char>>::empty());
                        },
                        Some(e) => {
                            let mut m = lit("client ");
                            m.append(dec_u64(ops[k].client as u64).as_str());
                            m.append(", op ");
                            m.append(dec_u64(ops[k].op as u64).as_str());
                            m.append(": ");
                            m.append(e.as_str());
                            let ghost before = strings_view(failures@);
                            failures.push(m);
                            assert(strings_view(failures@) =~= before + seq![m@]);
                        },
                    }
                    k = k + 1;
                }
                assert(ops@.subrange(0, k as int) =~= ops@);
                let total = dec_u64(ops.len() as u64);
                if failures.len() == 0 {
                    let mut m = lit("all ");
                    m.append(dec_u64(ok as u64).as_str());
                    m.append("/");
                    m.append(total.as_str());
                    m.append(" concurrent operations completed successfully");
                    Ok(m)
                } else {
                    let mut m = dec_u64(failures.len() as u64);
                    m.append("/");
                    m.append(total.as_str());
                    m.append(" operations failed: ");
                    m.append(error_summary_text(&failures, "failures").as_str());
                    Err(m)
                }
            },
            AccessOutcome::Crashed(e) => Err(e),
            AccessOutcome::TimedOut => {
                let mut m = lit("concurrent operations timed out after ");
                m.append(dec_u64(self.timeout_ms).as_str());
                m.append("ms - possible deadlock");
                Err(m)
            },
        };
        let mut name = dec_u64(self.concurrent_count as u64);
        name.append(" concurrent clients x ");
        name.append(dec_u64(self.operations_per_client as u64).as_str());
        name.append(" operations");
        TestCase { name, result }
    }
}

} // verus!
