//! From a spec string to a validator: the catalogue of validator kinds, their
//! positional parameters, and the aliases that preset some of them.
use vstd::prelude::*;
use crate::basic::{FileContentsMatchValidator, PortValidator};
use crate::compile::CanCompileValidator;
use crate::docker::{expectation_of, DockerValidator, Expectation};
use crate::http::{opt_view, DEFAULT_PORT};
use crate::json::strings_view;
use crate::parser::{
    opt_str, param_bool, param_int, param_str, parse_validator, parsed_spec, strings_from,
    ParamView, ParsedValidator,
};
use crate::process::{ConcurrentAccessValidator, GracefulShutdownValidator, ACCESS_TIMEOUT_MS};
use crate::protocol::{
    case_is, ConcurrentRequestsValidator, HttpGetCompressedValidator, HttpGetFileValidator,
    HttpGetValidator, HttpGetWithHeaderValidator, HttpHeaderPresentValidator,
    HttpHeaderValueValidator, HttpJsonExistsValidator, HttpJsonFieldValidator,
    HttpPostFileValidator, HttpPostJsonValidator, HttpStatusValidator, RateLimitValidator,
};
use crate::results::TestCase;
use crate::scenario::{
    HttpHealthCheck, HttpJsonFieldNested, HttpJsonFieldValue, HttpRequestWithBody,
    HttpStatusCheck, JobPriorityVerified, JobProcessingVerified, JobResultVerified,
    JobRetryVerified, JobSubmissionVerified, JobTimeoutReasonVerified, JobTimeoutVerified,
    WorkerPoolConcurrent, WorkerScaleDown, WorkerScaleUp, SCENARIO_PORT,
};
use crate::text::{chars_of, lit, same};

verus! {

/// `x` reduced into `u16`, as `x as u16` does.
pub open spec fn wrap16(x: int) -> u16 {
    (x % 0x1_0000) as u16
}

/// `x` reduced into `u32`, as `x as u32` does.
pub open spec fn wrap32(x: int) -> u32 {
    (x % 0x1_0000_0000) as u32
}

/// `x` reduced into `u64`, as `x as u64` does.
pub open spec fn wrap64(x: int) -> u64 {
    (x % 0x1_0000_0000_0000_0000) as u64
}

pub fn to_u16(x: i64) -> (r: u16)
    ensures
        r == wrap16(x as int),
{
    let m: i64 = x % 0x1_0000;
    let w: i64 = if m < 0 { m + 0x1_0000 } else { m };
    w as u16
}

pub fn to_u32(x: i64) -> (r: u32)
    ensures
        r == wrap32(x as int),
{
    let m: i64 = x % 0x1_0000_0000;
    let w: i64 = if m < 0 { m + 0x1_0000_0000 } else { m };
    w as u32
}

pub fn to_u64(x: i64) -> (r: u64)
    ensures
        r == wrap64(x as int),
{
    if x < 0 {
        (x as i128 + 0x1_0000_0000_0000_0000i128) as u64
    } else {
        x as u64
    }
}

/// A construction that failed with `e`.
pub open spec fn failed(r: Result<RuntimeValidator, String>, e: Seq<char>) -> bool {
    r is Err && r->Err_0@ == e
}

fn is_word(n: &Vec<char>, w: &str) -> (r: bool)
    ensures
        r == (n@ == w@),
{
    same(n, &chars_of(w))
}

fn joined(a: &str, b: &str) -> (r: String)
    ensures
        r@ == a@ + b@,
{
    let mut s = lit(a);
    s.append(b);
    s
}

/// A validator ready to run: one variant per kind, each with its own settings.
pub enum RuntimeValidator {
    TcpListening(PortValidator),
    HttpResponseStatus(HttpStatusValidator),
    HttpGet(HttpGetValidator),
    HttpHeaderPresent(HttpHeaderPresentValidator),
    HttpHeaderValue(HttpHeaderValueValidator),
    HttpGetWithHeader(HttpGetWithHeaderValidator),
    ConcurrentRequests(ConcurrentRequestsValidator),
    HttpPostFile(HttpPostFileValidator),
    HttpGetFile(HttpGetFileValidator),
    HttpGetCompressed(HttpGetCompressedValidator),
    FileContentsMatch(FileContentsMatchValidator),
    CanCompile(CanCompileValidator),
    HttpJsonExists(HttpJsonExistsValidator),
    HttpJsonField(HttpJsonFieldValidator),
    HttpPostJson(HttpPostJsonValidator),
    RateLimit(RateLimitValidator),
    GracefulShutdown(GracefulShutdownValidator),
    ConcurrentAccess(ConcurrentAccessValidator),
    JobSubmissionVerified(JobSubmissionVerified),
    JobProcessingVerified(JobProcessingVerified),
    WorkerPoolConcurrent(WorkerPoolConcurrent),
    JobResultVerified(JobResultVerified),
    JobPriorityVerified(JobPriorityVerified),
    JobTimeoutVerified(JobTimeoutVerified),
    JobTimeoutReasonVerified(JobTimeoutReasonVerified),
    JobRetryVerified(JobRetryVerified),
    WorkerScaleUp(WorkerScaleUp),
    WorkerScaleDown(WorkerScaleDown),
    HttpRequestWithBody(HttpRequestWithBody),
    HttpJsonFieldNested(HttpJsonFieldNested),
    HttpHealthCheck(HttpHealthCheck),
    HttpJsonFieldValue(HttpJsonFieldValue),
    HttpStatusCheck(HttpStatusCheck),
    Docker(DockerValidator),
    /// A kind this engine does not know yet; it reports itself as such.
    NotImplemented(String),
}

impl RuntimeValidator {
    pub open spec fn kind_name(&self) -> Seq<char> {
        match self {
            RuntimeValidator::TcpListening(_) => "tcp_listening"@,
            RuntimeValidator::HttpResponseStatus(_) => "http_response_status"@,
            RuntimeValidator::HttpGet(_) => "http_get"@,
            RuntimeValidator::HttpHeaderPresent(_) => "http_header_present"@,
            RuntimeValidator::HttpHeaderValue(_) => "http_header_value"@,
            RuntimeValidator::HttpGetWithHeader(_) => "http_get_with_header"@,
            RuntimeValidator::ConcurrentRequests(_) => "concurrent_requests"@,
            RuntimeValidator::HttpPostFile(_) => "http_post_file"@,
            RuntimeValidator::HttpGetFile(_) => "http_get_file"@,
            RuntimeValidator::HttpGetCompressed(_) => "http_get_compressed"@,
            RuntimeValidator::FileContentsMatch(_) => "file_contents_match"@,
            RuntimeValidator::CanCompile(_) => "can_compile"@,
            RuntimeValidator::HttpJsonExists(_) => "http_json_exists"@,
            RuntimeValidator::HttpJsonField(_) => "http_json_field"@,
            RuntimeValidator::HttpPostJson(_) => "http_post_json"@,
            RuntimeValidator::RateLimit(_) => "rate_limit"@,
            RuntimeValidator::GracefulShutdown(_) => "graceful_shutdown"@,
            RuntimeValidator::ConcurrentAccess(_) => "concurrent_access"@,
            RuntimeValidator::JobSubmissionVerified(_) => "job_submission_verified"@,
            RuntimeValidator::JobProcessingVerified(_) => "job_processing_verified"@,
            RuntimeValidator::WorkerPoolConcurrent(_) => "worker_pool_concurrent"@,
            RuntimeValidator::JobResultVerified(_) => "job_result"@,
            RuntimeValidator::JobPriorityVerified(_) => "job_priority"@,
            RuntimeValidator::JobTimeoutVerified(_) => "job_timeout"@,
            RuntimeValidator::JobTimeoutReasonVerified(_) => "job_timeout_reason"@,
            RuntimeValidator::JobRetryVerified(_) => "job_retry"@,
            RuntimeValidator::WorkerScaleUp(_) => "worker_scale_up"@,
            RuntimeValidator::WorkerScaleDown(_) => "worker_scale_down"@,
            RuntimeValidator::HttpRequestWithBody(_) => "http_request"@,
            RuntimeValidator::HttpJsonFieldNested(_) => "http_json_field_nested"@,
            RuntimeValidator::HttpHealthCheck(_) => "http_health_check"@,
            RuntimeValidator::HttpJsonFieldValue(_) => "http_json_field_value"@,
            RuntimeValidator::HttpStatusCheck(_) => "http_status_check"@,
            RuntimeValidator::Docker(_) => "docker"@,
            RuntimeValidator::NotImplemented(n) => n@,
        }
    }

    /// The kind's name; an unknown kind keeps the name it was given.
    pub fn name(&self) -> (r: &str)
        ensures
            r@ == self.kind_name(),
    {
        match self {
            RuntimeValidator::TcpListening(_) => "tcp_listening",
            RuntimeValidator::HttpResponseStatus(_) => "http_response_status",
            RuntimeValidator::HttpGet(_) => "http_get",
            RuntimeValidator::HttpHeaderPresent(_) => "http_header_present",
            RuntimeValidator::HttpHeaderValue(_) => "http_header_value",
            RuntimeValidator::HttpGetWithHeader(_) => "http_get_with_header",
            RuntimeValidator::ConcurrentRequests(_) => "concurrent_requests",
            RuntimeValidator::HttpPostFile(_) => "http_post_file",
            RuntimeValidator::HttpGetFile(_) => "http_get_file",
            RuntimeValidator::HttpGetCompressed(_) => "http_get_compressed",
            RuntimeValidator::FileContentsMatch(_) => "file_contents_match",
            RuntimeValidator::CanCompile(_) => "can_compile",
            RuntimeValidator::HttpJsonExists(_) => "http_json_exists",
            RuntimeValidator::HttpJsonField(_) => "http_json_field",
            RuntimeValidator::HttpPostJson(_) => "http_post_json",
            RuntimeValidator::RateLimit(_) => "rate_limit",
            RuntimeValidator::GracefulShutdown(_) => "graceful_shutdown",
            RuntimeValidator::ConcurrentAccess(_) => "concurrent_access",
            RuntimeValidator::JobSubmissionVerified(_) => "job_submission_verified",
            RuntimeValidator::JobProcessingVerified(_) => "job_processing_verified",
            RuntimeValidator::WorkerPoolConcurrent(_) => "worker_pool_concurrent",
            RuntimeValidator::JobResultVerified(_) => "job_result",
            RuntimeValidator::JobPriorityVerified(_) => "job_priority",
            RuntimeValidator::JobTimeoutVerified(_) => "job_timeout",
            RuntimeValidator::JobTimeoutReasonVerified(_) => "job_timeout_reason",
            RuntimeValidator::JobRetryVerified(_) => "job_retry",
            RuntimeValidator::WorkerScaleUp(_) => "worker_scale_up",
            RuntimeValidator::WorkerScaleDown(_) => "worker_scale_down",
            RuntimeValidator::HttpRequestWithBody(_) => "http_request",
            RuntimeValidator::HttpJsonFieldNested(_) => "http_json_field_nested",
            RuntimeValidator::HttpHealthCheck(_) => "http_health_check",
            RuntimeValidator::HttpJsonFieldValue(_) => "http_json_field_value",
            RuntimeValidator::HttpStatusCheck(_) => "http_status_check",
            RuntimeValidator::Docker(_) => "docker",
            RuntimeValidator::NotImplemented(n) => n.as_str(),
        }
    }

    /// The case a not-implemented kind reports; `None` for every other kind.
    pub fn not_implemented_case(&self) -> (r: Option<TestCase>)
        ensures
            match self {
                RuntimeValidator::NotImplemented(n) => r is Some && case_is(
                    r->0,
                    "validator '"@ + n@ + "'"@,
                    Err("validator '"@ + n@ + "' not implemented yet"@),
                ),
                _ => r is None,
            },
    {
        match self {
            RuntimeValidator::NotImplemented(n) => {
                let mut name = lit("validator '");
                name.append(n.as_str());
                name.append("'");
                let mut m = lit("validator '");
                m.append(n.as_str());
                m.append("' not implemented yet");
                Some(TestCase { name, result: Err(m) })
            },
            _ => None,
        }
    }
}

/// What `tcp_listening` builds from its parameters.
pub open spec fn tcp_listening_built(ps: Seq<ParamView>, r: Result<RuntimeValidator, String>) -> bool {
    match param_int(ps, 0) {
        Err(e) => failed(r, e),
        Ok(a0) => {
            r matches Ok(RuntimeValidator::TcpListening(v))
                && v.spec_port() == wrap16(a0)
        },
    }
}

/// What `http_response_status` builds from its parameters.
pub open spec fn http_response_status_built(ps: Seq<ParamView>, r: Result<RuntimeValidator, String>) -> bool {
    match param_int(ps, 0) {
        Err(e) => failed(r, e),
        Ok(a0) => {
            r matches Ok(RuntimeValidator::HttpResponseStatus(v))
                && v.port == DEFAULT_PORT
                && v.expected_status == wrap16(a0)
        },
    }
}

/// What `http_get` builds from its parameters.
pub open spec fn http_get_built(ps: Seq<ParamView>, r: Result<RuntimeValidator, String>) -> bool {
    match param_str(ps, 0) {
        Err(e) => failed(r, e),
        Ok(a0) => {
            match param_int(ps, 1) {
                Err(e) => failed(r, e),
                Ok(a1) => {
                    let a2 = opt_str(ps, 2);
                    r matches Ok(RuntimeValidator::HttpGet(v))
                        && v.port == DEFAULT_PORT
                        && v.path@ == a0
                        && v.expected_status == wrap16(a1)
                        && opt_view(v.expected_body) == a2
                },
            }
        },
    }
}

/// What `http_header_present` builds from its parameters.
pub open spec fn http_header_present_built(ps: Seq<ParamView>, r: Result<RuntimeValidator, String>) -> bool {
    match param_str(ps, 0) {
        Err(e) => failed(r, e),
        Ok(a0) => {
            match param_bool(ps, 1) {
                Err(e) => failed(r, e),
                Ok(a1) => {
                    r matches Ok(RuntimeValidator::HttpHeaderPresent(v))
                        && v.port == DEFAULT_PORT
                        && v.path@ == "/"@
                        && v.header_name@ == a0
                        && v.should_exist == a1
                },
            }
        },
    }
}

/// What `http_header_value` builds from its parameters.
pub open spec fn http_header_value_built(ps: Seq<ParamView>, r: Result<RuntimeValidator, String>) -> bool {
    match param_str(ps, 0) {
        Err(e) => failed(r, e),
        Ok(a0) => {
            match param_str(ps, 1) {
                Err(e) => failed(r, e),
                Ok(a1) => {
                    r matches Ok(RuntimeValidator::HttpHeaderValue(v))
                        && v.port == DEFAULT_PORT
                        && v.path@ == "/"@
                        && v.header_name@ == a0
                        && v.expected_value@ == a1
                },
            }
        },
    }
}

/// What `http_get_with_header` builds from its parameters.
pub open spec fn http_get_with_header_built(ps: Seq<ParamView>, r: Result<RuntimeValidator, String>) -> bool {
    match param_str(ps, 0) {
        Err(e) => failed(r, e),
        Ok(a0) => {
            match param_str(ps, 1) {
                Err(e) => failed(r, e),
                Ok(a1) => {
                    match param_str(ps, 2) {
                        Err(e) => failed(r, e),
                        Ok(a2) => {
                            match param_int(ps, 3) {
                                Err(e) => failed(r, e),
                                Ok(a3) => {
                                    let a4 = opt_str(ps, 4);
                                    r matches Ok(RuntimeValidator::HttpGetWithHeader(v))
                                        && v.port == DEFAULT_PORT
                                        && v.path@ == a0
                                        && v.request_header.0@ == a1
                                        && v.request_header.1@ == a2
                                        && v.expected_status == wrap16(a3)
                                        && opt_view(v.expected_body) == a4
                                },
                            }
                        },
                    }
                },
            }
        },
    }
}

/// What `concurrent_requests` builds from its parameters.
pub open spec fn concurrent_requests_built(ps: Seq<ParamView>, r: Result<RuntimeValidator, String>) -> bool {
    match param_int(ps, 0) {
        Err(e) => failed(r, e),
        Ok(a0) => {
            match param_str(ps, 1) {
                Err(e) => failed(r, e),
                Ok(a1) => {
                    match param_int(ps, 2) {
                        Err(e) => failed(r, e),
                        Ok(a2) => {
                            r matches Ok(RuntimeValidator::ConcurrentRequests(v))
                                && v.port == DEFAULT_PORT
                                && v.num_connections == wrap32(a0)
                                && v.path@ == a1
                                && v.expected_status == wrap16(a2)
                        },
                    }
                },
            }
        },
    }
}

/// What `http_post_file` builds from its parameters.
pub open spec fn http_post_file_built(ps: Seq<ParamView>, r: Result<RuntimeValidator, String>) -> bool {
    match param_str(ps, 0) {
        Err(e) => failed(r, e),
        Ok(a0) => {
            match param_str(ps, 1) {
                Err(e) => failed(r, e),
                Ok(a1) => {
                    match param_int(ps, 2) {
                        Err(e) => failed(r, e),
                        Ok(a2) => {
                            r matches Ok(RuntimeValidator::HttpPostFile(v))
                                && v.port == DEFAULT_PORT
                                && v.path@ == a0
                                && v.body@ == a1
                                && v.expected_status == wrap16(a2)
                        },
                    }
                },
            }
        },
    }
}

/// What `can_compile` builds from its parameters.
pub open spec fn can_compile_built(ps: Seq<ParamView>, r: Result<RuntimeValidator, String>) -> bool {
    match param_bool(ps, 0) {
        Err(e) => failed(r, e),
        Ok(a0) => {
            r matches Ok(RuntimeValidator::CanCompile(v))
                && v.expected_success == a0
        },
    }
}

/// What `http_get_file` builds from its parameters.
pub open spec fn http_get_file_built(ps: Seq<ParamView>, r: Result<RuntimeValidator, String>) -> bool {
    match param_str(ps, 0) {
        Err(e) => failed(r, e),
        Ok(a0) => {
            match param_int(ps, 1) {
                Err(e) => failed(r, e),
                Ok(a1) => {
                    r matches Ok(RuntimeValidator::HttpGetFile(v))
                        && v.port == DEFAULT_PORT
                        && v.path@ == a0
                        && v.expected_status == wrap16(a1)
                },
            }
        },
    }
}

/// What `http_get_compressed` builds from its parameters.
pub open spec fn http_get_compressed_built(ps: Seq<ParamView>, r: Result<RuntimeValidator, String>) -> bool {
    match param_str(ps, 0) {
        Err(e) => failed(r, e),
        Ok(a0) => {
            match param_str(ps, 1) {
                Err(e) => failed(r, e),
                Ok(a1) => {
                    r matches Ok(RuntimeValidator::HttpGetCompressed(v))
                        && v.port == DEFAULT_PORT
                        && v.path@ == a0
                        && v.encoding@ == a1
                },
            }
        },
    }
}

/// What `file_contents_match` builds from its parameters.
pub open spec fn file_contents_match_built(ps: Seq<ParamView>, r: Result<RuntimeValidator, String>) -> bool {
    match param_str(ps, 0) {
        Err(e) => failed(r, e),
        Ok(a0) => {
            match param_str(ps, 1) {
                Err(e) => failed(r, e),
                Ok(a1) => {
                    r matches Ok(RuntimeValidator::FileContentsMatch(v))
                        && v.path@ == a0
                        && v.expected_content@ == a1
                },
            }
        },
    }
}

/// What `http_json_exists` builds from its parameters.
pub open spec fn http_json_exists_built(ps: Seq<ParamView>, r: Result<RuntimeValidator, String>) -> bool {
    match param_str(ps, 0) {
        Err(e) => failed(r, e),
        Ok(a0) => {
            match param_str(ps, 1) {
                Err(e) => failed(r, e),
                Ok(a1) => {
                    let a2 = strings_from(ps, 2);
                    r matches Ok(RuntimeValidator::HttpJsonExists(v))
                        && v.port == DEFAULT_PORT
                        && v.path@ == a0
                        && v.method@ == a1
                        && strings_view(v.fields@) == a2
                },
            }
        },
    }
}

/// What `http_json_field` builds from its parameters.
pub open spec fn http_json_field_built(ps: Seq<ParamView>, r: Result<RuntimeValidator, String>) -> bool {
    match param_str(ps, 0) {
        Err(e) => failed(r, e),
        Ok(a0) => {
            match param_str(ps, 1) {
                Err(e) => failed(r, e),
                Ok(a1) => {
                    match param_str(ps, 2) {
                        Err(e) => failed(r, e),
                        Ok(a2) => {
                            match param_str(ps, 3) {
                                Err(e) => failed(r, e),
                                Ok(a3) => {
                                    r matches Ok(RuntimeValidator::HttpJsonField(v))
                                        && v.port == DEFAULT_PORT
                                        && v.path@ == a0
                                        && v.method@ == a1
                                        && v.field@ == a2
                                        && v.expected_value@ == a3
                                },
                            }
                        },
                    }
                },
            }
        },
    }
}

/// What `http_post_json` builds from its parameters.
pub open spec fn http_post_json_built(ps: Seq<ParamView>, r: Result<RuntimeValidator, String>) -> bool {
    match param_str(ps, 0) {
        Err(e) => failed(r, e),
        Ok(a0) => {
            match param_str(ps, 1) {
                Err(e) => failed(r, e),
                Ok(a1) => {
                    match param_int(ps, 2) {
                        Err(e) => failed(r, e),
                        Ok(a2) => {
                            r matches Ok(RuntimeValidator::HttpPostJson(v))
                                && v.port == DEFAULT_PORT
                                && v.path@ == a0
                                && v.body@ == a1
                                && v.expected_status == wrap16(a2)
                                && v.expected_field is None
                        },
                    }
                },
            }
        },
    }
}

/// What `rate_limit` builds from its parameters.
pub open spec fn rate_limit_built(ps: Seq<ParamView>, r: Result<RuntimeValidator, String>) -> bool {
    match param_str(ps, 0) {
        Err(e) => failed(r, e),
        Ok(a0) => {
            match param_str(ps, 1) {
                Err(e) => failed(r, e),
                Ok(a1) => {
                    match param_int(ps, 2) {
                        Err(e) => failed(r, e),
                        Ok(a2) => {
                            match param_int(ps, 3) {
                                Err(e) => failed(r, e),
                                Ok(a3) => {
                                    match param_int(ps, 4) {
                                        Err(e) => failed(r, e),
                                        Ok(a4) => {
                                            r matches Ok(RuntimeValidator::RateLimit(v))
                                                && v.port == DEFAULT_PORT
                                                && v.path@ == a0
                                                && v.method@ == a1
                                                && v.requests == wrap32(a2)
                                                && v.window_ms == wrap64(a3)
                                                && v.expected_rejected == wrap32(a4)
                                        },
                                    }
                                },
                            }
                        },
                    }
                },
            }
        },
    }
}

/// What `graceful_shutdown` builds from its parameters.
pub open spec fn graceful_shutdown_built(ps: Seq<ParamView>, r: Result<RuntimeValidator, String>) -> bool {
    match param_str(ps, 0) {
        Err(e) => failed(r, e),
        Ok(a0) => {
            match param_int(ps, 1) {
                Err(e) => failed(r, e),
                Ok(a1) => {
                    r matches Ok(RuntimeValidator::GracefulShutdown(v))
                        && v.binary_path@ == a0
                        && v.timeout_ms == wrap64(a1)
                        && v.expected_exit_code == 0
                        && v.startup_wait_ms == 1000
                },
            }
        },
    }
}

/// What `concurrent_access` builds from its parameters.
pub open spec fn concurrent_access_built(ps: Seq<ParamView>, r: Result<RuntimeValidator, String>) -> bool {
    match param_int(ps, 0) {
        Err(e) => failed(r, e),
        Ok(a0) => {
            match param_str(ps, 1) {
                Err(e) => failed(r, e),
                Ok(a1) => {
                    match param_int(ps, 2) {
                        Err(e) => failed(r, e),
                        Ok(a2) => {
                            match param_int(ps, 3) {
                                Err(e) => failed(r, e),
                                Ok(a3) => {
                                    r matches Ok(RuntimeValidator::ConcurrentAccess(v))
                                        && v.port == wrap16(a0)
                                        && v.path@ == a1
                                        && v.concurrent_count == wrap32(a2)
                                        && v.operations_per_client == wrap32(a3)
                                        && v.timeout_ms == ACCESS_TIMEOUT_MS
                                },
                            }
                        },
                    }
                },
            }
        },
    }
}

/// What `job_submission_verified` builds from its parameters.
pub open spec fn job_submission_verified_built(ps: Seq<ParamView>, r: Result<RuntimeValidator, String>) -> bool {
    let a0 = match param_str(ps, 0) {
        Ok(s) => s,
        Err(_) => "test"@,
    };
    let a1 = match param_str(ps, 1) {
        Ok(s) => s,
        Err(_) => "data"@,
    };
    r matches Ok(RuntimeValidator::JobSubmissionVerified(v))
        && v.port == SCENARIO_PORT
        && v.job_type@ == a0
        && v.payload@ == a1
}

/// What `job_processing_verified` builds from its parameters.
pub open spec fn job_processing_verified_built(ps: Seq<ParamView>, r: Result<RuntimeValidator, String>) -> bool {
    let a0: u64 = match param_int(ps, 0) {
        Ok(x) => wrap64(x),
        Err(_) => 200,
    };
    let a1 = match param_str(ps, 1) {
        Ok(s) => s,
        Err(_) => "completed"@,
    };
    r matches Ok(RuntimeValidator::JobProcessingVerified(v))
        && v.port == SCENARIO_PORT
        && v.job_type@ == "test"@
        && v.payload@ == "data"@
        && v.wait_ms == a0
        && v.expected_status@ == a1
}

/// What `worker_pool_concurrent` builds from its parameters.
pub open spec fn worker_pool_concurrent_built(ps: Seq<ParamView>, r: Result<RuntimeValidator, String>) -> bool {
    let a0: u32 = match param_int(ps, 0) {
        Ok(x) => wrap32(x),
        Err(_) => 4,
    };
    let a1: u32 = match param_int(ps, 1) {
        Ok(x) => wrap32(x),
        Err(_) => 4,
    };
    let a2: u64 = match param_int(ps, 2) {
        Ok(x) => wrap64(x),
        Err(_) => 1000,
    };
    r matches Ok(RuntimeValidator::WorkerPoolConcurrent(v))
        && v.port == SCENARIO_PORT
        && v.worker_count == a0
        && v.job_count == a1
        && v.job_duration_ms == 500
        && v.max_total_ms == a2
}

/// What `job_result` builds from its parameters.
pub open spec fn job_result_built(ps: Seq<ParamView>, r: Result<RuntimeValidator, String>) -> bool {
    match param_str(ps, 0) {
        Err(e) => failed(r, e),
        Ok(a0) => {
            match param_str(ps, 1) {
                Err(e) => failed(r, e),
                Ok(a1) => {
                    match param_str(ps, 2) {
                        Err(e) => failed(r, e),
                        Ok(a2) => {
                            r matches Ok(RuntimeValidator::JobResultVerified(v))
                                && v.port == SCENARIO_PORT
                                && v.job_type@ == a0
                                && v.payload@ == a1
                                && v.expected_result@ == a2
                        },
                    }
                },
            }
        },
    }
}

/// What `job_priority` builds from its parameters.
pub open spec fn job_priority_built(ps: Seq<ParamView>, r: Result<RuntimeValidator, String>) -> bool {
    let a0: u32 = match param_int(ps, 0) {
        Ok(x) => wrap32(x),
        Err(_) => 10,
    };
    let a1: u32 = match param_int(ps, 1) {
        Ok(x) => wrap32(x),
        Err(_) => 1,
    };
    r matches Ok(RuntimeValidator::JobPriorityVerified(v))
        && v.port == SCENARIO_PORT
        && v.high_priority == a0
        && v.low_priority == a1
}

/// What `job_timeout` builds from its parameters.
pub open spec fn job_timeout_built(ps: Seq<ParamView>, r: Result<RuntimeValidator, String>) -> bool {
    let a0: u64 = match param_int(ps, 0) {
        Ok(x) => wrap64(x),
        Err(_) => 5000,
    };
    let a1 = match param_str(ps, 1) {
        Ok(s) => s,
        Err(_) => "failed"@,
    };
    r matches Ok(RuntimeValidator::JobTimeoutVerified(v))
        && v.port == SCENARIO_PORT
        && v.job_duration_ms == a0
        && v.expected_status@ == a1
}

/// What `job_timeout_reason` builds from its parameters.
pub open spec fn job_timeout_reason_built(ps: Seq<ParamView>, r: Result<RuntimeValidator, String>) -> bool {
    let a0 = match param_str(ps, 0) {
        Ok(s) => s,
        Err(_) => "timeout"@,
    };
    r matches Ok(RuntimeValidator::JobTimeoutReasonVerified(v))
        && v.port == SCENARIO_PORT
        && v.expected_reason@ == a0
}

/// What `job_retry` builds from its parameters.
pub open spec fn job_retry_built(ps: Seq<ParamView>, r: Result<RuntimeValidator, String>) -> bool {
    let a0 = match param_str(ps, 0) {
        Ok(s) => s,
        Err(_) => "flaky"@,
    };
    let a1: u32 = match param_int(ps, 1) {
        Ok(x) => wrap32(x),
        Err(_) => 3,
    };
    r matches Ok(RuntimeValidator::JobRetryVerified(v))
        && v.port == SCENARIO_PORT
        && v.job_type@ == a0
        && v.max_retries == a1
}

/// What `worker_scale_up` builds from its parameters.
pub open spec fn worker_scale_up_built(ps: Seq<ParamView>, r: Result<RuntimeValidator, String>) -> bool {
    let a0: u32 = match param_int(ps, 0) {
        Ok(x) => wrap32(x),
        Err(_) => 2,
    };
    let a1: u32 = match param_int(ps, 1) {
        Ok(x) => wrap32(x),
        Err(_) => 50,
    };
    let a2: u32 = match param_int(ps, 2) {
        Ok(x) => wrap32(x),
        Err(_) => 4,
    };
    r matches Ok(RuntimeValidator::WorkerScaleUp(v))
        && v.port == SCENARIO_PORT
        && v.initial_workers == a0
        && v.job_count == a1
        && v.expected_min_workers == a2
}

/// What `worker_scale_down` builds from its parameters.
pub open spec fn worker_scale_down_built(ps: Seq<ParamView>, r: Result<RuntimeValidator, String>) -> bool {
    let a0: u32 = match param_int(ps, 0) {
        Ok(x) => wrap32(x),
        Err(_) => 8,
    };
    let a1: u32 = match param_int(ps, 1) {
        Ok(x) => wrap32(x),
        Err(_) => 4,
    };
    r matches Ok(RuntimeValidator::WorkerScaleDown(v))
        && v.port == SCENARIO_PORT
        && v.initial_workers == a0
        && v.expected_max_workers == a1
}

/// What `http_request` builds from its parameters.
pub open spec fn http_request_built(ps: Seq<ParamView>, r: Result<RuntimeValidator, String>) -> bool {
    match param_str(ps, 0) {
        Err(e) => failed(r, e),
        Ok(a0) => {
            match param_str(ps, 1) {
                Err(e) => failed(r, e),
                Ok(a1) => {
                    let a2 = opt_str(ps, 2);
                    let a3: u16 = match param_int(ps, 3) {
                        Ok(x) => wrap16(x),
                        Err(_) => 200,
                    };
                    r matches Ok(RuntimeValidator::HttpRequestWithBody(v))
                        && v.port == SCENARIO_PORT
                        && v.method@ == a0
                        && v.path@ == a1
                        && opt_view(v.body) == a2
                        && v.expected_status == a3
                },
            }
        },
    }
}

/// What `http_json_field_nested` builds from its parameters.
pub open spec fn http_json_field_nested_built(ps: Seq<ParamView>, r: Result<RuntimeValidator, String>) -> bool {
    match param_str(ps, 0) {
        Err(e) => failed(r, e),
        Ok(a0) => {
            match param_str(ps, 1) {
                Err(e) => failed(r, e),
                Ok(a1) => {
                    r matches Ok(RuntimeValidator::HttpJsonFieldNested(v))
                        && v.port == SCENARIO_PORT
                        && v.path@ == a0
                        && v.field_path@ == a1
                },
            }
        },
    }
}

/// What `http_health_check` builds from its parameters.
pub open spec fn http_health_check_built(ps: Seq<ParamView>, r: Result<RuntimeValidator, String>) -> bool {
    match param_str(ps, 0) {
        Err(e) => failed(r, e),
        Ok(a0) => {
            match param_int(ps, 1) {
                Err(e) => failed(r, e),
                Ok(a1) => {
                    match param_str(ps, 2) {
                        Err(e) => failed(r, e),
                        Ok(a2) => {
                            match param_str(ps, 3) {
                                Err(e) => failed(r, e),
                                Ok(a3) => {
                                    r matches Ok(RuntimeValidator::HttpHealthCheck(v))
                                        && v.port == SCENARIO_PORT
                                        && v.path@ == a0
                                        && v.expected_status == wrap16(a1)
                                        && v.expected_field@ == a2
                                        && v.expected_value@ == a3
                                },
                            }
                        },
                    }
                },
            }
        },
    }
}

/// What `http_json_field_value` builds from its parameters.
pub open spec fn http_json_field_value_built(ps: Seq<ParamView>, r: Result<RuntimeValidator, String>) -> bool {
    match param_str(ps, 0) {
        Err(e) => failed(r, e),
        Ok(a0) => {
            match param_str(ps, 1) {
                Err(e) => failed(r, e),
                Ok(a1) => {
                    match param_str(ps, 2) {
                        Err(e) => failed(r, e),
                        Ok(a2) => {
                            r matches Ok(RuntimeValidator::HttpJsonFieldValue(v))
                                && v.port == SCENARIO_PORT
                                && v.path@ == a0
                                && v.field@ == a1
                                && v.expected_value@ == a2
                        },
                    }
                },
            }
        },
    }
}

/// What `http_status_check` builds from its parameters.
pub open spec fn http_status_check_built(ps: Seq<ParamView>, r: Result<RuntimeValidator, String>) -> bool {
    match param_str(ps, 0) {
        Err(e) => failed(r, e),
        Ok(a0) => {
            match param_int(ps, 1) {
                Err(e) => failed(r, e),
                Ok(a1) => {
                    r matches Ok(RuntimeValidator::HttpStatusCheck(v))
                        && v.port == SCENARIO_PORT
                        && v.path@ == a0
                        && v.expected_status == wrap16(a1)
                },
            }
        },
    }
}

/// What `http_path_root` builds from its parameters.
pub open spec fn http_path_root_built(ps: Seq<ParamView>, r: Result<RuntimeValidator, String>) -> bool {
    match param_int(ps, 0) {
        Err(e) => failed(r, e),
        Ok(a0) => {
            r matches Ok(RuntimeValidator::HttpGet(v))
                && v.port == DEFAULT_PORT
                && v.path@ == "/"@
                && v.expected_status == wrap16(a0)
                && opt_view(v.expected_body) == None::<Seq<char>>
        },
    }
}

/// What `http_path_unknown` builds from its parameters.
pub open spec fn http_path_unknown_built(ps: Seq<ParamView>, r: Result<RuntimeValidator, String>) -> bool {
    match param_int(ps, 0) {
        Err(e) => failed(r, e),
        Ok(a0) => {
            r matches Ok(RuntimeValidator::HttpGet(v))
                && v.port == DEFAULT_PORT
                && v.path@ == "/nonexistent-path-for-testing"@
                && v.expected_status == wrap16(a0)
                && opt_view(v.expected_body) == None::<Seq<char>>
        },
    }
}

/// What `http_header_server` builds from its parameters.
pub open spec fn http_header_server_built(ps: Seq<ParamView>, r: Result<RuntimeValidator, String>) -> bool {
    match param_bool(ps, 0) {
        Err(e) => failed(r, e),
        Ok(a0) => {
            r matches Ok(RuntimeValidator::HttpHeaderPresent(v))
                && v.port == DEFAULT_PORT
                && v.path@ == "/"@
                && v.header_name@ == "Server"@
                && v.should_exist == a0
        },
    }
}

/// What `http_header_date` builds from its parameters.
pub open spec fn http_header_date_built(ps: Seq<ParamView>, r: Result<RuntimeValidator, String>) -> bool {
    match param_bool(ps, 0) {
        Err(e) => failed(r, e),
        Ok(a0) => {
            r matches Ok(RuntimeValidator::HttpHeaderPresent(v))
                && v.port == DEFAULT_PORT
                && v.path@ == "/"@
                && v.header_name@ == "Date"@
                && v.should_exist == a0
        },
    }
}

/// What `http_header_connection` builds from its parameters.
pub open spec fn http_header_connection_built(ps: Seq<ParamView>, r: Result<RuntimeValidator, String>) -> bool {
    match param_str(ps, 0) {
        Err(e) => failed(r, e),
        Ok(a0) => {
            r matches Ok(RuntimeValidator::HttpHeaderValue(v))
                && v.port == DEFAULT_PORT
                && v.path@ == "/"@
                && v.header_name@ == "Connection"@
                && v.expected_value@ == a0
        },
    }
}

/// What `http_echo` builds from its parameters.
pub open spec fn http_echo_built(ps: Seq<ParamView>, r: Result<RuntimeValidator, String>) -> bool {
    match param_str(ps, 0) {
        Err(e) => failed(r, e),
        Ok(a0) => {
            match param_str(ps, 1) {
                Err(e) => failed(r, e),
                Ok(a1) => {
                    r matches Ok(RuntimeValidator::HttpGet(v))
                        && v.port == DEFAULT_PORT
                        && v.path@ == "/echo/"@ + a0
                        && v.expected_status == 200
                        && opt_view(v.expected_body) == Some(a1)
                },
            }
        },
    }
}

/// What `http_user_agent` builds from its parameters.
pub open spec fn http_user_agent_built(ps: Seq<ParamView>, r: Result<RuntimeValidator, String>) -> bool {
    match param_str(ps, 0) {
        Err(e) => failed(r, e),
        Ok(a0) => {
            match param_str(ps, 1) {
                Err(e) => failed(r, e),
                Ok(a1) => {
                    r matches Ok(RuntimeValidator::HttpGetWithHeader(v))
                        && v.port == DEFAULT_PORT
                        && v.path@ == "/user-agent"@
                        && v.request_header.0@ == "User-Agent"@
                        && v.request_header.1@ == a0
                        && v.expected_status == 200
                        && opt_view(v.expected_body) == Some(a1)
                },
            }
        },
    }
}

/// What `http_concurrent_clients` builds from its parameters.
pub open spec fn http_concurrent_clients_built(ps: Seq<ParamView>, r: Result<RuntimeValidator, String>) -> bool {
    match param_int(ps, 0) {
        Err(e) => failed(r, e),
        Ok(a0) => {
            r matches Ok(RuntimeValidator::ConcurrentRequests(v))
                && v.port == DEFAULT_PORT
                && v.num_connections == wrap32(a0)
                && v.path@ == "/"@
                && v.expected_status == 200
        },
    }
}

/// What `http_query_param` builds from its parameters.
pub open spec fn http_query_param_built(ps: Seq<ParamView>, r: Result<RuntimeValidator, String>) -> bool {
    match param_str(ps, 0) {
        Err(e) => failed(r, e),
        Ok(a0) => {
            match param_str(ps, 1) {
                Err(e) => failed(r, e),
                Ok(a1) => {
                    match param_str(ps, 2) {
                        Err(e) => failed(r, e),
                        Ok(a2) => {
                            r matches Ok(RuntimeValidator::HttpGet(v))
                                && v.port == DEFAULT_PORT
                                && v.path@ == "/search?"@ + a0 + ("="@ + a1)
                                && v.expected_status == 200
                                && opt_view(v.expected_body) == Some(a2)
                        },
                    }
                },
            }
        },
    }
}

/// What `http_query_missing` builds from its parameters.
pub open spec fn http_query_missing_built(ps: Seq<ParamView>, r: Result<RuntimeValidator, String>) -> bool {
    match param_int(ps, 0) {
        Err(e) => failed(r, e),
        Ok(a0) => {
            r matches Ok(RuntimeValidator::HttpGet(v))
                && v.port == DEFAULT_PORT
                && v.path@ == "/search"@
                && v.expected_status == wrap16(a0)
                && opt_view(v.expected_body) == None::<Seq<char>>
        },
    }
}

/// What `http_file_not_found` builds from its parameters.
pub open spec fn http_file_not_found_built(ps: Seq<ParamView>, r: Result<RuntimeValidator, String>) -> bool {
    match param_str(ps, 0) {
        Err(e) => failed(r, e),
        Ok(a0) => {
            match param_int(ps, 1) {
                Err(e) => failed(r, e),
                Ok(a1) => {
                    r matches Ok(RuntimeValidator::HttpGet(v))
                        && v.port == DEFAULT_PORT
                        && v.path@ == "/files/"@ + a0
                        && v.expected_status == wrap16(a1)
                        && opt_view(v.expected_body) == None::<Seq<char>>
                },
            }
        },
    }
}

/// What `http_content_type` builds from its parameters.
pub open spec fn http_content_type_built(ps: Seq<ParamView>, r: Result<RuntimeValidator, String>) -> bool {
    match param_str(ps, 0) {
        Err(e) => failed(r, e),
        Ok(a0) => {
            match param_str(ps, 1) {
                Err(e) => failed(r, e),
                Ok(a1) => {
                    r matches Ok(RuntimeValidator::HttpGetFile(v))
                        && v.port == DEFAULT_PORT
                        && v.path@ == "/files/"@ + a0
                        && v.expected_status == 200
                },
            }
        },
    }
}

/// What `http_gzip_encoding` builds from its parameters.
pub open spec fn http_gzip_encoding_built(ps: Seq<ParamView>, r: Result<RuntimeValidator, String>) -> bool {
    match param_str(ps, 0) {
        Err(e) => failed(r, e),
        Ok(a0) => {
            r matches Ok(RuntimeValidator::HttpGetCompressed(v))
                && v.port == DEFAULT_PORT
                && v.path@ == a0
                && v.encoding@ == "gzip"@
        },
    }
}

/// What `http_file_get` builds from its parameters.
pub open spec fn http_file_get_alias_built(ps: Seq<ParamView>, r: Result<RuntimeValidator, String>) -> bool {
    match param_str(ps, 0) {
        Err(e) => failed(r, e),
        Ok(a0) => {
            match param_str(ps, 1) {
                Err(e) => failed(r, e),
                Ok(a1) => {
                    r matches Ok(RuntimeValidator::HttpGet(v))
                        && v.port == DEFAULT_PORT
                        && v.path@ == "/files/"@ + a0
                        && v.expected_status == 200
                        && opt_view(v.expected_body) == Some(a1)
                },
            }
        },
    }
}

/// What `http_file_traversal` builds from its parameters.
pub open spec fn http_file_traversal_built(ps: Seq<ParamView>, r: Result<RuntimeValidator, String>) -> bool {
    match param_str(ps, 0) {
        Err(e) => failed(r, e),
        Ok(a0) => {
            match param_int(ps, 1) {
                Err(e) => failed(r, e),
                Ok(a1) => {
                    r matches Ok(RuntimeValidator::HttpGet(v))
                        && v.port == DEFAULT_PORT
                        && v.path@ == "/files/"@ + a0
                        && v.expected_status == wrap16(a1)
                        && opt_view(v.expected_body) == None::<Seq<char>>
                },
            }
        },
    }
}

/// What `http_query_encoded` builds from its parameters.
pub open spec fn http_query_encoded_built(ps: Seq<ParamView>, r: Result<RuntimeValidator, String>) -> bool {
    match param_str(ps, 0) {
        Err(e) => failed(r, e),
        Ok(a0) => {
            match param_str(ps, 1) {
                Err(e) => failed(r, e),
                Ok(a1) => {
                    r matches Ok(RuntimeValidator::HttpGet(v))
                        && v.port == DEFAULT_PORT
                        && v.path@ == "/search?q="@ + a0
                        && v.expected_status == 200
                        && opt_view(v.expected_body) == Some(a1)
                },
            }
        },
    }
}

/// What `tcp_read_request` builds from its parameters.
pub open spec fn tcp_read_request_built(ps: Seq<ParamView>, r: Result<RuntimeValidator, String>) -> bool {
    r matches Ok(RuntimeValidator::HttpGet(v))
        && v.port == DEFAULT_PORT
        && v.path@ == "/"@
        && v.expected_status == 200
        && opt_view(v.expected_body) == None::<Seq<char>>
}

/// What `http_keepalive` builds from its parameters.
pub open spec fn http_keepalive_built(ps: Seq<ParamView>, r: Result<RuntimeValidator, String>) -> bool {
    match param_int(ps, 0) {
        Err(e) => failed(r, e),
        Ok(a0) => {
            r matches Ok(RuntimeValidator::ConcurrentRequests(v))
                && v.port == DEFAULT_PORT
                && v.num_connections == wrap32(a0)
                && v.path@ == "/"@
                && v.expected_status == 200
        },
    }
}

/// What `docker` builds: an image key, an expectation, and an optional timeout
/// in seconds; an expectation that does not parse is an error.
pub open spec fn docker_built(ps: Seq<ParamView>, r: Result<RuntimeValidator, String>) -> bool {
    match param_str(ps, 0) {
        Err(e) => r is Err && r->Err_0@ == e,
        Ok(a0) => match param_str(ps, 1) {
            Err(e) => r is Err && r->Err_0@ == e,
            Ok(a1) => match expectation_of(a1) {
                Err(e) => r is Err && r->Err_0@ == "invalid expectation: "@ + e,
                Ok(x) => r matches Ok(RuntimeValidator::Docker(v)) && v.dockerfile_name@ == a0
                    && v.expectation@ == x && v.timeout_secs == match param_int(ps, 2) {
                    Ok(t) => Some(wrap64(t)),
                    Err(_) => None::<u64>,
                },
            },
        },
    }
}

fn create_docker(parsed: &ParsedValidator) -> (r: Result<RuntimeValidator, String>)
    ensures
        docker_built(parsed.params_model(), r),
{
    let a0 = match parsed.param_as_string(0) {
        Ok(x) => x,
        Err(e) => {
            return Err(e);
        },
    };
    let a1 = match parsed.param_as_string(1) {
        Ok(x) => x,
        Err(e) => {
            return Err(e);
        },
    };
    let timeout = match parsed.param_as_int(2) {
        Ok(t) => Some(to_u64(t)),
        Err(_) => None,
    };
    let expectation = match Expectation::parse(a1) {
        Ok(x) => x,
        Err(e) => {
            return Err(joined("invalid expectation: ", e.as_str()));
        },
    };
    let v = DockerValidator::new(a0, expectation);
    match timeout {
        Some(secs) => Ok(RuntimeValidator::Docker(v.with_timeout(secs))),
        None => Ok(RuntimeValidator::Docker(v)),
    }
}

/// What a parsed spec builds: the kind its name selects, or a not-implemented
/// placeholder for an unknown name.
pub open spec fn built_by(name: Seq<char>, ps: Seq<ParamView>, r: Result<RuntimeValidator, String>) -> bool {
    if name == "tcp_listening"@ {
        tcp_listening_built(ps, r)
    } else if name == "http_response_status"@ {
        http_response_status_built(ps, r)
    } else if name == "http_get"@ {
        http_get_built(ps, r)
    } else if name == "http_header_present"@ {
        http_header_present_built(ps, r)
    } else if name == "http_header_value"@ {
        http_header_value_built(ps, r)
    } else if name == "http_get_with_header"@ {
        http_get_with_header_built(ps, r)
    } else if name == "concurrent_requests"@ {
        concurrent_requests_built(ps, r)
    } else if name == "http_post_file"@ {
        http_post_file_built(ps, r)
    } else if name == "can_compile"@ {
        can_compile_built(ps, r)
    } else if name == "http_get_file"@ {
        http_get_file_built(ps, r)
    } else if name == "http_get_compressed"@ {
        http_get_compressed_built(ps, r)
    } else if name == "file_contents_match"@ {
        file_contents_match_built(ps, r)
    } else if name == "http_json_exists"@ {
        http_json_exists_built(ps, r)
    } else if name == "http_json_field"@ {
        http_json_field_built(ps, r)
    } else if name == "http_post_json"@ {
        http_post_json_built(ps, r)
    } else if name == "rate_limit"@ {
        rate_limit_built(ps, r)
    } else if name == "graceful_shutdown"@ {
        graceful_shutdown_built(ps, r)
    } else if name == "concurrent_access"@ {
        concurrent_access_built(ps, r)
    } else if name == "job_submission_verified"@ {
        job_submission_verified_built(ps, r)
    } else if name == "job_processing_verified"@ {
        job_processing_verified_built(ps, r)
    } else if name == "worker_pool_concurrent"@ {
        worker_pool_concurrent_built(ps, r)
    } else if name == "job_result"@ {
        job_result_built(ps, r)
    } else if name == "job_priority"@ {
        job_priority_built(ps, r)
    } else if name == "job_timeout"@ {
        job_timeout_built(ps, r)
    } else if name == "job_timeout_reason"@ {
        job_timeout_reason_built(ps, r)
    } else if name == "job_retry"@ {
        job_retry_built(ps, r)
    } else if name == "worker_scale_up"@ {
        worker_scale_up_built(ps, r)
    } else if name == "worker_scale_down"@ {
        worker_scale_down_built(ps, r)
    } else if name == "http_request"@ {
        http_request_built(ps, r)
    } else if name == "http_json_field_nested"@ {
        http_json_field_nested_built(ps, r)
    } else if name == "http_health_check"@ {
        http_health_check_built(ps, r)
    } else if name == "http_json_field_value"@ {
        http_json_field_value_built(ps, r)
    } else if name == "http_status_check"@ {
        http_status_check_built(ps, r)
    } else if name == "docker"@ {
        docker_built(ps, r)
    } else if name == "http_path_root"@ {
        http_path_root_built(ps, r)
    } else if name == "http_path_unknown"@ {
        http_path_unknown_built(ps, r)
    } else if name == "http_path"@ {
        http_get_built(ps, r)
    } else if name == "http_header_server"@ {
        http_header_server_built(ps, r)
    } else if name == "http_header_date"@ {
        http_header_date_built(ps, r)
    } else if name == "http_header_connection"@ {
        http_header_connection_built(ps, r)
    } else if name == "http_echo"@ {
        http_echo_built(ps, r)
    } else if name == "http_user_agent"@ {
        http_user_agent_built(ps, r)
    } else if name == "http_concurrent_clients"@ {
        http_concurrent_clients_built(ps, r)
    } else if name == "http_query_param"@ {
        http_query_param_built(ps, r)
    } else if name == "http_query_missing"@ {
        http_query_missing_built(ps, r)
    } else if name == "http_file_not_found"@ {
        http_file_not_found_built(ps, r)
    } else if name == "http_content_type"@ {
        http_content_type_built(ps, r)
    } else if name == "http_gzip_encoding"@ {
        http_gzip_encoding_built(ps, r)
    } else if name == "http_file_get"@ {
        http_file_get_alias_built(ps, r)
    } else if name == "http_file_traversal"@ {
        http_file_traversal_built(ps, r)
    } else if name == "http_query_encoded"@ {
        http_query_encoded_built(ps, r)
    } else if name == "tcp_read_request"@ {
        tcp_read_request_built(ps, r)
    } else if name == "http_keepalive"@ {
        http_keepalive_built(ps, r)
    } else {
        r matches Ok(RuntimeValidator::NotImplemented(n)) && n@ == name
    }
}

/// Builds the validator a parsed spec names.
#[verifier::rlimit(100)]
pub fn create_from_parsed(parsed: &ParsedValidator) -> (r: Result<RuntimeValidator, String>)
    ensures
        built_by(parsed.name@, parsed.params_model(), r),
{
    let n = chars_of(parsed.name.as_str());
    if is_word(&n, "tcp_listening") {
        create_tcp_listening(parsed)
    } else if is_word(&n, "http_response_status") {
        create_http_response_status(parsed)
    } else if is_word(&n, "http_get") {
        create_http_get(parsed)
    } else if is_word(&n, "http_header_present") {
        create_http_header_present(parsed)
    } else if is_word(&n, "http_header_value") {
        create_http_header_value(parsed)
    } else if is_word(&n, "http_get_with_header") {
        create_http_get_with_header(parsed)
    } else if is_word(&n, "concurrent_requests") {
        create_concurrent_requests(parsed)
    } else if is_word(&n, "http_post_file") {
        create_http_post_file(parsed)
    } else if is_word(&n, "can_compile") {
        create_can_compile(parsed)
    } else if is_word(&n, "http_get_file") {
        create_http_get_file(parsed)
    } else if is_word(&n, "http_get_compressed") {
        create_http_get_compressed(parsed)
    } else if is_word(&n, "file_contents_match") {
        create_file_contents_match(parsed)
    } else if is_word(&n, "http_json_exists") {
        create_http_json_exists(parsed)
    } else if is_word(&n, "http_json_field") {
        create_http_json_field(parsed)
    } else if is_word(&n, "http_post_json") {
        create_http_post_json(parsed)
    } else if is_word(&n, "rate_limit") {
        create_rate_limit(parsed)
    } else if is_word(&n, "graceful_shutdown") {
        create_graceful_shutdown(parsed)
    } else if is_word(&n, "concurrent_access") {
        create_concurrent_access(parsed)
    } else if is_word(&n, "job_submission_verified") {
        create_job_submission_verified(parsed)
    } else if is_word(&n, "job_processing_verified") {
        create_job_processing_verified(parsed)
    } else if is_word(&n, "worker_pool_concurrent") {
        create_worker_pool_concurrent(parsed)
    } else if is_word(&n, "job_result") {
        create_job_result(parsed)
    } else if is_word(&n, "job_priority") {
        create_job_priority(parsed)
    } else if is_word(&n, "job_timeout") {
        create_job_timeout(parsed)
    } else if is_word(&n, "job_timeout_reason") {
        create_job_timeout_reason(parsed)
    } else if is_word(&n, "job_retry") {
        create_job_retry(parsed)
    } else if is_word(&n, "worker_scale_up") {
        create_worker_scale_up(parsed)
    } else if is_word(&n, "worker_scale_down") {
        create_worker_scale_down(parsed)
    } else if is_word(&n, "http_request") {
        create_http_request(parsed)
    } else if is_word(&n, "http_json_field_nested") {
        create_http_json_field_nested(parsed)
    } else if is_word(&n, "http_health_check") {
        create_http_health_check(parsed)
    } else if is_word(&n, "http_json_field_value") {
        create_http_json_field_value(parsed)
    } else if is_word(&n, "http_status_check") {
        create_http_status_check(parsed)
    } else if is_word(&n, "docker") {
        create_docker(parsed)
    } else if is_word(&n, "http_path_root") {
        create_http_path_root(parsed)
    } else if is_word(&n, "http_path_unknown") {
        create_http_path_unknown(parsed)
    } else if is_word(&n, "http_path") {
        create_http_get(parsed)
    } else if is_word(&n, "http_header_server") {
        create_http_header_server(parsed)
    } else if is_word(&n, "http_header_date") {
        create_http_header_date(parsed)
    } else if is_word(&n, "http_header_connection") {
        create_http_header_connection(parsed)
    } else if is_word(&n, "http_echo") {
        create_http_echo(parsed)
    } else if is_word(&n, "http_user_agent") {
        create_http_user_agent(parsed)
    } else if is_word(&n, "http_concurrent_clients") {
        create_http_concurrent_clients(parsed)
    } else if is_word(&n, "http_query_param") {
        create_http_query_param(parsed)
    } else if is_word(&n, "http_query_missing") {
        create_http_query_missing(parsed)
    } else if is_word(&n, "http_file_not_found") {
        create_http_file_not_found(parsed)
    } else if is_word(&n, "http_content_type") {
        create_http_content_type(parsed)
    } else if is_word(&n, "http_gzip_encoding") {
        create_http_gzip_encoding(parsed)
    } else if is_word(&n, "http_file_get") {
        create_http_file_get_alias(parsed)
    } else if is_word(&n, "http_file_traversal") {
        create_http_file_traversal(parsed)
    } else if is_word(&n, "http_query_encoded") {
        create_http_query_encoded(parsed)
    } else if is_word(&n, "tcp_read_request") {
        create_tcp_read_request(parsed)
    } else if is_word(&n, "http_keepalive") {
        create_http_keepalive(parsed)
    } else {
        Ok(RuntimeValidator::NotImplemented(parsed.name.clone()))
    }
}

fn create_tcp_listening(parsed: &ParsedValidator) -> (r: Result<RuntimeValidator, String>)
    ensures
        tcp_listening_built(parsed.params_model(), r),
{
    let a0 = match parsed.param_as_int(0) {
        Ok(x) => x,
        Err(e) => {
            return Err(e);
        },
    };
    Ok(RuntimeValidator::TcpListening(PortValidator::new(to_u16(a0))))
}

fn create_http_response_status(parsed: &ParsedValidator) -> (r: Result<RuntimeValidator, String>)
    ensures
        http_response_status_built(parsed.params_model(), r),
{
    let a0 = match parsed.param_as_int(0) {
        Ok(x) => x,
        Err(e) => {
            return Err(e);
        },
    };
    Ok(RuntimeValidator::HttpResponseStatus(HttpStatusValidator::new(to_u16(a0))))
}

fn create_http_get(parsed: &ParsedValidator) -> (r: Result<RuntimeValidator, String>)
    ensures
        http_get_built(parsed.params_model(), r),
{
    let a0 = match parsed.param_as_string(0) {
        Ok(x) => x,
        Err(e) => {
            return Err(e);
        },
    };
    let a1 = match parsed.param_as_int(1) {
        Ok(x) => x,
        Err(e) => {
            return Err(e);
        },
    };
    let a2 = parsed.optional_string(2);
    Ok(RuntimeValidator::HttpGet(HttpGetValidator::new(a0, to_u16(a1), a2)))
}

fn create_http_header_present(parsed: &ParsedValidator) -> (r: Result<RuntimeValidator, String>)
    ensures
        http_header_present_built(parsed.params_model(), r),
{
    let a0 = match parsed.param_as_string(0) {
        Ok(x) => x,
        Err(e) => {
            return Err(e);
        },
    };
    let a1 = match parsed.param_as_bool(1) {
        Ok(x) => x,
        Err(e) => {
            return Err(e);
        },
    };
    Ok(RuntimeValidator::HttpHeaderPresent(HttpHeaderPresentValidator::new(a0, a1)))
}

fn create_http_header_value(parsed: &ParsedValidator) -> (r: Result<RuntimeValidator, String>)
    ensures
        http_header_value_built(parsed.params_model(), r),
{
    let a0 = match parsed.param_as_string(0) {
        Ok(x) => x,
        Err(e) => {
            return Err(e);
        },
    };
    let a1 = match parsed.param_as_string(1) {
        Ok(x) => x,
        Err(e) => {
            return Err(e);
        },
    };
    Ok(RuntimeValidator::HttpHeaderValue(HttpHeaderValueValidator::new(a0, a1)))
}

fn create_http_get_with_header(parsed: &ParsedValidator) -> (r: Result<RuntimeValidator, String>)
    ensures
        http_get_with_header_built(parsed.params_model(), r),
{
    let a0 = match parsed.param_as_string(0) {
        Ok(x) => x,
        Err(e) => {
            return Err(e);
        },
    };
    let a1 = match parsed.param_as_string(1) {
        Ok(x) => x,
        Err(e) => {
            return Err(e);
        },
    };
    let a2 = match parsed.param_as_string(2) {
        Ok(x) => x,
        Err(e) => {
            return Err(e);
        },
    };
    let a3 = match parsed.param_as_int(3) {
        Ok(x) => x,
        Err(e) => {
            return Err(e);
        },
    };
    let a4 = parsed.optional_string(4);
    Ok(RuntimeValidator::HttpGetWithHeader(HttpGetWithHeaderValidator::new(a0, a1, a2, to_u16(a3), a4)))
}

fn create_concurrent_requests(parsed: &ParsedValidator) -> (r: Result<RuntimeValidator, String>)
    ensures
        concurrent_requests_built(parsed.params_model(), r),
{
    let a0 = match parsed.param_as_int(0) {
        Ok(x) => x,
        Err(e) => {
            return Err(e);
        },
    };
    let a1 = match parsed.param_as_string(1) {
        Ok(x) => x,
        Err(e) => {
            return Err(e);
        },
    };
    let a2 = match parsed.param_as_int(2) {
        Ok(x) => x,
        Err(e) => {
            return Err(e);
        },
    };
    Ok(RuntimeValidator::ConcurrentRequests(ConcurrentRequestsValidator::new(to_u32(a0), a1, to_u16(a2))))
}

fn create_http_post_file(parsed: &ParsedValidator) -> (r: Result<RuntimeValidator, String>)
    ensures
        http_post_file_built(parsed.params_model(), r),
{
    let a0 = match parsed.param_as_string(0) {
        Ok(x) => x,
        Err(e) => {
            return Err(e);
        },
    };
    let a1 = match parsed.param_as_string(1) {
        Ok(x) => x,
        Err(e) => {
            return Err(e);
        },
    };
    let a2 = match parsed.param_as_int(2) {
        Ok(x) => x,
        Err(e) => {
            return Err(e);
        },
    };
    Ok(RuntimeValidator::HttpPostFile(HttpPostFileValidator::new(a0, a1, to_u16(a2))))
}

fn create_can_compile(parsed: &ParsedValidator) -> (r: Result<RuntimeValidator, String>)
    ensures
        can_compile_built(parsed.params_model(), r),
{
    let a0 = match parsed.param_as_bool(0) {
        Ok(x) => x,
        Err(e) => {
            return Err(e);
        },
    };
    Ok(RuntimeValidator::CanCompile(CanCompileValidator::new(a0)))
}

fn create_http_get_file(parsed: &ParsedValidator) -> (r: Result<RuntimeValidator, String>)
    ensures
        http_get_file_built(parsed.params_model(), r),
{
    let a0 = match parsed.param_as_string(0) {
        Ok(x) => x,
        Err(e) => {
            return Err(e);
        },
    };
    let a1 = match parsed.param_as_int(1) {
        Ok(x) => x,
        Err(e) => {
            return Err(e);
        },
    };
    Ok(RuntimeValidator::HttpGetFile(HttpGetFileValidator::new(a0, to_u16(a1))))
}

fn create_http_get_compressed(parsed: &ParsedValidator) -> (r: Result<RuntimeValidator, String>)
    ensures
        http_get_compressed_built(parsed.params_model(), r),
{
    let a0 = match parsed.param_as_string(0) {
        Ok(x) => x,
        Err(e) => {
            return Err(e);
        },
    };
    let a1 = match parsed.param_as_string(1) {
        Ok(x) => x,
        Err(e) => {
            return Err(e);
        },
    };
    Ok(RuntimeValidator::HttpGetCompressed(HttpGetCompressedValidator::new(a0, a1)))
}

fn create_file_contents_match(parsed: &ParsedValidator) -> (r: Result<RuntimeValidator, String>)
    ensures
        file_contents_match_built(parsed.params_model(), r),
{
    let a0 = match parsed.param_as_string(0) {
        Ok(x) => x,
        Err(e) => {
            return Err(e);
        },
    };
    let a1 = match parsed.param_as_string(1) {
        Ok(x) => x,
        Err(e) => {
            return Err(e);
        },
    };
    Ok(RuntimeValidator::FileContentsMatch(FileContentsMatchValidator::new(a0, a1)))
}

fn create_http_json_exists(parsed: &ParsedValidator) -> (r: Result<RuntimeValidator, String>)
    ensures
        http_json_exists_built(parsed.params_model(), r),
{
    let a0 = match parsed.param_as_string(0) {
        Ok(x) => x,
        Err(e) => {
            return Err(e);
        },
    };
    let a1 = match parsed.param_as_string(1) {
        Ok(x) => x,
        Err(e) => {
            return Err(e);
        },
    };
    let a2 = parsed.strings_after(2);
    Ok(RuntimeValidator::HttpJsonExists(HttpJsonExistsValidator::new(a0, a1, a2)))
}

fn create_http_json_field(parsed: &ParsedValidator) -> (r: Result<RuntimeValidator, String>)
    ensures
        http_json_field_built(parsed.params_model(), r),
{
    let a0 = match parsed.param_as_string(0) {
        Ok(x) => x,
        Err(e) => {
            return Err(e);
        },
    };
    let a1 = match parsed.param_as_string(1) {
        Ok(x) => x,
        Err(e) => {
            return Err(e);
        },
    };
    let a2 = match parsed.param_as_string(2) {
        Ok(x) => x,
        Err(e) => {
            return Err(e);
        },
    };
    let a3 = match parsed.param_as_string(3) {
        Ok(x) => x,
        Err(e) => {
            return Err(e);
        },
    };
    Ok(RuntimeValidator::HttpJsonField(HttpJsonFieldValidator::new(a0, a1, a2, a3)))
}

fn create_http_post_json(parsed: &ParsedValidator) -> (r: Result<RuntimeValidator, String>)
    ensures
        http_post_json_built(parsed.params_model(), r),
{
    let a0 = match parsed.param_as_string(0) {
        Ok(x) => x,
        Err(e) => {
            return Err(e);
        },
    };
    let a1 = match parsed.param_as_string(1) {
        Ok(x) => x,
        Err(e) => {
            return Err(e);
        },
    };
    let a2 = match parsed.param_as_int(2) {
        Ok(x) => x,
        Err(e) => {
            return Err(e);
        },
    };
    Ok(RuntimeValidator::HttpPostJson(HttpPostJsonValidator::new(a0, a1, to_u16(a2))))
}

fn create_rate_limit(parsed: &ParsedValidator) -> (r: Result<RuntimeValidator, String>)
    ensures
        rate_limit_built(parsed.params_model(), r),
{
    let a0 = match parsed.param_as_string(0) {
        Ok(x) => x,
        Err(e) => {
            return Err(e);
        },
    };
    let a1 = match parsed.param_as_string(1) {
        Ok(x) => x,
        Err(e) => {
            return Err(e);
        },
    };
    let a2 = match parsed.param_as_int(2) {
        Ok(x) => x,
        Err(e) => {
            return Err(e);
        },
    };
    let a3 = match parsed.param_as_int(3) {
        Ok(x) => x,
        Err(e) => {
            return Err(e);
        },
    };
    let a4 = match parsed.param_as_int(4) {
        Ok(x) => x,
        Err(e) => {
            return Err(e);
        },
    };
    Ok(RuntimeValidator::RateLimit(RateLimitValidator::new(a0, a1, to_u32(a2), to_u64(a3), to_u32(a4))))
}

fn create_graceful_shutdown(parsed: &ParsedValidator) -> (r: Result<RuntimeValidator, String>)
    ensures
        graceful_shutdown_built(parsed.params_model(), r),
{
    let a0 = match parsed.param_as_string(0) {
        Ok(x) => x,
        Err(e) => {
            return Err(e);
        },
    };
    let a1 = match parsed.param_as_int(1) {
        Ok(x) => x,
        Err(e) => {
            return Err(e);
        },
    };
    Ok(RuntimeValidator::GracefulShutdown(GracefulShutdownValidator::new(a0, to_u64(a1))))
}

fn create_concurrent_access(parsed: &ParsedValidator) -> (r: Result<RuntimeValidator, String>)
    ensures
        concurrent_access_built(parsed.params_model(), r),
{
    let a0 = match parsed.param_as_int(0) {
        Ok(x) => x,
        Err(e) => {
            return Err(e);
        },
    };
    let a1 = match parsed.param_as_string(1) {
        Ok(x) => x,
        Err(e) => {
            return Err(e);
        },
    };
    let a2 = match parsed.param_as_int(2) {
        Ok(x) => x,
        Err(e) => {
            return Err(e);
        },
    };
    let a3 = match parsed.param_as_int(3) {
        Ok(x) => x,
        Err(e) => {
            return Err(e);
        },
    };
    Ok(RuntimeValidator::ConcurrentAccess(ConcurrentAccessValidator::new(to_u16(a0), a1, to_u32(a2), to_u32(a3))))
}

fn create_job_submission_verified(parsed: &ParsedValidator) -> (r: Result<RuntimeValidator, String>)
    ensures
        job_submission_verified_built(parsed.params_model(), r),
{
    let a0 = match parsed.param_as_string(0) {
        Ok(x) => lit(x),
        Err(_) => lit("test"),
    };
    let a1 = match parsed.param_as_string(1) {
        Ok(x) => lit(x),
        Err(_) => lit("data"),
    };
    Ok(RuntimeValidator::JobSubmissionVerified(JobSubmissionVerified::new(a0.as_str(), a1.as_str())))
}

fn create_job_processing_verified(parsed: &ParsedValidator) -> (r: Result<RuntimeValidator, String>)
    ensures
        job_processing_verified_built(parsed.params_model(), r),
{
    let a0: u64 = match parsed.param_as_int(0) {
        Ok(x) => to_u64(x),
        Err(_) => 200,
    };
    let a1 = match parsed.param_as_string(1) {
        Ok(x) => lit(x),
        Err(_) => lit("completed"),
    };
    Ok(RuntimeValidator::JobProcessingVerified(JobProcessingVerified::new(a0, a1.as_str())))
}

fn create_worker_pool_concurrent(parsed: &ParsedValidator) -> (r: Result<RuntimeValidator, String>)
    ensures
        worker_pool_concurrent_built(parsed.params_model(), r),
{
    let a0: u32 = match parsed.param_as_int(0) {
        Ok(x) => to_u32(x),
        Err(_) => 4,
    };
    let a1: u32 = match parsed.param_as_int(1) {
        Ok(x) => to_u32(x),
        Err(_) => 4,
    };
    let a2: u64 = match parsed.param_as_int(2) {
        Ok(x) => to_u64(x),
        Err(_) => 1000,
    };
    Ok(RuntimeValidator::WorkerPoolConcurrent(WorkerPoolConcurrent::new(a0, a1, a2)))
}

fn create_job_result(parsed: &ParsedValidator) -> (r: Result<RuntimeValidator, String>)
    ensures
        job_result_built(parsed.params_model(), r),
{
    let a0 = match parsed.param_as_string(0) {
        Ok(x) => x,
        Err(e) => {
            return Err(e);
        },
    };
    let a1 = match parsed.param_as_string(1) {
        Ok(x) => x,
        Err(e) => {
            return Err(e);
        },
    };
    let a2 = match parsed.param_as_string(2) {
        Ok(x) => x,
        Err(e) => {
            return Err(e);
        },
    };
    Ok(RuntimeValidator::JobResultVerified(JobResultVerified::new(a0, a1, a2)))
}

fn create_job_priority(parsed: &ParsedValidator) -> (r: Result<RuntimeValidator, String>)
    ensures
        job_priority_built(parsed.params_model(), r),
{
    let a0: u32 = match parsed.param_as_int(0) {
        Ok(x) => to_u32(x),
        Err(_) => 10,
    };
    let a1: u32 = match parsed.param_as_int(1) {
        Ok(x) => to_u32(x),
        Err(_) => 1,
    };
    Ok(RuntimeValidator::JobPriorityVerified(JobPriorityVerified::new(a0, a1)))
}

fn create_job_timeout(parsed: &ParsedValidator) -> (r: Result<RuntimeValidator, String>)
    ensures
        job_timeout_built(parsed.params_model(), r),
{
    let a0: u64 = match parsed.param_as_int(0) {
        Ok(x) => to_u64(x),
        Err(_) => 5000,
    };
    let a1 = match parsed.param_as_string(1) {
        Ok(x) => lit(x),
        Err(_) => lit("failed"),
    };
    Ok(RuntimeValidator::JobTimeoutVerified(JobTimeoutVerified::new(a0, a1.as_str())))
}

fn create_job_timeout_reason(parsed: &ParsedValidator) -> (r: Result<RuntimeValidator, String>)
    ensures
        job_timeout_reason_built(parsed.params_model(), r),
{
    let a0 = match parsed.param_as_string(0) {
        Ok(x) => lit(x),
        Err(_) => lit("timeout"),
    };
    Ok(RuntimeValidator::JobTimeoutReasonVerified(JobTimeoutReasonVerified::new(a0.as_str())))
}

fn create_job_retry(parsed: &ParsedValidator) -> (r: Result<RuntimeValidator, String>)
    ensures
        job_retry_built(parsed.params_model(), r),
{
    let a0 = match parsed.param_as_string(0) {
        Ok(x) => lit(x),
        Err(_) => lit("flaky"),
    };
    let a1: u32 = match parsed.param_as_int(1) {
        Ok(x) => to_u32(x),
        Err(_) => 3,
    };
    Ok(RuntimeValidator::JobRetryVerified(JobRetryVerified::new(a0.as_str(), a1)))
}

fn create_worker_scale_up(parsed: &ParsedValidator) -> (r: Result<RuntimeValidator, String>)
    ensures
        worker_scale_up_built(parsed.params_model(), r),
{
    let a0: u32 = match parsed.param_as_int(0) {
        Ok(x) => to_u32(x),
        Err(_) => 2,
    };
    let a1: u32 = match parsed.param_as_int(1) {
        Ok(x) => to_u32(x),
        Err(_) => 50,
    };
    let a2: u32 = match parsed.param_as_int(2) {
        Ok(x) => to_u32(x),
        Err(_) => 4,
    };
    Ok(RuntimeValidator::WorkerScaleUp(WorkerScaleUp::new(a0, a1, a2)))
}

fn create_worker_scale_down(parsed: &ParsedValidator) -> (r: Result<RuntimeValidator, String>)
    ensures
        worker_scale_down_built(parsed.params_model(), r),
{
    let a0: u32 = match parsed.param_as_int(0) {
        Ok(x) => to_u32(x),
        Err(_) => 8,
    };
    let a1: u32 = match parsed.param_as_int(1) {
        Ok(x) => to_u32(x),
        Err(_) => 4,
    };
    Ok(RuntimeValidator::WorkerScaleDown(WorkerScaleDown::new(a0, a1)))
}

fn create_http_request(parsed: &ParsedValidator) -> (r: Result<RuntimeValidator, String>)
    ensures
        http_request_built(parsed.params_model(), r),
{
    let a0 = match parsed.param_as_string(0) {
        Ok(x) => x,
        Err(e) => {
            return Err(e);
        },
    };
    let a1 = match parsed.param_as_string(1) {
        Ok(x) => x,
        Err(e) => {
            return Err(e);
        },
    };
    let a2 = parsed.optional_string(2);
    let a3: u16 = match parsed.param_as_int(3) {
        Ok(x) => to_u16(x),
        Err(_) => 200,
    };
    Ok(RuntimeValidator::HttpRequestWithBody(HttpRequestWithBody::new(a0, a1, match &a2 { Some(b) => Some(b.as_str()), None => None }, a3)))
}

fn create_http_json_field_nested(parsed: &ParsedValidator) -> (r: Result<RuntimeValidator, String>)
    ensures
        http_json_field_nested_built(parsed.params_model(), r),
{
    let a0 = match parsed.param_as_string(0) {
        Ok(x) => x,
        Err(e) => {
            return Err(e);
        },
    };
    let a1 = match parsed.param_as_string(1) {
        Ok(x) => x,
        Err(e) => {
            return Err(e);
        },
    };
    Ok(RuntimeValidator::HttpJsonFieldNested(HttpJsonFieldNested::new(a0, a1)))
}

fn create_http_health_check(parsed: &ParsedValidator) -> (r: Result<RuntimeValidator, String>)
    ensures
        http_health_check_built(parsed.params_model(), r),
{
    let a0 = match parsed.param_as_string(0) {
        Ok(x) => x,
        Err(e) => {
            return Err(e);
        },
    };
    let a1 = match parsed.param_as_int(1) {
        Ok(x) => x,
        Err(e) => {
            return Err(e);
        },
    };
    let a2 = match parsed.param_as_string(2) {
        Ok(x) => x,
        Err(e) => {
            return Err(e);
        },
    };
    let a3 = match parsed.param_as_string(3) {
        Ok(x) => x,
        Err(e) => {
            return Err(e);
        },
    };
    Ok(RuntimeValidator::HttpHealthCheck(HttpHealthCheck::new(a0, to_u16(a1), a2, a3)))
}

fn create_http_json_field_value(parsed: &ParsedValidator) -> (r: Result<RuntimeValidator, String>)
    ensures
        http_json_field_value_built(parsed.params_model(), r),
{
    let a0 = match parsed.param_as_string(0) {
        Ok(x) => x,
        Err(e) => {
            return Err(e);
        },
    };
    let a1 = match parsed.param_as_string(1) {
        Ok(x) => x,
        Err(e) => {
            return Err(e);
        },
    };
    let a2 = match parsed.param_as_string(2) {
        Ok(x) => x,
        Err(e) => {
            return Err(e);
        },
    };
    Ok(RuntimeValidator::HttpJsonFieldValue(HttpJsonFieldValue::new(a0, a1, a2)))
}

fn create_http_status_check(parsed: &ParsedValidator) -> (r: Result<RuntimeValidator, String>)
    ensures
        http_status_check_built(parsed.params_model(), r),
{
    let a0 = match parsed.param_as_string(0) {
        Ok(x) => x,
        Err(e) => {
            return Err(e);
        },
    };
    let a1 = match parsed.param_as_int(1) {
        Ok(x) => x,
        Err(e) => {
            return Err(e);
        },
    };
    Ok(RuntimeValidator::HttpStatusCheck(HttpStatusCheck::new(a0, to_u16(a1))))
}

fn create_http_path_root(parsed: &ParsedValidator) -> (r: Result<RuntimeValidator, String>)
    ensures
        http_path_root_built(parsed.params_model(), r),
{
    let a0 = match parsed.param_as_int(0) {
        Ok(x) => x,
        Err(e) => {
            return Err(e);
        },
    };
    Ok(RuntimeValidator::HttpGet(HttpGetValidator::new("/", to_u16(a0), None)))
}

fn create_http_path_unknown(parsed: &ParsedValidator) -> (r: Result<RuntimeValidator, String>)
    ensures
        http_path_unknown_built(parsed.params_model(), r),
{
    let a0 = match parsed.param_as_int(0) {
        Ok(x) => x,
        Err(e) => {
            return Err(e);
        },
    };
    Ok(RuntimeValidator::HttpGet(HttpGetValidator::new("/nonexistent-path-for-testing", to_u16(a0), None)))
}

fn create_http_header_server(parsed: &ParsedValidator) -> (r: Result<RuntimeValidator, String>)
    ensures
        http_header_server_built(parsed.params_model(), r),
{
    let a0 = match parsed.param_as_bool(0) {
        Ok(x) => x,
        Err(e) => {
            return Err(e);
        },
    };
    Ok(RuntimeValidator::HttpHeaderPresent(HttpHeaderPresentValidator::new("Server", a0)))
}

fn create_http_header_date(parsed: &ParsedValidator) -> (r: Result<RuntimeValidator, String>)
    ensures
        http_header_date_built(parsed.params_model(), r),
{
    let a0 = match parsed.param_as_bool(0) {
        Ok(x) => x,
        Err(e) => {
            return Err(e);
        },
    };
    Ok(RuntimeValidator::HttpHeaderPresent(HttpHeaderPresentValidator::new("Date", a0)))
}

fn create_http_header_connection(parsed: &ParsedValidator) -> (r: Result<RuntimeValidator, String>)
    ensures
        http_header_connection_built(parsed.params_model(), r),
{
    let a0 = match parsed.param_as_string(0) {
        Ok(x) => x,
        Err(e) => {
            return Err(e);
        },
    };
    Ok(RuntimeValidator::HttpHeaderValue(HttpHeaderValueValidator::new("Connection", a0)))
}

fn create_http_echo(parsed: &ParsedValidator) -> (r: Result<RuntimeValidator, String>)
    ensures
        http_echo_built(parsed.params_model(), r),
{
    let a0 = match parsed.param_as_string(0) {
        Ok(x) => x,
        Err(e) => {
            return Err(e);
        },
    };
    let a1 = match parsed.param_as_string(1) {
        Ok(x) => x,
        Err(e) => {
            return Err(e);
        },
    };
    Ok(RuntimeValidator::HttpGet(HttpGetValidator::new(joined("/echo/", a0).as_str(), 200, Some(lit(a1)))))
}

fn create_http_user_agent(parsed: &ParsedValidator) -> (r: Result<RuntimeValidator, String>)
    ensures
        http_user_agent_built(parsed.params_model(), r),
{
    let a0 = match parsed.param_as_string(0) {
        Ok(x) => x,
        Err(e) => {
            return Err(e);
        },
    };
    let a1 = match parsed.param_as_string(1) {
        Ok(x) => x,
        Err(e) => {
            return Err(e);
        },
    };
    Ok(RuntimeValidator::HttpGetWithHeader(HttpGetWithHeaderValidator::new("/user-agent", "User-Agent", a0, 200, Some(lit(a1)))))
}

fn create_http_concurrent_clients(parsed: &ParsedValidator) -> (r: Result<RuntimeValidator, String>)
    ensures
        http_concurrent_clients_built(parsed.params_model(), r),
{
    let a0 = match parsed.param_as_int(0) {
        Ok(x) => x,
        Err(e) => {
            return Err(e);
        },
    };
    Ok(RuntimeValidator::ConcurrentRequests(ConcurrentRequestsValidator::new(to_u32(a0), "/", 200)))
}

fn create_http_query_param(parsed: &ParsedValidator) -> (r: Result<RuntimeValidator, String>)
    ensures
        http_query_param_built(parsed.params_model(), r),
{
    let a0 = match parsed.param_as_string(0) {
        Ok(x) => x,
        Err(e) => {
            return Err(e);
        },
    };
    let a1 = match parsed.param_as_string(1) {
        Ok(x) => x,
        Err(e) => {
            return Err(e);
        },
    };
    let a2 = match parsed.param_as_string(2) {
        Ok(x) => x,
        Err(e) => {
            return Err(e);
        },
    };
    Ok(RuntimeValidator::HttpGet(HttpGetValidator::new(joined(joined("/search?", a0).as_str(), joined("=", a1).as_str()).as_str(), 200, Some(lit(a2)))))
}

fn create_http_query_missing(parsed: &ParsedValidator) -> (r: Result<RuntimeValidator, String>)
    ensures
        http_query_missing_built(parsed.params_model(), r),
{
    let a0 = match parsed.param_as_int(0) {
        Ok(x) => x,
        Err(e) => {
            return Err(e);
        },
    };
    Ok(RuntimeValidator::HttpGet(HttpGetValidator::new("/search", to_u16(a0), None)))
}

fn create_http_file_not_found(parsed: &ParsedValidator) -> (r: Result<RuntimeValidator, String>)
    ensures
        http_file_not_found_built(parsed.params_model(), r),
{
    let a0 = match parsed.param_as_string(0) {
        Ok(x) => x,
        Err(e) => {
            return Err(e);
        },
    };
    let a1 = match parsed.param_as_int(1) {
        Ok(x) => x,
        Err(e) => {
            return Err(e);
        },
    };
    Ok(RuntimeValidator::HttpGet(HttpGetValidator::new(joined("/files/", a0).as_str(), to_u16(a1), None)))
}

fn create_http_content_type(parsed: &ParsedValidator) -> (r: Result<RuntimeValidator, String>)
    ensures
        http_content_type_built(parsed.params_model(), r),
{
    let a0 = match parsed.param_as_string(0) {
        Ok(x) => x,
        Err(e) => {
            return Err(e);
        },
    };
    let a1 = match parsed.param_as_string(1) {
        Ok(x) => x,
        Err(e) => {
            return Err(e);
        },
    };
    Ok(RuntimeValidator::HttpGetFile(HttpGetFileValidator::new(joined("/files/", a0).as_str(), 200)))
}

fn create_http_gzip_encoding(parsed: &ParsedValidator) -> (r: Result<RuntimeValidator, String>)
    ensures
        http_gzip_encoding_built(parsed.params_model(), r),
{
    let a0 = match parsed.param_as_string(0) {
        Ok(x) => x,
        Err(e) => {
            return Err(e);
        },
    };
    Ok(RuntimeValidator::HttpGetCompressed(HttpGetCompressedValidator::new(a0, "gzip")))
}

fn create_http_file_get_alias(parsed: &ParsedValidator) -> (r: Result<RuntimeValidator, String>)
    ensures
        http_file_get_alias_built(parsed.params_model(), r),
{
    let a0 = match parsed.param_as_string(0) {
        Ok(x) => x,
        Err(e) => {
            return Err(e);
        },
    };
    let a1 = match parsed.param_as_string(1) {
        Ok(x) => x,
        Err(e) => {
            return Err(e);
        },
    };
    Ok(RuntimeValidator::HttpGet(HttpGetValidator::new(joined("/files/", a0).as_str(), 200, Some(lit(a1)))))
}

fn create_http_file_traversal(parsed: &ParsedValidator) -> (r: Result<RuntimeValidator, String>)
    ensures
        http_file_traversal_built(parsed.params_model(), r),
{
    let a0 = match parsed.param_as_string(0) {
        Ok(x) => x,
        Err(e) => {
            return Err(e);
        },
    };
    let a1 = match parsed.param_as_int(1) {
        Ok(x) => x,
        Err(e) => {
            return Err(e);
        },
    };
    Ok(RuntimeValidator::HttpGet(HttpGetValidator::new(joined("/files/", a0).as_str(), to_u16(a1), None)))
}

fn create_http_query_encoded(parsed: &ParsedValidator) -> (r: Result<RuntimeValidator, String>)
    ensures
        http_query_encoded_built(parsed.params_model(), r),
{
    let a0 = match parsed.param_as_string(0) {
        Ok(x) => x,
        Err(e) => {
            return Err(e);
        },
    };
    let a1 = match parsed.param_as_string(1) {
        Ok(x) => x,
        Err(e) => {
            return Err(e);
        },
    };
    Ok(RuntimeValidator::HttpGet(HttpGetValidator::new(joined("/search?q=", a0).as_str(), 200, Some(lit(a1)))))
}

fn create_tcp_read_request(_parsed: &ParsedValidator) -> (r: Result<RuntimeValidator, String>)
    ensures
        tcp_read_request_built(_parsed.params_model(), r),
{
    Ok(RuntimeValidator::HttpGet(HttpGetValidator::new("/", 200, None)))
}

fn create_http_keepalive(parsed: &ParsedValidator) -> (r: Result<RuntimeValidator, String>)
    ensures
        http_keepalive_built(parsed.params_model(), r),
{
    let a0 = match parsed.param_as_int(0) {
        Ok(x) => x,
        Err(e) => {
            return Err(e);
        },
    };
    Ok(RuntimeValidator::ConcurrentRequests(ConcurrentRequestsValidator::new(to_u32(a0), "/", 200)))
}

/// Parses a spec string and builds the validator it names.
pub fn create_validator(validator_str: &str) -> (r: Result<RuntimeValidator, String>)
    ensures
        match parsed_spec(validator_str@) {
            Err(e) => r is Err && r->Err_0@ == e,
            Ok((name, ps)) => built_by(name, ps, r),
        },
{
    let parsed = match parse_validator(validator_str) {
        Ok(p) => p,
        Err(e) => {
            return Err(e);
        },
    };
    create_from_parsed(&parsed)
}

} // verus!
