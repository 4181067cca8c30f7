use luxctl::factory::{create_validator, RuntimeValidator};
use luxctl::docker::Expectation;
use luxctl::factory;

#[test]
fn test_create_tcp_listening() {
    let validator = create_validator("tcp_listening:int(4221)").unwrap();
    assert_eq!(validator.name(), "tcp_listening");
}

#[test]
fn test_create_http_response_status() {
    let validator = create_validator("http_response_status:int(200)").unwrap();
    assert_eq!(validator.name(), "http_response_status");
}

#[test]
fn test_create_http_get() {
    let validator = create_validator("http_get:string(/),int(200)").unwrap();
    assert_eq!(validator.name(), "http_get");
}

#[test]
fn test_create_http_get_with_body() {
    let validator =
        create_validator("http_get:string(/echo/hello),int(200),string(hello)").unwrap();
    assert_eq!(validator.name(), "http_get");
}

#[test]
fn test_create_http_header_present() {
    let validator =
        create_validator("http_header_present:string(Content-Type),bool(true)").unwrap();
    assert_eq!(validator.name(), "http_header_present");
}

#[test]
fn test_create_http_get_with_header() {
    let validator = create_validator(
        "http_get_with_header:string(/user-agent),string(User-Agent),string(test-agent),int(200),string(test-agent)"
    ).unwrap();
    assert_eq!(validator.name(), "http_get_with_header");
}

#[test]
fn test_create_concurrent_requests() {
    let validator =
        create_validator("concurrent_requests:int(3),string(/echo/test),int(200)").unwrap();
    assert_eq!(validator.name(), "concurrent_requests");
}

#[test]
fn test_create_http_post_file() {
    let validator = create_validator(
        "http_post_file:string(/files/upload.txt),string(hello world),int(201)",
    )
    .unwrap();
    assert_eq!(validator.name(), "http_post_file");
}

#[test]
fn test_unknown_validator() {
    let validator = create_validator("unknown_validator:int(1)").unwrap();
    assert_eq!(validator.name(), "unknown_validator");
    // should be NotImplemented variant
    matches!(validator, RuntimeValidator::NotImplemented(_));
}

#[test]
fn test_not_implemented_validators() {
    let names = ["unknown_future_validator:string(test)"];

    for name in names {
        let validator = create_validator(name).unwrap();
        matches!(validator, RuntimeValidator::NotImplemented(_));
    }
}

#[test]
fn test_create_http_get_compressed() {
    let validator =
        create_validator("http_get_compressed:string(/compressed),string(gzip)").unwrap();
    assert_eq!(validator.name(), "http_get_compressed");
}

#[test]
fn test_create_file_contents_match() {
    let validator =
        create_validator("file_contents_match:string(/tmp/test.txt),string(expected)").unwrap();
    assert_eq!(validator.name(), "file_contents_match");
}

#[test]
fn test_create_can_compile() {
    let validator = create_validator("can_compile:bool(true)").unwrap();
    assert_eq!(validator.name(), "can_compile");
}

#[test]
fn test_create_http_get_file() {
    let validator = create_validator("http_get_file:string(/files/test.txt),int(200)").unwrap();
    assert_eq!(validator.name(), "http_get_file");
}

#[test]
fn test_create_docker_with_exit_code() {
    let validator = create_validator("docker:string(Go1.22),string(exit:0)").unwrap();
    assert_eq!(validator.name(), "docker");
}

#[test]
fn test_create_docker_with_fail_if() {
    let validator = create_validator(
        "docker:string(Go1.22-race),string(fail_if:stderr contains DATA RACE)",
    )
    .unwrap();
    assert_eq!(validator.name(), "docker");
}

#[test]
fn test_create_docker_with_timeout() {
    let validator =
        create_validator("docker:string(Go1.22-race),string(exit:0),int(300)").unwrap();
    assert_eq!(validator.name(), "docker");
}

#[test]
fn test_create_http_path_root() {
    let validator = create_validator("http_path_root:int(200)").unwrap();
    assert_eq!(validator.name(), "http_get");
}

#[test]
fn test_create_http_path_unknown() {
    let validator = create_validator("http_path_unknown:int(404)").unwrap();
    assert_eq!(validator.name(), "http_get");
}

#[test]
fn test_create_http_path() {
    let validator =
        create_validator("http_path:string(/health),int(200),string(healthy)").unwrap();
    assert_eq!(validator.name(), "http_get");
}

#[test]
fn test_create_http_header_server() {
    let validator = create_validator("http_header_server:bool(true)").unwrap();
    assert_eq!(validator.name(), "http_header_present");
}

#[test]
fn test_create_http_header_date() {
    let validator = create_validator("http_header_date:bool(true)").unwrap();
    assert_eq!(validator.name(), "http_header_present");
}

#[test]
fn test_create_http_header_connection() {
    let validator = create_validator("http_header_connection:string(close)").unwrap();
    assert_eq!(validator.name(), "http_header_value");
}

#[test]
fn test_create_http_echo() {
    let validator = create_validator("http_echo:string(hello),string(hello)").unwrap();
    assert_eq!(validator.name(), "http_get");
}

#[test]
fn test_create_http_user_agent() {
    let validator =
        create_validator("http_user_agent:string(test-agent),string(test-agent)").unwrap();
    assert_eq!(validator.name(), "http_get_with_header");
}

#[test]
fn test_create_http_concurrent_clients() {
    let validator = create_validator("http_concurrent_clients:int(5)").unwrap();
    assert_eq!(validator.name(), "concurrent_requests");
}

#[test]
fn test_create_http_query_param() {
    let validator =
        create_validator("http_query_param:string(q),string(hello),string(hello)").unwrap();
    assert_eq!(validator.name(), "http_get");
}

#[test]
fn test_create_http_query_missing() {
    let validator = create_validator("http_query_missing:int(400)").unwrap();
    assert_eq!(validator.name(), "http_get");
}

#[test]
fn test_create_http_file_not_found() {
    let validator =
        create_validator("http_file_not_found:string(missing.txt),int(404)").unwrap();
    assert_eq!(validator.name(), "http_get");
}

#[test]
fn test_create_http_content_type() {
    let validator =
        create_validator("http_content_type:string(test.txt),string(text/plain)").unwrap();
    assert_eq!(validator.name(), "http_get_file");
}

#[test]
fn test_create_http_gzip_encoding() {
    let validator =
        create_validator("http_gzip_encoding:string(/compressed),bool(true)").unwrap();
    assert_eq!(validator.name(), "http_get_compressed");
}

#[test]
fn test_create_http_file_get_alias() {
    let validator =
        create_validator("http_file_get:string(test.txt),string(hello world)").unwrap();
    assert_eq!(validator.name(), "http_get");
}

#[test]
fn test_create_http_file_traversal() {
    let validator =
        create_validator("http_file_traversal:string(../etc/passwd),int(400)").unwrap();
    assert_eq!(validator.name(), "http_get");
}

#[test]
fn test_create_http_query_encoded() {
    let validator =
        create_validator("http_query_encoded:string(hello%20world),string(hello world)")
            .unwrap();
    assert_eq!(validator.name(), "http_get");
}

#[test]
fn test_create_tcp_read_request() {
    let validator = create_validator("tcp_read_request:bool(true)").unwrap();
    assert_eq!(validator.name(), "http_get");
}

#[test]
fn test_create_http_keepalive() {
    let validator = create_validator("http_keepalive:int(5)").unwrap();
    assert_eq!(validator.name(), "concurrent_requests");
}


// ---- contents of what the factory builds

#[test]
fn http_get_alias_settings() {
    match create_validator("http_echo:string(hi),string(hi)").unwrap() {
        RuntimeValidator::HttpGet(v) => {
            assert_eq!(v.path, "/echo/hi");
            assert_eq!(v.expected_status, 200);
            assert_eq!(v.expected_body, Some("hi".to_string()));
            assert_eq!(v.port, 4221);
        }
        _ => panic!("expected http_get"),
    }
    match create_validator("http_query_param:string(q),string(x y),string(z)").unwrap() {
        RuntimeValidator::HttpGet(v) => assert_eq!(v.path, "/search?q=x y"),
        _ => panic!("expected http_get"),
    }
    match create_validator("http_path_unknown:int(404)").unwrap() {
        RuntimeValidator::HttpGet(v) => {
            assert_eq!(v.path, "/nonexistent-path-for-testing");
            assert_eq!(v.expected_status, 404);
            assert!(v.expected_body.is_none());
        }
        _ => panic!("expected http_get"),
    }
}

#[test]
fn status_is_cast_like_u16() {
    match create_validator("http_response_status:int(65737)").unwrap() {
        RuntimeValidator::HttpResponseStatus(v) => assert_eq!(v.expected_status, 201),
        _ => panic!("expected http_response_status"),
    }
    match create_validator("tcp_listening:int(-1)").unwrap() {
        RuntimeValidator::TcpListening(v) => assert_eq!(v.port(), 65535),
        _ => panic!("expected tcp_listening"),
    }
}

#[test]
fn scenario_defaults_apply() {
    match create_validator("worker_pool_concurrent").unwrap() {
        RuntimeValidator::WorkerPoolConcurrent(v) => {
            assert_eq!(v.worker_count, 4);
            assert_eq!(v.job_count, 4);
            assert_eq!(v.max_total_ms, 1000);
            assert_eq!(v.port, 8080);
        }
        _ => panic!("expected worker_pool_concurrent"),
    }
    match create_validator("job_submission_verified").unwrap() {
        RuntimeValidator::JobSubmissionVerified(v) => {
            assert_eq!(v.job_type, "test");
            assert_eq!(v.payload, "data");
        }
        _ => panic!("expected job_submission_verified"),
    }
}

#[test]
fn construction_errors() {
    assert_eq!(
        create_validator("http_get:string(/)").err().unwrap(),
        "missing parameter at index 1"
    );
    assert_eq!(
        create_validator("tcp_listening:string(x)").err().unwrap(),
        "parameter 0 is not an integer"
    );
    assert_eq!(
        create_validator("docker:string(go1.22),string(sometimes)").err().unwrap(),
        "invalid expectation: unknown expectation format: sometimes"
    );
    assert!(create_validator("bad:int(x)").is_err());
}

#[test]
fn json_exists_collects_string_fields() {
    match create_validator("http_json_exists:string(/p),string(GET),string(a),int(3),string(b)").unwrap() {
        RuntimeValidator::HttpJsonExists(v) => assert_eq!(v.fields, vec!["a".to_string(), "b".to_string()]),
        _ => panic!("expected http_json_exists"),
    }
}

#[test]
fn docker_settings() {
    match create_validator("docker:string(go1.22-race),string(fail_if:stderr contains DATA RACE),int(120)").unwrap() {
        RuntimeValidator::Docker(v) => {
            assert_eq!(v.dockerfile_name, "go1.22-race");
            assert!(matches!(v.expectation, Expectation::FailIfStderrContains(ref s) if s == "DATA RACE"));
            assert_eq!(v.timeout_secs, Some(120));
        }
        _ => panic!("expected docker"),
    }
}

#[test]
fn not_implemented_reports_failure() {
    let v = create_validator("future_thing").unwrap();
    let case = v.not_implemented_case().unwrap();
    assert_eq!(case.name, "validator 'future_thing'");
    assert_eq!(case.result, Err("validator 'future_thing' not implemented yet".to_string()));
    assert!(create_validator("can_compile:bool(true)").unwrap().not_implemented_case().is_none());
}

#[test]
fn casts_wrap() {
    assert_eq!(factory::to_u16(70000), 4464);
    assert_eq!(factory::to_u32(-1), u32::MAX);
    assert_eq!(factory::to_u64(-2), u64::MAX - 1);
}
