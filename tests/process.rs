use luxctl::basic::{ConnectOutcome, EndpointValidator, FileContentsMatchValidator, JsonResponseValidator, PortValidator};
use luxctl::compile::{detect_build_command, CanCompileValidator, WorkspaceProbe};
use luxctl::process::{AccessOutcome, ConcurrentAccessValidator, GracefulShutdownValidator, Operation, ShutdownOutcome};

#[test]
fn graceful_exit_passes_and_timeout_fails() {
    let v = GracefulShutdownValidator::new("./server", 3000);
    let ok = v.judge(ShutdownOutcome::Exited(Some(0)));
    assert!(ok.passed());
    assert_eq!(ok.name, "graceful shutdown within 3000ms");
    let late = v.judge(ShutdownOutcome::TimedOut);
    assert_eq!(late.result, Err("process did not exit within 3000ms after SIGTERM".to_string()));
    let code = v.judge(ShutdownOutcome::Exited(None));
    assert_eq!(code.result, Err("expected exit code 0, got -1".to_string()));
    let v2 = GracefulShutdownValidator::new("./s", 10).with_expected_exit_code(3).with_startup_wait(5);
    assert!(v2.judge(ShutdownOutcome::Exited(Some(3))).passed());
    assert_eq!(v2.startup_wait_ms, 5);
    assert!(!v.unsupported().passed());
}

#[test]
fn concurrent_access_report() {
    let v = ConcurrentAccessValidator::new(4221, "/", 2, 2);
    let ops = vec![
        Operation { client: 0, op: 0, error: None },
        Operation { client: 0, op: 1, error: Some("refused".to_string()) },
        Operation { client: 1, op: 0, error: None },
        Operation { client: 1, op: 1, error: None },
    ];
    let c = v.judge(AccessOutcome::Settled(ops));
    assert_eq!(c.result, Err("1/4 operations failed: client 0, op 1: refused".to_string()));
    assert_eq!(c.name, "2 concurrent clients x 2 operations");
    let d = v.judge(AccessOutcome::TimedOut);
    assert_eq!(d.result, Err("concurrent operations timed out after 5000ms - possible deadlock".to_string()));
    let ok = v.judge(AccessOutcome::Settled(vec![Operation { client: 0, op: 0, error: None }]));
    assert_eq!(ok.result, Ok("all 1/1 concurrent operations completed successfully".to_string()));
}

#[test]
fn port_outcomes() {
    let v = PortValidator::new(4221);
    assert_eq!(v.port(), 4221);
    assert!(v.judge(ConnectOutcome::Connected).passed());
    let refused = v.judge(ConnectOutcome::Failed("Connection refused (os error 111)".to_string()));
    assert_eq!(refused.result, Err("connection failed: Connection refused (os error 111)".to_string()));
    assert_eq!(v.judge(ConnectOutcome::TimedOut).result, Err("connection timeout after 2 seconds".to_string()));
    assert_eq!(v.connect_timeout_ms(), 2000);
}

#[test]
fn endpoint_and_json_type() {
    let e = EndpointValidator::new("/api/v1/hello");
    assert!(e.judge("HTTP/1.1 200 OK\r\n\r\n").passed());
    assert_eq!(e.judge("HTTP/1.1 500 Oops\r\n\r\n").message(), "expected 200 ok, got: HTTP/1.1 500 Oops");
    assert_eq!(e.judge("").message(), "expected 200 ok, got: no response");
    let j = JsonResponseValidator::new();
    assert!(j.judge("HTTP/1.1 200 OK\r\nContent-Type: Application/JSON\r\n\r\n{}").passed());
    assert!(!j.judge("HTTP/1.1 200 OK\r\nContent-Type: text/plain\r\n\r\n").passed());
}

#[test]
fn file_contents() {
    let f = FileContentsMatchValidator::new("/tmp/x", "hello world");
    assert!(f.judge("hello world\n").passed());
    assert_eq!(f.judge("bye").message(), "content mismatch:\n  expected: 'hello world...'\n  got: 'bye...'");
    assert_eq!(f.missing().message(), "file '/tmp/x' does not exist");
}

fn probe() -> WorkspaceProbe {
    WorkspaceProbe {
        has_cargo_toml: false,
        has_go_mod: false,
        has_go_files: false,
        has_package_json: false,
        has_tsconfig: false,
        has_python_manifest: false,
        has_makefile: false,
    }
}

#[test]
fn build_command_choice() {
    let (cmd, args) = detect_build_command(Some("Rust"), &probe()).unwrap();
    assert_eq!(cmd, "cargo");
    assert_eq!(args, vec!["check"]);
    assert_eq!(detect_build_command(Some("unknown"), &probe()).unwrap_err(), "unsupported runtime: unknown");
    assert_eq!(detect_build_command(Some("go"), &probe()).unwrap_err(), "no .go source files found in project directory");
    let mut p = probe();
    p.has_package_json = true;
    p.has_tsconfig = true;
    assert_eq!(detect_build_command(None, &p).unwrap(), ("npx".to_string(), vec!["tsc".to_string(), "--noEmit".to_string()]));
    assert!(detect_build_command(None, &probe()).unwrap_err().starts_with("unable to detect project type"));
    let v = CanCompileValidator::new(true);
    let c = v.verdict("cargo", &vec!["check".to_string()], true, "");
    assert_eq!(c.result, Ok("cargo check succeeded".to_string()));
    assert_eq!(c.name, "project compiles");
    assert_eq!(CanCompileValidator::new(false).verdict("go", &vec![], false, "x").name, "project compiles (expected failure)");
}
