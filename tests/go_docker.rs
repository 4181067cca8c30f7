use luxctl::factory::create_validator;
use luxctl::go_docker::{extract_race_info, CommandResult, GoCompileValidator, RaceDetectorValidator, RACE_TIMEOUT_SECS};

#[test]
fn test_extract_race_info_empty() {
    let info = extract_race_info("");
    assert!(info.is_empty());
}

#[test]
fn test_extract_race_info_with_single_race() {
    let stderr = r#"
some output
WARNING: DATA RACE
Read at 0x00c0000a4008 by goroutine 7:
  main.handler()
  /app/main.go:42 +0x64

Previous write at 0x00c0000a4008 by goroutine 8:
  main.worker()
  /app/main.go:58 +0x78
==================
more output
"#;
    let info = extract_race_info(stderr);
    assert!(info.contains("WARNING: DATA RACE"));
    assert!(info.contains("main.handler"));
    assert!(info.contains("main.worker"));
}

#[test]
fn test_extract_race_info_with_multiple_races() {
    let stderr = r#"
==================
WARNING: DATA RACE
Read at 0x00c0000a4008 by goroutine 7:
  main.handleGet()
  /app/main.go:42 +0x64
==================
WARNING: DATA RACE
Write at 0x00c0000a4010 by goroutine 8:
  main.handlePost()
  /app/main.go:58 +0x78
==================
WARNING: DATA RACE
Read at 0x00c0000a4020 by goroutine 9:
  main.handleList()
  /app/main.go:74 +0x90
==================
WARNING: DATA RACE
Write at 0x00c0000a4030 by goroutine 10:
  main.handleDelete()
  /app/main.go:90 +0xa0
==================
"#;
    let info = extract_race_info(stderr);
    // should only show first 3 races
    assert!(info.contains("handleGet"));
    assert!(info.contains("handlePost"));
    assert!(info.contains("handleList"));
    // fourth race should be truncated
    assert!(!info.contains("handleDelete"));
}

#[test]
fn test_extract_race_info_with_race_detected_keyword() {
    let stderr = "race detected during execution\nsome details here";
    let info = extract_race_info(stderr);
    assert!(info.contains("race detected"));
}

#[test]
fn test_extract_race_info_no_race_fallback() {
    let stderr = "line 1\nline 2\nline 3\nline 4\nline 5";
    let info = extract_race_info(stderr);
    // should return first lines as fallback
    assert!(info.contains("line 1"));
}

// ==========================================
// RaceDetectorValidator unit tests
// ==========================================

#[test]
fn test_race_detector_validator_new() {
    let validator = RaceDetectorValidator::new(true);
    assert!(validator.expected_clean);
    assert_eq!(validator.source_dir, ".");
    assert_eq!(validator.timeout_secs, RACE_TIMEOUT_SECS);
    assert_eq!(validator.concurrent_requests, 50);
    assert_eq!(validator.port, 8080);
}

#[test]
fn test_race_detector_validator_new_expects_race() {
    let validator = RaceDetectorValidator::new(false);
    assert!(!validator.expected_clean);
}

#[test]
fn test_race_detector_validator_with_source_dir() {
    let validator = RaceDetectorValidator::new(true).with_source_dir("/path/to/project");
    assert_eq!(validator.source_dir, "/path/to/project");
}

#[test]
fn test_race_detector_validator_with_timeout() {
    let validator = RaceDetectorValidator::new(true).with_timeout(60);
    assert_eq!(validator.timeout_secs, 60);
}

#[test]
fn test_race_detector_validator_builder_chain() {
    let validator = RaceDetectorValidator::new(true)
        .with_source_dir("/app")
        .with_timeout(30);

    assert!(validator.expected_clean);
    assert_eq!(validator.source_dir, "/app");
    assert_eq!(validator.timeout_secs, 30);
}

// ==========================================
// GoCompileValidator unit tests
// ==========================================

#[test]
fn test_go_compile_validator_new() {
    let validator = GoCompileValidator::new(true);
    assert!(validator.expected_success);
    assert_eq!(validator.source_dir, ".");
    assert!(validator.flags.is_empty());
}

#[test]
fn test_go_compile_validator_expects_failure() {
    let validator = GoCompileValidator::new(false);
    assert!(!validator.expected_success);
}

#[test]
fn test_go_compile_validator_with_flags() {
    let validator =
        GoCompileValidator::new(true).with_flags(vec!["-race".to_string(), "-v".to_string()]);
    assert_eq!(validator.flags, vec!["-race", "-v"]);
}

// ==========================================
// CommandResult tests
// ==========================================

#[test]
fn test_command_result_success() {
    let result = CommandResult {
        success: true,
        stdout: "build successful".to_string(),
        stderr: String::new(),
    };
    assert!(result.success);
    assert!(result.stderr.is_empty());
}

#[test]
fn test_command_result_failure() {
    let result = CommandResult {
        success: false,
        stdout: String::new(),
        stderr: "compilation error".to_string(),
    };
    assert!(!result.success);
    assert!(result.stderr.contains("compilation error"));
}

// ==========================================
// Factory integration tests
// ==========================================

#[test]
fn test_create_race_detector_from_string() {
    let validator = create_validator("race_detector:bool(true)").unwrap();
    assert_eq!(validator.name(), "race_detector");
}

#[test]
fn test_create_race_detector_expects_race() {
    let validator = create_validator("race_detector:bool(false)").unwrap();
    assert_eq!(validator.name(), "race_detector");
}

#[test]
fn test_create_go_compile_from_string() {
    let validator = create_validator("go_compile:bool(true)").unwrap();
    assert_eq!(validator.name(), "go_compile");
}

#[test]
fn test_create_go_compile_expects_failure() {
    let validator = create_validator("go_compile:bool(false)").unwrap();
    assert_eq!(validator.name(), "go_compile");
}

// ---- verdicts and commands

#[test]
fn race_verdicts() {
    let racy = "x\nWARNING: DATA RACE\nRead at 1\n==================\n";
    let clean = RaceDetectorValidator::new(true);
    let case = clean.verdict(racy);
    assert_eq!(case.name, "go race detector");
    assert_eq!(case.result, Err("race condition detected:\nWARNING: DATA RACE\nRead at 1".to_string()));
    assert!(clean.verdict("all good").passed());
    let expects = RaceDetectorValidator::new(false);
    assert_eq!(expects.verdict(racy).result, Ok("race condition detected as expected".to_string()));
    assert_eq!(expects.verdict("fine").result, Err("expected race condition but none detected".to_string()));
    assert_eq!(clean.build_failed("oops").result, Err("build failed: oops".to_string()));
    assert_eq!(clean.timeout_message(), "race detector test timed out after 120s");
}

#[test]
fn race_script_holds_load_settings() {
    let v = RaceDetectorValidator::new(true);
    let s = v.load_script();
    assert!(s.contains("for i in $(seq 1 50); do"));
    assert!(s.contains("curl -s -X POST http://localhost:8080/jobs"));
    assert!(s.contains("curl -s http://localhost:8080/jobs > /dev/null"));
    let args = v.run_args("/src");
    assert_eq!(args[4], "/src:/app");
    assert_eq!(args[5], "golang:1.22-alpine");
    assert_eq!(args[8], s);
}

#[test]
fn go_compile_verdicts_and_args() {
    let v = GoCompileValidator::new(true).with_flags(vec!["-race".to_string()]);
    assert_eq!(
        v.args("/w"),
        vec!["run", "--rm", "-v", "/w:/app", "-w", "/app", "golang:1.22-alpine", "go", "build", "-race", "."]
    );
    assert_eq!(v.verdict(true, "").result, Ok("go build succeeded".to_string()));
    let errs: Vec<String> = (1..=12).map(|i| format!("e{}", i)).collect();
    let c = v.verdict(false, &errs.join("\n"));
    assert_eq!(c.result, Err(format!("build failed:\n{}", errs[..10].join("\n"))));
    assert_eq!(GoCompileValidator::new(false).verdict(true, "").result, Err("expected build to fail, but it succeeded".to_string()));
}

#[test]
fn race_info_falls_back_to_twenty_lines() {
    let text: Vec<String> = (1..=25).map(|i| format!("l{}", i)).collect();
    let info = extract_race_info(&text.join("\n"));
    assert_eq!(info, text[..20].join("\n"));
}
