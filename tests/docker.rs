use luxctl::docker::{truncate_output, extract_context, DockerExecutor, DockerValidator, ExecutorResult, Expectation, parse_contains_expectation, availability_args};
use luxctl::registry::{is_registered, list_keys, lookup, ImageSource};

#[test]
fn test_lookup_existing() {
    let img = lookup("go1.22");
    assert!(img.is_some());
    assert_eq!(img.unwrap().key, "go1.22");
}

#[test]
fn test_lookup_case_insensitive() {
    let img = lookup("Go1.22");
    assert!(img.is_some());
    assert_eq!(img.unwrap().key, "go1.22");
}

#[test]
fn test_lookup_nonexistent() {
    let img = lookup("malicious-image");
    assert!(img.is_none());
}

#[test]
fn test_is_registered() {
    assert!(is_registered("go1.22"));
    assert!(is_registered("api-client-test"));
    assert!(!is_registered("unknown"));
}

#[test]
fn test_list_keys() {
    let keys = list_keys();
    assert!(keys.contains(&"go1.22"));
    assert!(keys.contains(&"go1.22-race"));
    assert!(keys.contains(&"api-client-test"));
}

#[test]
fn test_parse_exit_code() {
    let exp = Expectation::parse("exit:0").unwrap();
    assert!(matches!(exp, Expectation::ExitCode(0)));

    let exp = Expectation::parse("exit:1").unwrap();
    assert!(matches!(exp, Expectation::ExitCode(1)));
}

#[test]
fn test_parse_fail_if_stderr() {
    let exp = Expectation::parse("fail_if:stderr contains DATA RACE").unwrap();
    assert!(matches!(exp, Expectation::FailIfStderrContains(s) if s == "DATA RACE"));
}

#[test]
fn test_parse_fail_if_stdout() {
    let exp = Expectation::parse("fail_if:stdout contains ERROR").unwrap();
    assert!(matches!(exp, Expectation::FailIfStdoutContains(s) if s == "ERROR"));
}

#[test]
fn test_parse_pass_if_stdout() {
    let exp = Expectation::parse("pass_if:stdout contains SUCCESS").unwrap();
    assert!(matches!(exp, Expectation::PassIfStdoutContains(s) if s == "SUCCESS"));
}

#[test]
fn test_parse_pass_if_stderr() {
    let exp = Expectation::parse("pass_if:stderr contains warning").unwrap();
    assert!(matches!(exp, Expectation::PassIfStderrContains(s) if s == "warning"));
}

#[test]
fn test_parse_invalid() {
    assert!(Expectation::parse("invalid").is_err());
    assert!(Expectation::parse("exit:abc").is_err());
}

#[test]
fn test_truncate_output() {
    let short = "hello";
    assert_eq!(truncate_output(short, 10), "hello");

    let long = "hello world this is a long string";
    let truncated = truncate_output(long, 10);
    assert!(truncated.len() <= 13); // 10 + "..."
    assert!(truncated.ends_with("..."));
}

#[test]
fn test_docker_validator_new() {
    let v = DockerValidator::new("Go1.22", Expectation::ExitCode(0));
    assert_eq!(v.dockerfile_name, "Go1.22");
    assert!(v.timeout_secs.is_none());
}

#[test]
fn test_docker_validator_with_timeout() {
    let v = DockerValidator::new("Go1.22", Expectation::ExitCode(0)).with_timeout(60);
    assert_eq!(v.timeout_secs, Some(60));
}

#[test]
fn test_executor_result_success() {
    let result = ExecutorResult {
        exit_code: 0,
        stdout: "ok".to_string(),
        stderr: String::new(),
    };
    assert!(result.success());
}

#[test]
fn test_executor_result_failure() {
    let result = ExecutorResult {
        exit_code: 1,
        stdout: String::new(),
        stderr: "error".to_string(),
    };
    assert!(!result.success());
}

#[test]
fn test_registered_images_are_known() {
    // verify our test images are actually registered
    assert!(is_registered("go1.22"));
    assert!(is_registered("go1.22-race"));
    assert!(is_registered("api-client-test"));
}


// ---- registry, executor plans, and output judgement

#[test]
fn unregistered_key_rejected_with_key_list() {
    let ex = DockerExecutor::new("/tmp/cache");
    let err = ex.resolve("malicious-image").unwrap_err();
    assert_eq!(
        err,
        "image 'malicious-image' not registered. available: [\"go1.22\", \"go1.22-race\", \"api-client-test\"]"
    );
    for k in list_keys() {
        assert!(err.contains(k));
    }
    assert!(ex.resolve("ghcr.io/evil/malware:latest").unwrap_err().contains("not registered"));
    let img = ex.resolve("API-Client-Test").unwrap();
    assert!(img.source.is_remote());
    assert_eq!(img.source.path(), "ghcr.io/projectlighthouse/api-client-test:latest");
    let local = ex.resolve("go1.22-race").unwrap();
    assert!(!local.source.is_remote());
    assert!(matches!(local.source, ImageSource::Local("docker/Go1.22-race")));
}

#[test]
fn executor_commands() {
    let ex = DockerExecutor::new("/tmp/cache");
    assert_eq!(ex.image_tag("Go1.22-race", 1700000000), "luxctl-go1-22-race:1700000000");
    assert_eq!(ex.build_args("/c/Go1.22", "t", "/w"), vec!["build", "-f", "/c/Go1.22", "-t", "t", "/w"]);
    assert_eq!(ex.run_args("img", "/w"), vec!["run", "--rm", "--network=host", "-v", "/w:/app", "-w", "/app", "img"]);
    assert_eq!(ex.pull_args("img"), vec!["pull", "img"]);
    assert_eq!(ex.remove_args("t"), vec!["rmi", "-f", "t"]);
    assert_eq!(ex.run_timeout(None), 120);
    assert_eq!(ex.run_timeout(Some(5)), 5);
    assert_eq!(ex.timeout_message(7), "container timed out after 7s");
    assert_eq!(
        ex.dockerfile_url("docker/Go1.22"),
        "https://raw.githubusercontent.com/thearyanahmed/luxctl/master/docker/docker/Go1.22"
    );
    assert_eq!(availability_args(), vec!["version", "--format", "{{.Server.Version}}"]);
}

#[test]
fn expectation_errors() {
    assert_eq!(Expectation::parse("exit:abc").unwrap_err(), "invalid exit code: abc");
    assert!(matches!(Expectation::parse(" exit: -3 ").unwrap(), Expectation::ExitCode(-3)));
    assert_eq!(Expectation::parse("nah").unwrap_err(), "unknown expectation format: nah");
    assert_eq!(
        parse_contains_expectation(" stdin contains x", true).unwrap_err(),
        "invalid contains format, expected 'stdout contains X' or 'stderr contains X': stdin contains x"
    );
}

#[test]
fn interpret_outputs() {
    let run = |code: i32, out: &str, err: &str| ExecutorResult { exit_code: code, stdout: out.to_string(), stderr: err.to_string() };
    let v = DockerValidator::new("go1.22", Expectation::ExitCode(0));
    let c = v.interpret(&run(0, "", ""));
    assert_eq!(c.name, "docker:go1.22");
    assert_eq!(c.result, Ok("exit code 0 as expected".to_string()));
    assert_eq!(v.interpret(&run(2, "", "bad")).result, Err("expected exit code 0, got 2\nbad".to_string()));
    let f = DockerValidator::new("g", Expectation::FailIfStderrContains("DATA RACE".to_string()));
    assert_eq!(f.interpret(&run(0, "", "x DATA RACE y")).result, Err("stderr contains 'DATA RACE':\nx DATA RACE y".to_string()));
    assert_eq!(f.interpret(&run(1, "", "clean")).result, Ok("validation passed".to_string()));
    let p = DockerValidator::new("g", Expectation::PassIfStdoutContains("OK".to_string()));
    assert!(p.interpret(&run(0, "all OK", "")).passed());
    assert_eq!(p.interpret(&run(0, "no", "")).result, Err("expected stdout to contain 'OK'".to_string()));
}

#[test]
fn context_excerpt() {
    assert_eq!(extract_context("aaaaXbbbb", "X", 4), "...aaXbb...");
    assert_eq!(extract_context("aXb", "X", 10), "aXb");
    assert_eq!(extract_context("abcdef", "Z", 3), "abc...");
    assert_eq!(truncate_output("héllo", 2), "hé...");
}
