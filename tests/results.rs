use luxctl::results::{TestCase, TestResults};

#[test]
fn results_counts() {
    let mut r = TestResults::new();
    assert!(r.all_passed());
    r.push(TestCase { name: "a".to_string(), result: Ok("fine".to_string()) });
    r.push(TestCase { name: "b".to_string(), result: Err("bad".to_string()) });
    assert_eq!(r.total(), 2);
    assert_eq!(r.passed(), 1);
    assert_eq!(r.failed(), 1);
    assert!(!r.all_passed());
    assert_eq!(r.tests[1].message(), "bad");
    assert!(r.tests[0].passed());
}

#[test]
fn shell_result_success_is_exit_zero() {
    let ok = luxctl::shell::CommandResult { exit_code: 0, stdout: "hi".to_string(), stderr: String::new() };
    let bad = luxctl::shell::CommandResult { exit_code: 2, stdout: String::new(), stderr: "no".to_string() };
    assert!(ok.success());
    assert!(!bad.success());
}
