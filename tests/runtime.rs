use luxctl::api::{ApiUser, Env, LighthouseAPIClientBaseURL};
use luxctl::compile::WorkspaceProbe;
use luxctl::runtime::SupportedRuntime;

#[test]
fn test_extension() {
    assert_eq!(SupportedRuntime::Go.extension(), "go");
    assert_eq!(SupportedRuntime::Rust.extension(), "rs");
}

#[test]
fn test_module_file() {
    assert_eq!(SupportedRuntime::Go.module_file(), "go.mod");
    assert_eq!(SupportedRuntime::Rust.module_file(), "Cargo.toml");
}

#[test]
fn test_build_command() {
    assert_eq!(SupportedRuntime::Go.build_command(), "go");
    assert_eq!(SupportedRuntime::Rust.build_command(), "cargo");
}

#[test]
fn test_from_str() {
    assert_eq!("go".parse::<SupportedRuntime>().unwrap(), SupportedRuntime::Go);
    assert_eq!("golang".parse::<SupportedRuntime>().unwrap(), SupportedRuntime::Go);
    assert_eq!("rust".parse::<SupportedRuntime>().unwrap(), SupportedRuntime::Rust);
    assert_eq!("rs".parse::<SupportedRuntime>().unwrap(), SupportedRuntime::Rust);
    assert!("python".parse::<SupportedRuntime>().is_err());
}

#[test]
fn test_display() {
    assert_eq!(SupportedRuntime::Go.as_str(), "go");
    assert_eq!(SupportedRuntime::Rust.as_str(), "rust");
}

#[test]
fn test_all_runtimes() {
    let all = SupportedRuntime::all();
    assert_eq!(all.len(), 2);
    assert!(all.contains(&SupportedRuntime::Go));
    assert!(all.contains(&SupportedRuntime::Rust));
}

#[test]
fn runtime_detection_and_args() {
    let mut p = WorkspaceProbe {
        has_cargo_toml: true,
        has_go_mod: false,
        has_go_files: false,
        has_package_json: false,
        has_tsconfig: false,
        has_python_manifest: false,
        has_makefile: false,
    };
    assert_eq!(SupportedRuntime::detect(&p), Some(SupportedRuntime::Rust));
    p.has_go_mod = true;
    assert_eq!(SupportedRuntime::detect(&p), Some(SupportedRuntime::Go));
    assert_eq!(SupportedRuntime::Go.build_args(), vec!["build", "."]);
    assert_eq!("PYTHON".parse::<SupportedRuntime>().unwrap_err(), "unsupported runtime 'PYTHON'. supported: go, rust");
}

#[test]
fn api_test_env_display_dev() {
    assert_eq!(Env::DEV.as_str(), "dev");
}

#[test]
fn api_test_env_display_release() {
    assert_eq!(Env::RELEASE.as_str(), "release");
}

#[test]
fn api_test_lighthouse_api_base_url_default_for_env_dev() {
    let url = LighthouseAPIClientBaseURL::default_for_env(Env::DEV);
    assert_eq!(url.0, "http://localhost:8000");
}

#[test]
fn api_test_lighthouse_api_base_url_default_for_env_release() {
    let url = LighthouseAPIClientBaseURL::default_for_env(Env::RELEASE);
    assert_eq!(url.0, "https://api.projectlighthouse.io");
}

#[test]
fn client_test_env_display_dev() {
    assert_eq!(Env::DEV.as_str(), "dev");
}

#[test]
fn client_test_env_display_release() {
    assert_eq!(Env::RELEASE.as_str(), "release");
}

#[test]
fn client_test_lighthouse_api_base_url_default_for_env_dev() {
    let url = LighthouseAPIClientBaseURL::default_for_env(Env::DEV);
    assert_eq!(url.0, "http://localhost:8000");
}

#[test]
fn client_test_lighthouse_api_base_url_default_for_env_release() {
    let url = LighthouseAPIClientBaseURL::default_for_env(Env::RELEASE);
    assert_eq!(url.0, "https://api.projectlighthouse.io");
}

#[test]
fn test_api_user_accessors() {
    let user = ApiUser {
        id: 42,
        name: "Test User".to_string(),
        email: "test@example.com".to_string(),
    };

    assert_eq!(user.id(), 42);
    assert_eq!(user.name(), "Test User");
}
