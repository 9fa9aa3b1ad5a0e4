use cargo_service_message::cli::{
    build_mode, cargo_arguments, cargo_home, cargo_service_message, contains, coverage_rustflags,
    default_cargo_home, exit_code, grcov_arguments, measures_coverage, options,
};

fn strings(words: &[&str]) -> Vec<String> {
    words.iter().map(|word| word.to_string()).collect()
}

#[test]
fn test() {
    assert!(cargo_service_message(vec!["path/to/bin".into()]).is_err());
    assert!(cargo_service_message(vec!["path/to/bin".into(), "fred".to_string()]).is_err());
}

#[test]
fn main_test() {
    assert!(cargo_service_message(vec!["path/to/bin".into()]).is_err());
    assert!(cargo_service_message(vec!["path/to/bin".into(), "fred".to_string()]).is_err());
}

#[test]
fn a_short_command_line_is_refused_with_what_was_found() {
    assert_eq!(
        cargo_service_message(strings(&["path/to/\"bin\""])),
        Err("Usage: 'test' as the next argument followed by the standard cargo test arguments. Found [\"path/to/\\\"bin\\\"\"]".to_string())
    );
    assert_eq!(
        cargo_service_message(Vec::new()),
        Err("Usage: 'test' as the next argument followed by the standard cargo test arguments. Found []".to_string())
    );
}

#[test]
fn another_word_than_service_message_is_refused() {
    assert_eq!(
        cargo_service_message(strings(&["path/to/bin", "fred", "test"])),
        Err("expected 'service-message' as the next argument followed by the standard cargo test arguments but got fred".to_string())
    );
}

#[test]
fn the_arguments_after_service_message_go_to_cargo() {
    assert_eq!(
        cargo_service_message(strings(&["bin", "service-message", "test", "--release"])),
        Ok(strings(&["test", "--release"]))
    );
    assert_eq!(cargo_service_message(strings(&["bin", "service-message"])), Ok(Vec::new()));
}

#[test]
fn contains_looks_for_a_whole_argument() {
    let args = strings(&["test", "--release", "--"]);
    assert!(contains("--", &args));
    assert!(contains("--release", &args));
    assert!(!contains("--rel", &args));
    assert!(!contains("release", &args));
    assert!(!contains("--", &[]));
}

#[test]
fn the_home_variable_is_named() {
    assert_eq!(default_cargo_home(), "HOME");
}

#[test]
fn cargo_home_prefers_its_own_variable() {
    assert_eq!(
        cargo_home(Some("/opt/cargo".to_string()), Some("/home/me".to_string())),
        Some("/opt/cargo".to_string())
    );
    assert_eq!(cargo_home(None, Some("/home/me".to_string())), Some("/home/me/.cargo".to_string()));
    assert_eq!(cargo_home(None, None), None);
}

#[test]
fn exit_code_is_forced_to_success_after_an_inspection() {
    assert_eq!(exit_code(true, "test", Some(101)), 0);
    assert_eq!(exit_code(true, "clippy", Some(1)), 0);
    assert_eq!(exit_code(true, "build", Some(101)), 101);
    assert_eq!(exit_code(false, "test", Some(101)), 101);
    assert_eq!(exit_code(false, "test", Some(0)), 0);
}

#[test]
fn exit_code_is_minus_one_without_a_status() {
    assert_eq!(exit_code(true, "test", None), -1);
    assert_eq!(exit_code(false, "build", None), -1);
}

#[test]
fn options_are_read_off_the_setting() {
    let both = options("--debug --cover");
    assert!(both.debug && both.coverage);
    let none = options("");
    assert!(!none.debug && !none.coverage);
    let cover = options("x--coverage");
    assert!(!cover.debug && cover.coverage);
}

#[test]
fn coverage_is_measured_for_tests_only() {
    assert!(measures_coverage(true, "test"));
    assert!(!measures_coverage(true, "build"));
    assert!(!measures_coverage(false, "test"));
}

#[test]
fn build_mode_follows_the_release_switch() {
    assert_eq!(build_mode(&strings(&["test", "--release"])), "release");
    assert_eq!(build_mode(&strings(&["test"])), "debug");
}

#[test]
fn cargo_arguments_for_a_test_run() {
    assert_eq!(
        cargo_arguments(&strings(&["test"])),
        strings(&[
            "test",
            "--message-format=json",
            "-Ztimings=json,html,info",
            "--",
            "-Zunstable-options",
            "--format",
            "json"
        ])
    );
}

#[test]
fn cargo_arguments_keep_what_is_there() {
    assert_eq!(
        cargo_arguments(&strings(&["bench", "--", "-Zunstable-options"])),
        strings(&[
            "bench",
            "--",
            "-Zunstable-options",
            "--message-format=json",
            "-Ztimings=json,html,info",
            "--format",
            "json"
        ])
    );
    assert_eq!(
        cargo_arguments(&strings(&["build", "--release"])),
        strings(&["build", "--release", "--message-format=json", "-Ztimings=json,html,info", "--"])
    );
}

#[test]
fn cargo_arguments_for_commands_that_do_not_report() {
    assert_eq!(cargo_arguments(&strings(&["clean"])), strings(&["clean", "--"]));
    assert_eq!(cargo_arguments(&strings(&["fmt", "--"])), strings(&["fmt", "--"]));
}

#[test]
fn coverage_flags_follow_the_flags_that_are_set() {
    assert_eq!(
        coverage_rustflags("-Cdebuginfo=1"),
        "-Cdebuginfo=1 -Zinstrument-coverage -Zprofile -Ccodegen-units=1 -Copt-level=0 -Clink-dead-code -Coverflow-checks=off -Zpanic_abort_tests -Cpanic=abort"
    );
}

#[test]
fn coverage_tool_arguments() {
    assert_eq!(
        grcov_arguments("target/debug", "html", "target/coverage", Some("/home/me/.cargo")),
        strings(&[
            "target/debug",
            "-s",
            ".",
            "-t",
            "html",
            "--llvm",
            "--branch",
            "--ignore-not-existing",
            "-o",
            "target/coverage",
            "--ignore",
            "/home/me/.cargo/**"
        ])
    );
    assert_eq!(grcov_arguments("in", "covdir", "out", None).len(), 10);
}
