use cargo_service_message::format::{process, Context};
use cargo_service_message::json::{decode, Parsed};

fn context() -> Context {
    Context { debug: false, brand: "t".to_string(), min_threshold: 5f64.to_bits() }
}

fn joined(lines: &[String]) -> String {
    let mut text = String::new();
    for line in lines {
        text.push_str(line);
        text.push('\n');
    }
    text.trim_end().to_string()
}

fn check(line: &str) -> (String, String) {
    let ctx = context();
    let first = decode(line).into_iter().next().unwrap();
    if let Parsed::Event(event) = first {
        let report = process(&ctx, &event);
        (joined(&report.out), joined(&report.err))
    } else {
        panic!("the line holds no JSON object");
    }
}

#[test]
fn test_testsuite_start() {
    assert_eq!(
        check(r#"{ "type": "suite", "event": "started", "test_count": 3 }"#),
        (
            "##t[testSuiteStarted name='rust_test_suite' flowId='test_suite_flow_id']".into(),
            "".into()
        )
    );
}

#[test]
fn test_testsuite_ok() {
    assert_eq!(
        check(
            r#"{ "type": "suite", "event": "ok", "passed": 3, "failed": 0, "allowed_fail": 0, "ignored": 0, "measured": 0, "filtered_out": 0 }"#
        ),
        (
            "##t[testSuiteFinished name='rust_test_suite' flowId='test_suite_flow_id']".into(),
            "".into()
        )
    );
}

#[test]
fn test_test_started() {
    assert_eq!(
        check(r#"{ "type": "test", "event": "started", "name": "tests::test" }"#),
        (
            r#"##t[flowStarted flowId='tests.test' parent='test_suite_flow_id']
##t[testStarted flowId='tests.test' name='tests.test' captureStandardOutput='true' parent='test_suite_flow_id']"#.into(),
            "".into()
        )
    );
}

#[test]
fn test_test_success() {
    assert_eq!(
        check(r#"{ "type": "test", "event": "ok", "name": "tests::test_slow", "exec_time": "10.000s" }"#),
        (
            r#"##t[testFinished flowId='tests.test_slow' name='tests.test_slow' duration='10.000s']
##t[flowFinished flowId='tests.test_slow']"#.into(),
            "".into()
        )
    );
}

#[test]
fn test_test_bench() {
    assert_eq!(
        check(
            r#"{ "type": "bench", "name": "tests::example_bench_add_two", "median": 57, "deviation": 9 }"#
        ),
        (r#"##t[buildStatisticValue key='bench.tests.example_bench_add_two.median' value='57.000000']
##t[buildStatisticValue key='bench.tests.example_bench_add_two.deviation' value='9.000000']"#.into(), "".into())
    );
}

#[test]
fn test_ignored_test_does_nothing() {
    assert_eq!(
        check(r#"{"event": "ignored", "name": "tests::test_a_failure_fails", "type": "test"}"#),
        (r#""#.into(), "".into())
    );
}

#[test]
fn test_compiler_message_built_crate() {
    assert_eq!(
        check(
            r#"{"reason":"compiler-artifact","package_id":"cfg-if 0.1.10 (registry+https://github.com/rust-lang/crates.io-index)","target":{"kind":["lib"],"crate_types":["lib"],"name":"cfg-if","src_path":"/Users/gilescope/.cargo/registry/src/github.com-1ecc6299db9ec823/cfg-if-0.1.10/src/lib.rs","edition":"2018","doctest":true,"test":true},"profile":{"opt_level":"0","debuginfo":0,"debug_assertions":true,"overflow_checks":true,"test":false},"features":[],"filenames":["/Users/gilescope/projects/rust-analyzer/target/debug/deps/libcfg_if-f4d43ad0e841b013.rlib","/Users/gilescope/projects/rust-analyzer/target/debug/deps/libcfg_if-f4d43ad0e841b013.rmeta"],"executable":null,"fresh":false}"#
        ),
        (r#"Compiling cfg-if 0.1.10"#.into(), "".into())
    );
}

#[test]
fn test_compiler_message_timing_info_do_nothing_below_threshold() {
    assert_eq!(
        check(
            r#"{"reason":"timing-info","package_id":"cfg-if 0.1.10 (registry+https://github.com/rust-lang/crates.io-index)","target":{"kind":["lib"],"crate_types":["lib"],"name":"cfg-if","src_path":"/Users/gilescope/.cargo/registry/src/github.com-1ecc6299db9ec823/cfg-if-0.1.10/src/lib.rs","edition":"2018","doctest":true,"test":true},"mode":"build","duration":0.23798263500000005,"rmeta_time":0.20777650800000003}"#
        ),
        (r#""#.into(), "".into())
    );
}

#[test]
fn test_compiler_message_timing_info_add_stats_when_above_threshold() {
    assert_eq!(
        check(
            r#"{"reason":"timing-info","package_id":"cfg-if 0.1.10 (registry+https://github.com/rust-lang/crates.io-index)","target":{"kind":["lib"],"crate_types":["lib"],"name":"cfg-if","src_path":"/Users/gilescope/.cargo/registry/src/github.com-1ecc6299db9ec823/cfg-if-0.1.10/src/lib.rs","edition":"2018","doctest":true,"test":true},"mode":"build","duration":20.2379826350000005,"rmeta_time":20.2077765080000003}"#
        ),
        (
            r#"##t[buildStatisticValue key='build cfg-if' value='20.237983']
Compiled cfg-if in 20.24s"#
                .into(),
            "".into()
        )
    );
}

#[test]
fn test_compiler_message_build_finished() {
    assert_eq!(
        check(r#"{"reason":"build-finished","success":false}"#),
        (r#""#.into(), "".into())
    );
}

#[test]
fn test_compiler_message_unused_var_warning() {
    assert_eq!(
        check(
            r#"{"reason":"compiler-message","package_id":"cargo-service-message 0.1.4 (path+file:///Users/gilescope/projects/cargo-service-message2)","target":{"kind":["bin"],"crate_types":["bin"],"name":"cargo-service-message","src_path":"/Users/gilescope/projects/cargo-service-message2/src/bin/cargo-service-message.rs","edition":"2018","doctest":false,"test":true},"message":{"rendered":"warning: unused variable: `x`\n   --> src/bin/cargo-service-message.rs:326:9\n    |\n326 |     let x = \"\";\n    |         ^ help: if this is intentional, prefix it with an underscore: `_x`\n    |","children":[{"children":[],"code":null,"level":"note","message":"`#[warn(unused_variables)]` on by default","rendered":null,"spans":[]},{"children":[],"code":null,"level":"help","message":"if this is intentional, prefix it with an underscore","rendered":null,"spans":[{"byte_end":10932,"byte_start":10931,"column_end":10,"column_start":9,"expansion":null,"file_name":"src/bin/cargo-service-message.rs","is_primary":true,"label":null,"line_end":326,"line_start":326,"suggested_replacement":"_x","suggestion_applicability":"MachineApplicable","text":[{"highlight_end":10,"highlight_start":9,"text":"    let x = \"\";"}]}]}],"code":{"code":"unused_variables","explanation":null},"level":"warning","message":"unused variable: `x`","spans":[{"byte_end":10932,"byte_start":10931,"column_end":10,"column_start":9,"expansion":null,"file_name":"src/bin/cargo-service-message.rs","is_primary":true,"label":null,"line_end":326,"line_start":326,"suggested_replacement":null,"suggestion_applicability":null,"text":[{"highlight_end":10,"highlight_start":9,"text":"    let x = \"\";"}]}]}}"#
        ),
        (r###"##t[inspectionType id='unused_variables' category='warning' name='unused_variables' description='no explanation']
##t[inspection typeId='unused_variables' message='warning: unused variable: `x`|n   --> src/bin/cargo-service-message.rs:326:9|n    |||n326 ||     let x = "";|n    ||         ^ help: if this is intentional, prefix it with an underscore: `_x`|n    ||' file='src/bin/cargo-service-message.rs' line='326' SEVERITY='warning']
warning: unused variable: `x`
   --> src/bin/cargo-service-message.rs:326:9
    |
326 |     let x = "";
    |         ^ help: if this is intentional, prefix it with an underscore: `_x`
    |"###.into(), "".into())
    );
}

#[test]
fn test_compiler_message_error() {
    assert_eq!(
        check(
            r###"{"reason":"compiler-message","package_id":"cargo-service-message 0.1.4 (path+file:///Users/gilescope/projects/cargo-service-message2)","target":{"kind":["bin"],"crate_types":["bin"],"name":"cargo-service-message","src_path":"/Users/gilescope/projects/cargo-service-message2/src/bin/cargo-service-message.rs","edition":"2018","doctest":false,"test":true},"message":{"rendered":"error: expected one of `!` or `::`, found `tests`\n   --> src/bin/cargo-service-message.rs:747:6\n    |\n747 | moXd tests {\n    |      ^^^^^ expected one of `!` or `::`\n\n","children":[],"code":null,"level":"error","message":"expected one of `!` or `::`, found `tests`","spans":[{"byte_end":25339,"byte_start":25334,"column_end":11,"column_start":6,"expansion":null,"file_name":"src/bin/cargo-service-message.rs","is_primary":true,"label":"expected one of `!` or `::`","line_end":747,"line_start":747,"suggested_replacement":null,"suggestion_applicability":null,"text":[{"highlight_end":11,"highlight_start":6,"text":"moXd tests {"}]}]}}"###
        ),
        (r###"##t[buildProblem description='error: expected one of `!` or `::`, found `tests`|n   --> src/bin/cargo-service-message.rs:747:6|n    |||n747 || moXd tests {|n    ||      ^^^^^ expected one of `!` or `::`|n|n' identity='other']"###.into(),
        r##"error: expected one of `!` or `::`, found `tests`
   --> src/bin/cargo-service-message.rs:747:6
    |
747 | moXd tests {
    |      ^^^^^ expected one of `!` or `::`"##.into())
    );
}
