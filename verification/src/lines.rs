//! The lines that are written: service messages of the form
//! `##<brand>[<name> key='value' ...]` and plain lines.
//!
//! Each line has a spec function that says what it is, and an executable
//! function that builds it.

use vstd::prelude::*;

verus! {

/// Line that opens the test suite, under its fixed name and flow.
pub open spec fn suite_started_line(brand: Seq<char>) -> Seq<char> {
    "##"@ + brand + "[testSuiteStarted name='rust_test_suite' flowId='test_suite_flow_id']"@
}

/// Builds the line `suite_started_line`.
pub fn suite_started(brand: &str) -> (text: String)
    ensures
        text@ == suite_started_line(brand@),
{
    let mut text = String::from_str("##");
    text.append(brand);
    text.append("[testSuiteStarted name='rust_test_suite' flowId='test_suite_flow_id']");
    text
}

/// Line that closes the test suite.
pub open spec fn suite_finished_line(brand: Seq<char>) -> Seq<char> {
    "##"@ + brand + "[testSuiteFinished name='rust_test_suite' flowId='test_suite_flow_id']"@
}

/// Builds the line `suite_finished_line`.
pub fn suite_finished(brand: &str) -> (text: String)
    ensures
        text@ == suite_finished_line(brand@),
{
    let mut text = String::from_str("##");
    text.append(brand);
    text.append("[testSuiteFinished name='rust_test_suite' flowId='test_suite_flow_id']");
    text
}

/// Line that opens the flow of the test `name` under the suite's flow.
pub open spec fn flow_started_line(brand: Seq<char>, name: Seq<char>) -> Seq<char> {
    "##"@ + brand + "[flowStarted flowId='"@ + name + "' parent='test_suite_flow_id']"@
}

/// Builds the line `flow_started_line`.
pub fn flow_started(brand: &str, name: &str) -> (text: String)
    ensures
        text@ == flow_started_line(brand@, name@),
{
    let mut text = String::from_str("##");
    text.append(brand);
    text.append("[flowStarted flowId='");
    text.append(name);
    text.append("' parent='test_suite_flow_id']");
    text
}

/// Line that says that the test `name` has started.
pub open spec fn test_started_line(brand: Seq<char>, name: Seq<char>) -> Seq<char> {
    "##"@ + brand + "[testStarted flowId='"@ + name + "' name='"@ + name + "' captureStandardOutput='true' parent='test_suite_flow_id']"@
}

/// Builds the line `test_started_line`.
pub fn test_started(brand: &str, name: &str) -> (text: String)
    ensures
        text@ == test_started_line(brand@, name@),
{
    let mut text = String::from_str("##");
    text.append(brand);
    text.append("[testStarted flowId='");
    text.append(name);
    text.append("' name='");
    text.append(name);
    text.append("' captureStandardOutput='true' parent='test_suite_flow_id']");
    text
}

/// Line that says that the test `name` has finished.
pub open spec fn test_finished_line(brand: Seq<char>, name: Seq<char>) -> Seq<char> {
    "##"@ + brand + "[testFinished flowId='"@ + name + "' name='"@ + name + "']"@
}

/// Builds the line `test_finished_line`.
pub fn test_finished(brand: &str, name: &str) -> (text: String)
    ensures
        text@ == test_finished_line(brand@, name@),
{
    let mut text = String::from_str("##");
    text.append(brand);
    text.append("[testFinished flowId='");
    text.append(name);
    text.append("' name='");
    text.append(name);
    text.append("']");
    text
}

/// Line that says that the test `name` has finished after `duration`.
pub open spec fn test_finished_after_line(brand: Seq<char>, name: Seq<char>, duration: Seq<char>) -> Seq<char> {
    "##"@ + brand + "[testFinished flowId='"@ + name + "' name='"@ + name + "' duration='"@ + duration + "']"@
}

/// Builds the line `test_finished_after_line`.
pub fn test_finished_after(brand: &str, name: &str, duration: &str) -> (text: String)
    ensures
        text@ == test_finished_after_line(brand@, name@, duration@),
{
    let mut text = String::from_str("##");
    text.append(brand);
    text.append("[testFinished flowId='");
    text.append(name);
    text.append("' name='");
    text.append(name);
    text.append("' duration='");
    text.append(duration);
    text.append("']");
    text
}

/// Line that closes the flow of the test `name`.
pub open spec fn flow_finished_line(brand: Seq<char>, name: Seq<char>) -> Seq<char> {
    "##"@ + brand + "[flowFinished flowId='"@ + name + "']"@
}

/// Builds the line `flow_finished_line`.
pub fn flow_finished(brand: &str, name: &str) -> (text: String)
    ensures
        text@ == flow_finished_line(brand@, name@),
{
    let mut text = String::from_str("##");
    text.append(brand);
    text.append("[flowFinished flowId='");
    text.append(name);
    text.append("']");
    text
}

/// Line that says that the test `name` has failed, with what it printed.
pub open spec fn test_failed_line(brand: Seq<char>, name: Seq<char>, details: Seq<char>) -> Seq<char> {
    "##"@ + brand + "[testFailed name='"@ + name + "' flowId='"@ + name + "' message='test failed' details='"@ + details + "']"@
}

/// Builds the line `test_failed_line`.
pub fn test_failed(brand: &str, name: &str, details: &str) -> (text: String)
    ensures
        text@ == test_failed_line(brand@, name@, details@),
{
    let mut text = String::from_str("##");
    text.append(brand);
    text.append("[testFailed name='");
    text.append(name);
    text.append("' flowId='");
    text.append(name);
    text.append("' message='test failed' details='");
    text.append(details);
    text.append("']");
    text
}

/// Line that says that the test `name` has failed on a comparison of `expected` with `actual`.
pub open spec fn comparison_failed_line(brand: Seq<char>, name: Seq<char>, details: Seq<char>, expected: Seq<char>, actual: Seq<char>) -> Seq<char> {
    "##"@ + brand + "[testFailed type='comparisonFailure' name='"@ + name + "' flowId='"@ + name + "' message='test failed' details='"@ + details + "' expected='"@ + expected + "' actual='"@ + actual + "']"@
}

/// Builds the line `comparison_failed_line`.
pub fn comparison_failed(brand: &str, name: &str, details: &str, expected: &str, actual: &str) -> (text: String)
    ensures
        text@ == comparison_failed_line(brand@, name@, details@, expected@, actual@),
{
    let mut text = String::from_str("##");
    text.append(brand);
    text.append("[testFailed type='comparisonFailure' name='");
    text.append(name);
    text.append("' flowId='");
    text.append(name);
    text.append("' message='test failed' details='");
    text.append(details);
    text.append("' expected='");
    text.append(expected);
    text.append("' actual='");
    text.append(actual);
    text.append("']");
    text
}

/// Line that reports the statistic `key`.
pub open spec fn statistic_line(brand: Seq<char>, key: Seq<char>, value: Seq<char>) -> Seq<char> {
    "##"@ + brand + "[buildStatisticValue key='"@ + key + "' value='"@ + value + "']"@
}

/// Builds the line `statistic_line`.
pub fn statistic(brand: &str, key: &str, value: &str) -> (text: String)
    ensures
        text@ == statistic_line(brand@, key@, value@),
{
    let mut text = String::from_str("##");
    text.append(brand);
    text.append("[buildStatisticValue key='");
    text.append(key);
    text.append("' value='");
    text.append(value);
    text.append("']");
    text
}

/// Line that declares the kind of inspection `code`.
pub open spec fn inspection_type_line(brand: Seq<char>, code: Seq<char>, level: Seq<char>, explanation: Seq<char>) -> Seq<char> {
    "##"@ + brand + "[inspectionType id='"@ + code + "' category='"@ + level + "' name='"@ + code + "' description='"@ + explanation + "']"@
}

/// Builds the line `inspection_type_line`.
pub fn inspection_type(brand: &str, code: &str, level: &str, explanation: &str) -> (text: String)
    ensures
        text@ == inspection_type_line(brand@, code@, level@, explanation@),
{
    let mut text = String::from_str("##");
    text.append(brand);
    text.append("[inspectionType id='");
    text.append(code);
    text.append("' category='");
    text.append(level);
    text.append("' name='");
    text.append(code);
    text.append("' description='");
    text.append(explanation);
    text.append("']");
    text
}

/// Line that reports one inspection of the kind `code` at a place in a file.
pub open spec fn inspection_line(brand: Seq<char>, code: Seq<char>, message: Seq<char>, file: Seq<char>, line: Seq<char>, level: Seq<char>) -> Seq<char> {
    "##"@ + brand + "[inspection typeId='"@ + code + "' message='"@ + message + "' file='"@ + file + "' line='"@ + line + "' SEVERITY='"@ + level + "']"@
}

/// Builds the line `inspection_line`.
pub fn inspection(brand: &str, code: &str, message: &str, file: &str, line: &str, level: &str) -> (text: String)
    ensures
        text@ == inspection_line(brand@, code@, message@, file@, line@, level@),
{
    let mut text = String::from_str("##");
    text.append(brand);
    text.append("[inspection typeId='");
    text.append(code);
    text.append("' message='");
    text.append(message);
    text.append("' file='");
    text.append(file);
    text.append("' line='");
    text.append(line);
    text.append("' SEVERITY='");
    text.append(level);
    text.append("']");
    text
}

/// Line that reports a problem that fails the build.
pub open spec fn build_problem_line(brand: Seq<char>, description: Seq<char>, code: Seq<char>) -> Seq<char> {
    "##"@ + brand + "[buildProblem description='"@ + description + "' identity='"@ + code + "']"@
}

/// Builds the line `build_problem_line`.
pub fn build_problem(brand: &str, description: &str, code: &str) -> (text: String)
    ensures
        text@ == build_problem_line(brand@, description@, code@),
{
    let mut text = String::from_str("##");
    text.append(brand);
    text.append("[buildProblem description='");
    text.append(description);
    text.append("' identity='");
    text.append(code);
    text.append("']");
    text
}

/// Line that asks the server to keep the files at `path`.
pub open spec fn publish_artifacts_line(brand: Seq<char>, path: Seq<char>) -> Seq<char> {
    "##"@ + brand + "[publishArtifacts '"@ + path + "']"@
}

/// Builds the line `publish_artifacts_line`.
pub fn publish_artifacts(brand: &str, path: &str) -> (text: String)
    ensures
        text@ == publish_artifacts_line(brand@, path@),
{
    let mut text = String::from_str("##");
    text.append(brand);
    text.append("[publishArtifacts '");
    text.append(path);
    text.append("']");
    text
}

/// Line that asks the server to keep the coverage report under `path` as an archive.
pub open spec fn publish_coverage_line(brand: Seq<char>, path: Seq<char>) -> Seq<char> {
    "##"@ + brand + "[publishArtifacts '"@ + path + "/**=>coverage.zip']"@
}

/// Builds the line `publish_coverage_line`.
pub fn publish_coverage(brand: &str, path: &str) -> (text: String)
    ensures
        text@ == publish_coverage_line(brand@, path@),
{
    let mut text = String::from_str("##");
    text.append(brand);
    text.append("[publishArtifacts '");
    text.append(path);
    text.append("/**=>coverage.zip']");
    text
}

/// Plain line for a compiled package; `suffix` marks a fresh one.
pub open spec fn compiling_line(package: Seq<char>, suffix: Seq<char>) -> Seq<char> {
    "Compiling "@ + package + " "@ + suffix
}

/// Builds the line `compiling_line`.
pub fn compiling(package: &str, suffix: &str) -> (text: String)
    ensures
        text@ == compiling_line(package@, suffix@),
{
    let mut text = String::from_str("Compiling ");
    text.append(package);
    text.append(" ");
    text.append(suffix);
    text
}

/// Plain line for a build script that ran.
pub open spec fn running_build_script_line(package: Seq<char>) -> Seq<char> {
    "Running build script for "@ + package
}

/// Builds the line `running_build_script_line`.
pub fn running_build_script(package: &str) -> (text: String)
    ensures
        text@ == running_build_script_line(package@),
{
    let mut text = String::from_str("Running build script for ");
    text.append(package);
    text
}

/// Plain line for the time that a target took to compile.
pub open spec fn compiled_in_line(name: Seq<char>, seconds: Seq<char>) -> Seq<char> {
    "Compiled "@ + name + " in "@ + seconds + "s"@
}

/// Builds the line `compiled_in_line`.
pub fn compiled_in(name: &str, seconds: &str) -> (text: String)
    ensures
        text@ == compiled_in_line(name@, seconds@),
{
    let mut text = String::from_str("Compiled ");
    text.append(name);
    text.append(" in ");
    text.append(seconds);
    text.append("s");
    text
}

/// Key of the statistic for the compile time of the target `name` in `mode`.
pub open spec fn timing_key_line(mode: Seq<char>, name: Seq<char>) -> Seq<char> {
    mode + " "@ + name
}

/// Builds the line `timing_key_line`.
pub fn timing_key(mode: &str, name: &str) -> (text: String)
    ensures
        text@ == timing_key_line(mode@, name@),
{
    let mut text = String::from_str(mode);
    text.append(" ");
    text.append(name);
    text
}

/// Key of the statistic for one measure of the benchmark `name`.
pub open spec fn bench_key_line(name: Seq<char>, measure: Seq<char>) -> Seq<char> {
    "bench."@ + name + "."@ + measure
}

/// Builds the line `bench_key_line`.
pub fn bench_key(name: &str, measure: &str) -> (text: String)
    ensures
        text@ == bench_key_line(name@, measure@),
{
    let mut text = String::from_str("bench.");
    text.append(name);
    text.append(".");
    text.append(measure);
    text
}

/// `prefix` followed by `rest`.
pub open spec fn prefixed_line(prefix: Seq<char>, rest: Seq<char>) -> Seq<char> {
    prefix + rest
}

/// Builds the line `prefixed_line`.
pub fn prefixed(prefix: &str, rest: &str) -> (text: String)
    ensures
        text@ == prefixed_line(prefix@, rest@),
{
    let mut text = String::from_str(prefix);
    text.append(rest);
    text
}

} // verus!
