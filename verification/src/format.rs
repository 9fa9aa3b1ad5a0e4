//! The lines that report one event.
//!
//! Free text that an event brings is escaped where it stands inside a service
//! message: the rendered text of a diagnostic, the explanation of its code,
//! the name of its file, what a failed test printed and the two values of a
//! failed comparison. Identifiers stand as they are: the brand, the name of a
//! test or benchmark, which is also the name of its flow, the code and the
//! level of a diagnostic, the mode and the target of a compile time. So do
//! numbers and the duration of a test. Plain lines are not escaped.
//!
//! A warning is reported each time it is seen, `build-finished` never raises
//! the inspection flag, and an ignored test is passed over in silence.

use crate::comparison::{comparison, find_comparison};
use crate::escape::{escape_message, escaped};
use crate::event::{category, classify, Category};
use crate::json::{Json, Object};
use crate::lines::{
    bench_key, bench_key_line, build_problem, build_problem_line, comparison_failed,
    comparison_failed_line, compiled_in, compiled_in_line, compiling, compiling_line,
    flow_finished, flow_finished_line, flow_started, flow_started_line, inspection,
    inspection_line, inspection_type, inspection_type_line, prefixed, prefixed_line,
    running_build_script, running_build_script_line, statistic, statistic_line, suite_finished,
    suite_finished_line, suite_started, suite_started_line, test_failed, test_failed_line,
    test_finished, test_finished_after, test_finished_after_line, test_finished_line,
    test_started, test_started_line, timing_key, timing_key_line,
};
use crate::names::{dotted, dotted_name, tidied, tidy_package_id};
use crate::number::{at_most, exceeds, fixed_notation, greater, FIVE_BITS};
use crate::text::{contains_text, decimal, decimal_text, has_substring, same_text, texts};
use vstd::prelude::*;

verus! {

/// Settings of one run.
pub struct Context {
    /// Whether each line of input is echoed before it is processed.
    pub debug: bool,
    /// The word between `##` and `[` in every service message.
    pub brand: String,
    /// Bit pattern of the double that a compile time in seconds has to exceed
    /// to be reported.
    pub min_threshold: u64,
}

impl Context {
    /// The settings of a run: the brand that was chosen, `teamcity` where
    /// none was, and a threshold of five seconds for compile times.
    pub fn new(debug: bool, brand: Option<String>) -> (ctx: Context)
        ensures
            ctx.debug == debug,
            ctx.brand@ == match brand {
                Some(brand) => brand@,
                None => "teamcity"@,
            },
            ctx.min_threshold == FIVE_BITS,
    {
        let brand = match brand {
            Some(brand) => brand,
            None => "teamcity".to_owned(),
        };
        Context { debug, brand, min_threshold: FIVE_BITS }
    }
}

/// What was written for some input.
pub struct Report {
    /// The lines for the standard sink, in order.
    pub out: Vec<String>,
    /// The lines for the diagnostic sink, in order.
    pub err: Vec<String>,
    /// Whether something was reported that counts against the build: a
    /// compiler error or warning, a failed test or a failed suite.
    pub inspection_logged: bool,
}

/// What is written for some input, as text.
pub struct Messages {
    pub out: Seq<Seq<char>>,
    pub err: Seq<Seq<char>>,
    pub inspection_logged: bool,
}

impl View for Report {
    type V = Messages;

    open spec fn view(&self) -> Messages {
        Messages {
            out: texts(self.out@),
            err: texts(self.err@),
            inspection_logged: self.inspection_logged,
        }
    }
}

/// Nothing written, nothing flagged.
pub open spec fn silence() -> Messages {
    Messages { out: Seq::empty(), err: Seq::empty(), inspection_logged: false }
}

/// The lines `out` on the standard sink, nothing else.
pub open spec fn plain(out: Seq<Seq<char>>) -> Messages {
    Messages { out, err: Seq::empty(), inspection_logged: false }
}

/// What is written by `first` and then by `second`: the lines of both in
/// order, and the flag where either raised it.
pub open spec fn followed_by(first: Messages, second: Messages) -> Messages {
    Messages {
        out: first.out + second.out,
        err: first.err + second.err,
        inspection_logged: first.inspection_logged || second.inspection_logged,
    }
}

impl Report {
    /// A report of nothing.
    pub fn new() -> (report: Report)
        ensures
            report@ == silence(),
    {
        let report = Report { out: Vec::new(), err: Vec::new(), inspection_logged: false };
        assert(report@.out == Seq::<Seq<char>>::empty());
        assert(report@.err == Seq::<Seq<char>>::empty());
        report
    }

    /// Adds a line for the standard sink.
    pub fn say(&mut self, line: String)
        ensures
            final(self)@ == (Messages { out: old(self)@.out.push(line@), ..old(self)@ }),
    {
        self.out.push(line);
        assert(self@.out == old(self)@.out.push(line@));
    }

    /// Adds a line for the diagnostic sink.
    pub fn complain(&mut self, line: String)
        ensures
            final(self)@ == (Messages { err: old(self)@.err.push(line@), ..old(self)@ }),
    {
        self.err.push(line);
        assert(self@.err == old(self)@.err.push(line@));
    }

    /// Raises the inspection flag.
    pub fn raise(&mut self)
        ensures
            final(self)@ == (Messages { inspection_logged: true, ..old(self)@ }),
    {
        self.inspection_logged = true;
    }

    /// Adds what `other` holds after what this report holds.
    pub fn absorb(&mut self, other: Report)
        ensures
            final(self)@ == followed_by(old(self)@, other@),
    {
        let mut other = other;
        let ghost added = other@;
        self.out.append(&mut other.out);
        self.err.append(&mut other.err);
        self.inspection_logged = self.inspection_logged || other.inspection_logged;
        assert(self@.out == old(self)@.out + added.out);
        assert(self@.err == old(self)@.err + added.err);
    }
}

/// `value`, or `default` where there is none.
pub open spec fn or_default(value: Option<Seq<char>>, default: Seq<char>) -> Seq<char> {
    match value {
        Some(text) => text,
        None => default,
    }
}

/// The name under which a test or benchmark is reported, which is also the
/// name of its flow: the field `name` with `::` turned into dots, `no_name`
/// where the field is missing.
pub open spec fn name_of(event: Object) -> Seq<char> {
    dotted(or_default(event.text("name"@), "no_name"@))
}

/// The name under which the test or benchmark of `event` is reported.
pub fn parse_name(event: &Object) -> (name: String)
    ensures
        name@ == name_of(*event),
{
    match event.get_text("name") {
        Some(name) => dotted_name(name.as_str()),
        None => dotted_name("no_name"),
    }
}

/// Name of the target of a compile-time record, `anon` where it has none.
pub open spec fn target_of(event: Object) -> Seq<char> {
    match event.object("target"@) {
        Some(target) => or_default(target.text("name"@), "anon"@),
        None => "anon"@,
    }
}

/// The lines for a compile-time record: where the duration is greater than
/// `threshold`, a statistic that gives it with six decimals and a plain line
/// that gives it with two; nothing otherwise.
pub open spec fn timing_lines(brand: Seq<char>, threshold: u64, event: Object) -> Seq<Seq<char>> {
    let name = target_of(event);
    let mode = or_default(event.text("mode"@), "mode"@);
    match event.number("duration"@) {
        Some(duration) => match duration@.bits {
            Some(seconds) => if greater(seconds, threshold) {
                seq![
                    statistic_line(brand, timing_key_line(mode, name), fixed_notation(seconds, 6)),
                    compiled_in_line(name, fixed_notation(seconds, 2)),
                ]
            } else {
                Seq::empty()
            },
            None => Seq::empty(),
        },
        None => Seq::empty(),
    }
}

/// Reports a compile-time record.
pub fn parse_timing_info(ctx: &Context, event: &Object) -> (report: Report)
    ensures
        report@ == plain(timing_lines(ctx.brand@, ctx.min_threshold, *event)),
{
    let name: &str = match event.get_object("target") {
        Some(target) => match target.get_text("name") {
            Some(name) => name.as_str(),
            None => "anon",
        },
        None => "anon",
    };
    let mode: &str = match event.get_text("mode") {
        Some(mode) => mode.as_str(),
        None => "mode",
    };
    let mut report = Report::new();
    match event.get_number("duration") {
        Some(duration) => match duration.bits() {
            Some(seconds) => {
                if exceeds(seconds, ctx.min_threshold) {
                    match (duration.fixed(6), duration.fixed(2)) {
                        (Some(six), Some(two)) => {
                            let key = timing_key(mode, name);
                            report.say(statistic(ctx.brand.as_str(), key.as_str(), six.as_str()));
                            report.say(compiled_in(name, two.as_str()));
                        },
                        _ => {},
                    }
                }
            },
            None => {},
        },
        None => {},
    }
    assert(report@.out =~= timing_lines(ctx.brand@, ctx.min_threshold, *event));
    report
}

/// The line for a compiled package, where the event names one.
pub open spec fn artifact_lines(event: Object) -> Seq<Seq<char>> {
    match event.text("package_id"@) {
        Some(id) => seq![
            compiling_line(
                tidied(id),
                if event.flag("fresh"@) == Some(true) {
                    "[fresh]"@
                } else {
                    ""@
                },
            ),
        ],
        None => Seq::empty(),
    }
}

/// The line for a build script that ran, where the event names its package.
pub open spec fn build_script_lines(event: Object) -> Seq<Seq<char>> {
    match event.text("package_id"@) {
        Some(id) => seq![running_build_script_line(tidied(id))],
        None => Seq::empty(),
    }
}

/// Level of a diagnostic: its field `level`, with an internal compiler error
/// counted as an error.
pub open spec fn level_of(msg: Object) -> Option<Seq<char>> {
    match msg.text("level"@) {
        Some(level) => Some(
            if level == "error: internal compiler error"@ {
                "error"@
            } else {
                level
            },
        ),
        None => None,
    }
}

/// Code of a diagnostic, `other` where it has none.
pub open spec fn code_of(msg: Object) -> Seq<char> {
    match msg.object("code"@) {
        Some(code) => or_default(code.text("code"@), "other"@),
        None => "other"@,
    }
}

/// Explanation of the code of a diagnostic, `no explanation` where it has
/// none.
pub open spec fn explanation_of(msg: Object) -> Seq<char> {
    match msg.object("code"@) {
        Some(code) => or_default(code.text("explanation"@), "no explanation"@),
        None => "no explanation"@,
    }
}

/// The first span of a diagnostic, where it is an object.
pub open spec fn first_span(msg: Object) -> Option<Object> {
    match msg.items("spans"@) {
        Some(spans) => if spans.len() > 0 {
            match spans[0] {
                Json::Object(span) => Some(span),
                _ => None,
            }
        } else {
            None
        },
        None => None,
    }
}

/// File of the first span of a diagnostic, `no_file` where there is none.
pub open spec fn file_of(msg: Object) -> Seq<char> {
    match first_span(msg) {
        Some(span) => or_default(span.text("file_name"@), "no_file"@),
        None => "no_file"@,
    }
}

/// Line at which the first span of a diagnostic starts, 0 where there is
/// none.
pub open spec fn line_of(msg: Object) -> u64 {
    match first_span(msg) {
        Some(span) => match span.number("line_start"@) {
            Some(line) => match line@.unsigned {
                Some(line) => line,
                None => 0,
            },
            None => 0,
        },
        None => 0,
    }
}

/// Whether a rendered warning is the compiler's closing count of warnings.
pub open spec fn is_summary(rendered: Seq<char>) -> bool {
    has_substring(rendered, "1 warning emitted"@) || has_substring(rendered, " warnings emitted"@)
}

/// What is written for a diagnostic of the compiler.
///
/// An error gives a build problem on the standard sink and its rendered text
/// on the diagnostic sink. A warning gives the declaration of its kind and
/// the inspection itself, unless it is the closing count of warnings, and
/// then its rendered text. Both raise the inspection flag. A diagnostic of
/// another level, or of none, is written out as it is.
pub open spec fn diagnostic_messages(brand: Seq<char>, msg: Object) -> Messages {
    let rendered = or_default(msg.text("rendered"@), ""@);
    let code = code_of(msg);
    match level_of(msg) {
        Some(level) => if level == "error"@ {
            Messages {
                out: seq![build_problem_line(brand, escaped(rendered), code)],
                err: seq![rendered],
                inspection_logged: true,
            }
        } else if level == "warning"@ {
            Messages {
                out: (if is_summary(rendered) {
                    Seq::empty()
                } else {
                    seq![
                        inspection_type_line(brand, code, level, escaped(explanation_of(msg))),
                        inspection_line(
                            brand,
                            code,
                            escaped(rendered),
                            escaped(file_of(msg)),
                            decimal(line_of(msg) as nat),
                            level,
                        ),
                    ]
                }).push(rendered),
                err: Seq::empty(),
                inspection_logged: true,
            }
        } else {
            plain(seq![prefixed_line("unhandled message: "@, msg.debug@)])
        },
        None => plain(seq![msg.debug@]),
    }
}

/// Reports a diagnostic of the compiler.
pub fn parse_compiler_message(ctx: &Context, msg: &Object) -> (report: Report)
    ensures
        report@ == diagnostic_messages(ctx.brand@, *msg),
{
    let brand = ctx.brand.as_str();
    let mut report = Report::new();
    let level: &str = match msg.get_text("level") {
        Some(level) => if same_text(level.as_str(), "error: internal compiler error") {
            "error"
        } else {
            level.as_str()
        },
        None => {
            report.say(msg.debug.clone());
            return report;
        },
    };
    let is_error = same_text(level, "error");
    if !is_error && !same_text(level, "warning") {
        report.say(prefixed("unhandled message: ", msg.debug.as_str()));
        return report;
    }
    let rendered: &str = match msg.get_text("rendered") {
        Some(rendered) => rendered.as_str(),
        None => "",
    };
    let (code, explanation): (&str, &str) = match msg.get_object("code") {
        Some(code) => (
            match code.get_text("code") {
                Some(code) => code.as_str(),
                None => "other",
            },
            match code.get_text("explanation") {
                Some(explanation) => explanation.as_str(),
                None => "no explanation",
            },
        ),
        None => ("other", "no explanation"),
    };
    let mut file: &str = "no_file";
    let mut line: u64 = 0;
    match msg.get_items("spans") {
        Some(spans) => {
            if spans.len() > 0 {
                match &spans[0] {
                    Json::Object(span) => {
                        match span.get_text("file_name") {
                            Some(file_name) => {
                                file = file_name.as_str();
                            },
                            None => {},
                        }
                        match span.get_number("line_start") {
                            Some(line_start) => match line_start.unsigned() {
                                Some(line_start) => {
                                    line = line_start;
                                },
                                None => {},
                            },
                            None => {},
                        }
                    },
                    _ => {},
                }
            }
        },
        None => {},
    }
    if is_error {
        report.say(build_problem(brand, escape_message(rendered).as_str(), code));
        report.complain(rendered.to_owned());
    } else {
        if !contains_text(rendered, "1 warning emitted") && !contains_text(
            rendered,
            " warnings emitted",
        ) {
            report.say(
                inspection_type(brand, code, level, escape_message(explanation).as_str()),
            );
            report.say(
                inspection(
                    brand,
                    code,
                    escape_message(rendered).as_str(),
                    escape_message(file).as_str(),
                    decimal_text(line).as_str(),
                    level,
                ),
            );
        }
        report.say(rendered.to_owned());
    }
    report.raise();
    assert(report@.out =~= diagnostic_messages(ctx.brand@, *msg).out);
    assert(report@.err =~= diagnostic_messages(ctx.brand@, *msg).err);
    report
}

/// The line that reports a failed test: a comparison failure with both
/// values where the test's output holds a comparison, a plain failure
/// otherwise. The output and the values are escaped.
pub open spec fn failure_line(brand: Seq<char>, name: Seq<char>, stdout: Seq<char>) -> Seq<char> {
    match comparison(stdout) {
        Some((left, right)) => comparison_failed_line(
            brand,
            name,
            escaped(stdout),
            escaped(left),
            escaped(right),
        ),
        None => test_failed_line(brand, name, escaped(stdout)),
    }
}

/// The line that reports a finished test, with its duration where the event
/// gives one.
pub open spec fn finished_line(brand: Seq<char>, name: Seq<char>, exec_time: Option<Seq<char>>) -> Seq<
    char,
> {
    match exec_time {
        Some(duration) => test_finished_after_line(brand, name, duration),
        None => test_finished_line(brand, name),
    }
}

/// What is written for the event `kind` of a test.
///
/// `started` opens the flow and the test; `ok` closes the test and the flow;
/// `ignored` writes nothing; `failed` reports the failure, closes the test
/// and the flow and raises the inspection flag; anything else is written out
/// as not understood.
pub open spec fn test_event_messages(brand: Seq<char>, kind: Seq<char>, event: Object) -> Messages {
    let name = name_of(event);
    if kind == "started"@ {
        plain(seq![flow_started_line(brand, name), test_started_line(brand, name)])
    } else if kind == "ok"@ {
        plain(
            seq![
                finished_line(brand, name, event.text("exec_time"@)),
                flow_finished_line(brand, name),
            ],
        )
    } else if kind == "ignored"@ {
        silence()
    } else if kind == "failed"@ {
        Messages {
            out: seq![
                failure_line(brand, name, or_default(event.text("stdout"@), ""@)),
                test_finished_line(brand, name),
                flow_finished_line(brand, name),
            ],
            err: Seq::empty(),
            inspection_logged: true,
        }
    } else {
        plain(seq![prefixed_line("failed to parse "@, event.debug@)])
    }
}

/// Reports the event `event_type` of a test.
pub fn parse_test_event(ctx: &Context, event_type: &str, event: &Object) -> (report: Report)
    ensures
        report@ == test_event_messages(ctx.brand@, event_type@, *event),
{
    let brand = ctx.brand.as_str();
    let name = parse_name(event);
    let name = name.as_str();
    let mut report = Report::new();
    if same_text(event_type, "started") {
        report.say(flow_started(brand, name));
        report.say(test_started(brand, name));
    } else if same_text(event_type, "ok") {
        match event.get_text("exec_time") {
            Some(exec_time) => {
                report.say(test_finished_after(brand, name, exec_time.as_str()));
            },
            None => {
                report.say(test_finished(brand, name));
            },
        }
        report.say(flow_finished(brand, name));
    } else if same_text(event_type, "ignored") {
    } else if same_text(event_type, "failed") {
        let stdout: &str = match event.get_text("stdout") {
            Some(stdout) => stdout.as_str(),
            None => "",
        };
        let details = escape_message(stdout);
        match find_comparison(stdout) {
            Some((left, right)) => {
                report.say(
                    comparison_failed(
                        brand,
                        name,
                        details.as_str(),
                        escape_message(left).as_str(),
                        escape_message(right).as_str(),
                    ),
                );
            },
            None => {
                report.say(test_failed(brand, name, details.as_str()));
            },
        }
        report.say(test_finished(brand, name));
        report.say(flow_finished(brand, name));
        report.raise();
    } else {
        report.say(prefixed("failed to parse ", event.debug.as_str()));
    }
    assert(report@.out =~= test_event_messages(ctx.brand@, event_type@, *event).out);
    report
}

/// What is written for an event of a test.
pub open spec fn test_messages(brand: Seq<char>, event: Object) -> Messages {
    match event.text("event"@) {
        Some(kind) => test_event_messages(brand, kind, event),
        None => plain(seq![prefixed_line("unhandled event - please report: "@, event.debug@)]),
    }
}

/// What is written for an event of the test suite: its start, its end, and
/// its end with the inspection flag raised where it failed.
pub open spec fn suite_messages(brand: Seq<char>, event: Object) -> Messages {
    match event.text("event"@) {
        Some(kind) => if kind == "started"@ {
            plain(seq![suite_started_line(brand)])
        } else if kind == "ok"@ {
            plain(seq![suite_finished_line(brand)])
        } else if kind == "failed"@ {
            Messages {
                out: seq![suite_finished_line(brand)],
                err: Seq::empty(),
                inspection_logged: true,
            }
        } else {
            plain(seq![prefixed_line("format unknown "@, event.debug@)])
        },
        None => plain(seq![prefixed_line("format "@, event.debug@)]),
    }
}

/// The statistic for one measure of a benchmark, with six decimals, where
/// the event gives it as a number.
pub open spec fn measure_lines(brand: Seq<char>, measure: Seq<char>, event: Object) -> Seq<
    Seq<char>,
> {
    match event.number(measure) {
        Some(value) => match value@.bits {
            Some(value) => seq![
                statistic_line(
                    brand,
                    bench_key_line(name_of(event), measure),
                    fixed_notation(value, 6),
                ),
            ],
            None => Seq::empty(),
        },
        None => Seq::empty(),
    }
}

/// The statistics for a benchmark: its median, then its deviation.
pub open spec fn bench_lines(brand: Seq<char>, event: Object) -> Seq<Seq<char>> {
    measure_lines(brand, "median"@, event) + measure_lines(brand, "deviation"@, event)
}

/// What is written for an event, by its category.
pub open spec fn event_messages(ctx: Context, event: Object) -> Messages {
    let brand = ctx.brand@;
    match category(event) {
        Category::TimingInfo => plain(timing_lines(brand, ctx.min_threshold, event)),
        Category::BuildScriptExecuted => plain(build_script_lines(event)),
        Category::CompilerArtifact => plain(artifact_lines(event)),
        Category::CompilerMessage => match event.object("message"@) {
            Some(msg) => diagnostic_messages(brand, msg),
            None => silence(),
        },
        Category::BuildFinished => silence(),
        Category::UnknownCompiler => plain(
            seq![or_default(event.text("reason"@), ""@), event.debug@],
        ),
        Category::Suite => suite_messages(brand, event),
        Category::Bench => plain(bench_lines(brand, event)),
        Category::Test => test_messages(brand, event),
        Category::UnknownTest => plain(
            seq![prefixed_line("unhandled event - please report: "@, event.debug@)],
        ),
        Category::Unrecognized => silence(),
    }
}

fn measure(ctx: &Context, name: &str, key: &str, event: &Object, report: &mut Report)
    requires
        name@ == name_of(*event),
    ensures
        final(report)@ == followed_by(old(report)@, plain(measure_lines(ctx.brand@, key@, *event))),
{
    match event.get_number(key) {
        Some(value) => match value.fixed(6) {
            Some(value) => {
                let stat = bench_key(name, key);
                report.say(statistic(ctx.brand.as_str(), stat.as_str(), value.as_str()));
                assert(old(report)@.out + seq![report@.out.last()] == report@.out);
            },
            None => {
                assert(old(report)@.out + Seq::<Seq<char>>::empty() == old(report)@.out);
            },
        },
        None => {
            assert(old(report)@.out + Seq::<Seq<char>>::empty() == old(report)@.out);
        },
    }
    assert(report@.err + Seq::<Seq<char>>::empty() == report@.err);
}

fn suite(ctx: &Context, event: &Object) -> (report: Report)
    ensures
        report@ == suite_messages(ctx.brand@, *event),
{
    let brand = ctx.brand.as_str();
    let mut report = Report::new();
    match event.get_text("event") {
        Some(kind) => {
            let kind = kind.as_str();
            if same_text(kind, "started") {
                report.say(suite_started(brand));
            } else if same_text(kind, "ok") {
                report.say(suite_finished(brand));
            } else if same_text(kind, "failed") {
                report.raise();
                report.say(suite_finished(brand));
            } else {
                report.say(prefixed("format unknown ", event.debug.as_str()));
            }
        },
        None => {
            report.say(prefixed("format ", event.debug.as_str()));
        },
    }
    assert(report@.out =~= suite_messages(ctx.brand@, *event).out);
    report
}

/// Turns one event into the lines that report it, and says whether it
/// raised an inspection.
pub fn process(ctx: &Context, event: &Object) -> (report: Report)
    ensures
        report@ == event_messages(*ctx, *event),
{
    let mut report = Report::new();
    match classify(event) {
        Category::TimingInfo => {
            return parse_timing_info(ctx, event);
        },
        Category::BuildScriptExecuted => match event.get_text("package_id") {
            Some(id) => {
                report.say(running_build_script(tidy_package_id(id.as_str()).as_str()));
            },
            None => {},
        },
        Category::CompilerArtifact => {
            let fresh = match event.get_flag("fresh") {
                Some(fresh) => fresh,
                None => false,
            };
            match event.get_text("package_id") {
                Some(id) => {
                    report.say(
                        compiling(
                            tidy_package_id(id.as_str()).as_str(),
                            if fresh {
                                "[fresh]"
                            } else {
                                ""
                            },
                        ),
                    );
                },
                None => {},
            }
        },
        Category::CompilerMessage => match event.get_object("message") {
            Some(msg) => {
                return parse_compiler_message(ctx, msg);
            },
            None => {},
        },
        Category::BuildFinished => {},
        Category::UnknownCompiler => {
            match event.get_text("reason") {
                Some(reason) => {
                    report.say(reason.clone());
                },
                None => {},
            }
            report.say(event.debug.clone());
        },
        Category::Suite => {
            return suite(ctx, event);
        },
        Category::Bench => {
            let name = parse_name(event);
            measure(ctx, name.as_str(), "median", event, &mut report);
            measure(ctx, name.as_str(), "deviation", event, &mut report);
            assert(Seq::<Seq<char>>::empty() + measure_lines(ctx.brand@, "median"@, *event)
                == measure_lines(ctx.brand@, "median"@, *event));
        },
        Category::Test => match event.get_text("event") {
            Some(kind) => {
                return parse_test_event(ctx, kind.as_str(), event);
            },
            None => {
                report.say(prefixed("unhandled event - please report: ", event.debug.as_str()));
            },
        },
        Category::UnknownTest => {
            report.say(prefixed("unhandled event - please report: ", event.debug.as_str()));
        },
        Category::Unrecognized => {},
    }
    assert(report@.out =~= event_messages(*ctx, *event).out);
    report
}

/// An event of the test harness that says that the suite has started is
/// reported by exactly one line, the one that opens the suite under its fixed
/// name and flow, whatever else the event holds.
pub proof fn lemma_suite_started(ctx: Context, event: Object)
    requires
        event.text("reason"@) is None,
        event.text("type"@) == Some("suite"@),
        event.text("event"@) == Some("started"@),
    ensures
        event_messages(ctx, event) == plain(seq![suite_started_line(ctx.brand@)]),
{
}

/// A compile-time record whose duration is at most the threshold writes
/// nothing; one whose duration is greater writes exactly one statistic and
/// one plain line.
pub proof fn lemma_timing_threshold(ctx: Context, event: Object, seconds: u64)
    requires
        event.text("reason"@) == Some("timing-info"@),
        event.number("duration"@) matches Some(duration) && duration@.bits == Some(seconds),
    ensures
        at_most(seconds, ctx.min_threshold) ==> event_messages(ctx, event) == silence(),
        greater(seconds, ctx.min_threshold) ==> event_messages(ctx, event) == plain(
            seq![
                statistic_line(
                    ctx.brand@,
                    timing_key_line(or_default(event.text("mode"@), "mode"@), target_of(event)),
                    fixed_notation(seconds, 6),
                ),
                compiled_in_line(target_of(event), fixed_notation(seconds, 2)),
            ],
        ),
{
}

/// A failed test raises the inspection flag, whatever it printed.
pub proof fn lemma_failed_test_raises(ctx: Context, event: Object)
    requires
        category(event) == Category::Test,
        event.text("event"@) == Some("failed"@),
    ensures
        event_messages(ctx, event).inspection_logged,
{
    reveal_strlit("failed");
    reveal_strlit("started");
    reveal_strlit("ok");
    reveal_strlit("ignored");
    assert("failed"@.len() == 6 && "started"@.len() == 7 && "ok"@.len() == 2 && "ignored"@.len()
        == 7);
}

/// An ignored test writes nothing and does not raise the inspection flag.
pub proof fn lemma_ignored_test_is_silent(ctx: Context, event: Object)
    requires
        category(event) == Category::Test,
        event.text("event"@) == Some("ignored"@),
    ensures
        event_messages(ctx, event) == silence(),
{
    reveal_strlit("ignored");
    reveal_strlit("started");
    reveal_strlit("ok");
    assert("ignored"@.len() == 7 && "ok"@.len() == 2);
    assert("ignored"@[0] == 'i' && "started"@[0] == 's');
}

/// Only a diagnostic of the compiler, an event of the suite and an event of a
/// test can raise the inspection flag.
pub proof fn lemma_who_raises(ctx: Context, event: Object)
    requires
        event_messages(ctx, event).inspection_logged,
    ensures
        category(event) == Category::CompilerMessage || category(event) == Category::Suite
            || category(event) == Category::Test,
{
}

} // verus!
