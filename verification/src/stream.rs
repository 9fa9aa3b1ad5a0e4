//! The input, processed line by line.

use crate::cli::{exit_code, reported_code};
use crate::format::{event_messages, followed_by, plain, process, silence, Context, Messages, Report};
use crate::json::{decode, json_stream, Parsed};
use crate::lines::{prefixed, prefixed_line};
use crate::text::texts;
use vstd::prelude::*;

verus! {

/// What is written for one value decoded from `line`: the report of an
/// event, a complaint about a JSON value that is no object, and the line
/// itself where it is no JSON.
pub open spec fn value_messages(ctx: Context, line: Seq<char>, value: Parsed) -> Messages {
    match value {
        Parsed::Event(event) => event_messages(ctx, event),
        Parsed::Other => plain(seq![prefixed_line("error parsing cargo output: "@, line)]),
        Parsed::Invalid => plain(seq![line]),
    }
}

/// What is written for the values decoded from `line`, one after the other.
pub open spec fn values_messages(ctx: Context, line: Seq<char>, values: Seq<Parsed>) -> Messages
    decreases values.len(),
{
    if values.len() == 0 {
        silence()
    } else {
        followed_by(
            values_messages(ctx, line, values.drop_last()),
            value_messages(ctx, line, values.last()),
        )
    }
}

/// The echo of a line of input: the line itself where the run is set to
/// debug, nothing otherwise.
pub open spec fn echo(ctx: Context, line: Seq<char>) -> Messages {
    if ctx.debug {
        plain(seq![line])
    } else {
        silence()
    }
}

/// What is written for a line of input that decodes to `values`.
pub open spec fn decoded_line_messages(ctx: Context, line: Seq<char>, values: Seq<Parsed>) -> Messages {
    followed_by(echo(ctx, line), values_messages(ctx, line, values))
}

/// What is written for a line of input.
pub open spec fn line_messages(ctx: Context, line: Seq<char>) -> Messages {
    decoded_line_messages(ctx, line, json_stream(line))
}

/// What is written for the lines of input, one after the other.
pub open spec fn stream_messages(ctx: Context, lines: Seq<Seq<char>>) -> Messages
    decreases lines.len(),
{
    if lines.len() == 0 {
        silence()
    } else {
        followed_by(stream_messages(ctx, lines.drop_last()), line_messages(ctx, lines.last()))
    }
}

/// `silence` changes nothing, before or after, and `followed_by` may be
/// grouped either way.
pub proof fn lemma_followed_by(a: Messages, b: Messages, c: Messages)
    ensures
        followed_by(silence(), a) == a,
        followed_by(a, silence()) == a,
        followed_by(followed_by(a, b), c) == followed_by(a, followed_by(b, c)),
{
    assert(followed_by(silence(), a).out =~= a.out);
    assert(followed_by(silence(), a).err =~= a.err);
    assert(followed_by(a, silence()).out =~= a.out);
    assert(followed_by(a, silence()).err =~= a.err);
    assert(followed_by(followed_by(a, b), c).out =~= followed_by(a, followed_by(b, c)).out);
    assert(followed_by(followed_by(a, b), c).err =~= followed_by(a, followed_by(b, c)).err);
}

/// Processes a line of input that was decoded to `values`.
pub fn process_values(ctx: &Context, line: &str, values: &Vec<Parsed>) -> (report: Report)
    ensures
        report@ == decoded_line_messages(*ctx, line@, values@),
{
    let mut report = Report::new();
    if ctx.debug {
        report.say(line.to_owned());
    }
    assert(report@.out =~= echo(*ctx, line@).out);
    let mut i: usize = 0;
    proof {
        lemma_followed_by(echo(*ctx, line@), silence(), silence());
    }
    while i < values.len()
        invariant
            i <= values.len(),
            report@ == followed_by(
                echo(*ctx, line@),
                values_messages(*ctx, line@, values@.take(i as int)),
            ),
        decreases values.len() - i,
    {
        let ghost before = values_messages(*ctx, line@, values@.take(i as int));
        let ghost step = value_messages(*ctx, line@, values@[i as int]);
        match &values[i] {
            Parsed::Event(event) => {
                report.absorb(process(ctx, event));
            },
            Parsed::Other => {
                let mut other = Report::new();
                other.say(prefixed("error parsing cargo output: ", line));
                assert(other@.out =~= step.out);
                report.absorb(other);
            },
            Parsed::Invalid => {
                let mut other = Report::new();
                other.say(line.to_owned());
                assert(other@.out =~= step.out);
                report.absorb(other);
            },
        }
        proof {
            assert(values@.take(i + 1).drop_last() == values@.take(i as int));
            lemma_followed_by(echo(*ctx, line@), before, step);
        }
        i += 1;
    }
    assert(values@.take(values.len() as int) == values@);
    report
}

/// Processes a line of input: decodes the JSON values in it and reports
/// each.
pub fn process_line(ctx: &Context, line: &str) -> (report: Report)
    ensures
        report@ == line_messages(*ctx, line@),
{
    let values = decode(line);
    process_values(ctx, line, &values)
}

/// Processes the lines of input in order.
pub fn process_lines(ctx: &Context, lines: &Vec<String>) -> (report: Report)
    ensures
        report@ == stream_messages(*ctx, texts(lines@)),
{
    let mut report = Report::new();
    let mut i: usize = 0;
    while i < lines.len()
        invariant
            i <= lines.len(),
            report@ == stream_messages(*ctx, texts(lines@).take(i as int)),
        decreases lines.len() - i,
    {
        report.absorb(process_line(ctx, lines[i].as_str()));
        proof {
            let upto = texts(lines@).take(i + 1);
            assert(upto.drop_last() == texts(lines@).take(i as int));
            assert(upto.last() == lines@[i as int]@);
        }
        i += 1;
    }
    assert(texts(lines@).take(lines.len() as int) == texts(lines@));
    report
}

/// A run: its settings, and whether anything that it has read so far raised
/// the inspection flag. The flag is the only part that changes while input is
/// fed in.
pub struct Run {
    pub ctx: Context,
    pub inspection_logged: bool,
}

impl Run {
    /// A run that has read nothing yet.
    pub fn new(ctx: Context) -> (run: Run)
        ensures
            run.ctx == ctx,
            !run.inspection_logged,
    {
        Run { ctx, inspection_logged: false }
    }

    /// Processes the next line of input and remembers whether it raised the
    /// inspection flag. A flag that is raised stays raised.
    pub fn feed(&mut self, line: &str) -> (report: Report)
        ensures
            report@ == line_messages(old(self).ctx, line@),
            final(self).ctx == old(self).ctx,
            final(self).inspection_logged == (old(self).inspection_logged
                || report.inspection_logged),
    {
        let report = process_line(&self.ctx, line);
        if report.inspection_logged {
            self.inspection_logged = true;
        }
        report
    }

    /// The exit code to report once cargo's `subcommand` has ended with
    /// `status`.
    pub fn exit_code(&self, subcommand: &str, status: Option<i32>) -> (code: i32)
        ensures
            code == reported_code(self.inspection_logged, subcommand@, status),
    {
        exit_code(self.inspection_logged, subcommand, status)
    }
}

/// A line raises the inspection flag where one of the values decoded from it
/// does.
pub proof fn lemma_value_flag(ctx: Context, line: Seq<char>, values: Seq<Parsed>, i: int)
    requires
        0 <= i < values.len(),
        value_messages(ctx, line, values[i]).inspection_logged,
    ensures
        decoded_line_messages(ctx, line, values).inspection_logged,
    decreases values.len(),
{
    if i < values.len() - 1 {
        lemma_value_flag(ctx, line, values.drop_last(), i);
    }
}

/// The inspection flag of a run is raised by every line that raises it: once
/// a line has raised the flag, it stays raised whatever follows.
pub proof fn lemma_flag_accumulates(ctx: Context, lines: Seq<Seq<char>>, i: int)
    requires
        0 <= i < lines.len(),
        line_messages(ctx, lines[i]).inspection_logged,
    ensures
        stream_messages(ctx, lines).inspection_logged,
    decreases lines.len(),
{
    if i < lines.len() - 1 {
        lemma_flag_accumulates(ctx, lines.drop_last(), i);
    }
}

/// The inspection flag of a run is raised only where one of its lines raises
/// it.
pub proof fn lemma_flag_has_a_cause(ctx: Context, lines: Seq<Seq<char>>) -> (i: int)
    requires
        stream_messages(ctx, lines).inspection_logged,
    ensures
        0 <= i < lines.len(),
        line_messages(ctx, lines[i]).inspection_logged,
    decreases lines.len(),
{
    if line_messages(ctx, lines.last()).inspection_logged {
        lines.len() - 1
    } else {
        lemma_flag_has_a_cause(ctx, lines.drop_last())
    }
}

/// A run of `test` or `clippy` in which a line raised the inspection flag
/// reports success, whatever the exit code of cargo.
pub proof fn lemma_flagged_run_succeeds(
    ctx: Context,
    lines: Seq<Seq<char>>,
    i: int,
    subcommand: Seq<char>,
    code: i32,
)
    requires
        0 <= i < lines.len(),
        line_messages(ctx, lines[i]).inspection_logged,
        subcommand == "test"@ || subcommand == "clippy"@,
    ensures
        reported_code(stream_messages(ctx, lines).inspection_logged, subcommand, Some(code)) == 0,
{
    lemma_flag_accumulates(ctx, lines, i);
}

} // verus!
