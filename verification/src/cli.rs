//! The command line: what the arguments ask for, what is handed to cargo, and
//! the exit code that is reported.

use crate::text::{contains_text, has_substring, push_text, same_text, texts};
use vstd::prelude::*;

verus! {

/// Name of the environment variable that holds the user's home directory.
pub fn default_cargo_home() -> (name: &'static str)
    ensures
        name@ == "HOME"@,
{
    "HOME"
}

/// The text of a string that may be absent.
pub open spec fn text_of(s: Option<String>) -> Option<Seq<char>> {
    match s {
        Some(s) => Some(s@),
        None => None,
    }
}

/// Cargo's home directory: the value of `CARGO_HOME` where it is set, else
/// `.cargo` under the home directory, where that is known.
pub open spec fn cargo_home_path(configured: Option<Seq<char>>, home: Option<Seq<char>>) -> Option<
    Seq<char>,
> {
    match configured {
        Some(path) => Some(path),
        None => match home {
            Some(path) => Some(path + "/.cargo"@),
            None => None,
        },
    }
}

/// Cargo's home directory, from the values of `CARGO_HOME` and of the
/// variable that `default_cargo_home` names.
pub fn cargo_home(configured: Option<String>, home: Option<String>) -> (path: Option<String>)
    ensures
        text_of(path) == cargo_home_path(text_of(configured), text_of(home)),
{
    match configured {
        Some(path) => Some(path),
        None => match home {
            Some(path) => {
                let mut path = path;
                path.append("/.cargo");
                Some(path)
            },
            None => None,
        },
    }
}

/// Whether one of `args` is `needle`.
pub fn contains(needle: &str, args: &[String]) -> (found: bool)
    ensures
        found == texts(args@).contains(needle@),
{
    let mut i: usize = 0;
    while i < args.len()
        invariant
            i <= args.len(),
            forall|j: int| 0 <= j < i ==> texts(args@)[j] != needle@,
        decreases args.len() - i,
    {
        if same_text(args[i].as_str(), needle) {
            assert(texts(args@)[i as int] == needle@);
            return true;
        }
        i += 1;
    }
    false
}

/// The `Debug` notation of a list of strings.
pub uninterp spec fn list_debug(items: Seq<Seq<char>>) -> Seq<char>;

/// `format!` with `{:?}` on a vector of strings: its `Debug` notation, which
/// depends on the strings alone and which the contract names.
#[verifier::external_body]
fn debug_text(items: &Vec<String>) -> (text: String)
    ensures
        text@ == list_debug(texts(items@)),
{
    format!("{:?}", items)
}

/// Message for a command line that is too short.
pub open spec fn usage_message(argv: Seq<Seq<char>>) -> Seq<char> {
    "Usage: 'test' as the next argument followed by the standard cargo test arguments. Found "@
        + list_debug(argv)
}

/// Message for a command line whose second word is not `service-message`.
pub open spec fn wrong_word_message(word: Seq<char>) -> Seq<char> {
    "expected 'service-message' as the next argument followed by the standard cargo test arguments but got "@
        + word
}

/// What a command line asks for: the arguments for cargo, which follow the
/// program's name and the word `service-message`, or the message that says
/// why the command line is refused.
pub open spec fn requested(argv: Seq<Seq<char>>) -> Result<Seq<Seq<char>>, Seq<char>> {
    if argv.len() < 2 {
        Err(usage_message(argv))
    } else if argv[1] != "service-message"@ {
        Err(wrong_word_message(argv[1]))
    } else {
        Ok(argv.skip(2))
    }
}

/// Checks the command line and returns the arguments that go to cargo.
pub fn cargo_service_message(argv: Vec<String>) -> (r: Result<Vec<String>, String>)
    ensures
        match r {
            Ok(args) => requested(texts(argv@)) == Ok::<Seq<Seq<char>>, Seq<char>>(texts(args@)),
            Err(message) => requested(texts(argv@)) == Err::<Seq<Seq<char>>, Seq<char>>(message@),
        },
{
    if argv.len() < 2 {
        let mut message = String::from_str(
            "Usage: 'test' as the next argument followed by the standard cargo test arguments. Found ",
        );
        let found = debug_text(&argv);
        message.append(found.as_str());
        return Err(message);
    }
    assert(texts(argv@)[1] == argv@[1]@);
    if !same_text(argv[1].as_str(), "service-message") {
        let mut message = String::from_str(
            "expected 'service-message' as the next argument followed by the standard cargo test arguments but got ",
        );
        message.append(argv[1].as_str());
        return Err(message);
    }
    let mut args: Vec<String> = Vec::new();
    let mut i: usize = 2;
    while i < argv.len()
        invariant
            2 <= i <= argv.len(),
            texts(args@) == texts(argv@).subrange(2, i as int),
        decreases argv.len() - i,
    {
        let ghost before = texts(args@);
        push_text(&mut args, argv[i].as_str());
        assert(texts(argv@).subrange(2, i + 1) == before.push(argv@[i as int]@));
        i += 1;
    }
    assert(texts(argv@).subrange(2, argv.len() as int) == texts(argv@).skip(2));
    Ok(args)
}

/// The exit code to report: that of cargo, but 0 where a problem was already
/// reported through service messages and cargo ran `test` or `clippy`; -1
/// where cargo ended without an exit code.
pub open spec fn reported_code(inspection_logged: bool, subcommand: Seq<char>, status: Option<i32>) -> i32 {
    match status {
        Some(code) => if inspection_logged && (subcommand == "clippy"@ || subcommand == "test"@) {
            0
        } else {
            code
        },
        None => -1i32,
    }
}

/// The exit code to report for a run of cargo's `subcommand` that ended with
/// `status`.
pub fn exit_code(inspection_logged: bool, subcommand: &str, status: Option<i32>) -> (code: i32)
    ensures
        code == reported_code(inspection_logged, subcommand@, status),
{
    match status {
        Some(code) => if inspection_logged && (same_text(subcommand, "clippy") || same_text(
            subcommand,
            "test",
        )) {
            0
        } else {
            code
        },
        None => -1,
    }
}

/// What the setting in the variable `SERVICE_MESSAGE` asks for.
pub struct Options {
    /// Whether each line of input is echoed: the setting holds `--debug`.
    pub debug: bool,
    /// Whether coverage is asked for: the setting holds `--cover`.
    pub coverage: bool,
}

/// Reads the options off the setting.
pub fn options(setting: &str) -> (options: Options)
    ensures
        options.debug == has_substring(setting@, "--debug"@),
        options.coverage == has_substring(setting@, "--cover"@),
{
    Options {
        debug: contains_text(setting, "--debug"),
        coverage: contains_text(setting, "--cover"),
    }
}

/// Whether a run can measure coverage: it was asked for, and cargo runs
/// `test`.
pub fn measures_coverage(asked: bool, subcommand: &str) -> (measured: bool)
    ensures
        measured == (asked && subcommand@ == "test"@),
{
    asked && same_text(subcommand, "test")
}

/// The directory of the build's profile: `release` where the arguments ask
/// for it, `debug` otherwise.
pub fn build_mode(args: &[String]) -> (mode: &'static str)
    ensures
        mode@ == if texts(args@).contains("--release"@) {
            "release"@
        } else {
            "debug"@
        },
{
    if contains("--release", args) {
        "release"
    } else {
        "debug"
    }
}

/// What is added to the arguments of a subcommand so that cargo reports in
/// JSON: nothing for `clean` and `fmt`, which do not report.
pub open spec fn format_arguments(subcommand: Seq<char>) -> Seq<Seq<char>> {
    if subcommand != "clean"@ && subcommand != "fmt"@ {
        seq!["--message-format=json"@, "-Ztimings=json,html,info"@]
    } else {
        Seq::empty()
    }
}

/// The separator between cargo's arguments and those of the test harness,
/// where the arguments do not hold it yet.
pub open spec fn separator_arguments(args: Seq<Seq<char>>) -> Seq<Seq<char>> {
    if !args.contains("--"@) {
        seq!["--"@]
    } else {
        Seq::empty()
    }
}

/// What is added for the test harness so that it reports in JSON, for `test`
/// and `bench`: the switch for unstable options where the arguments do not
/// hold it yet, and the format.
pub open spec fn harness_arguments(args: Seq<Seq<char>>) -> Seq<Seq<char>>
    recommends
        args.len() > 0,
{
    if args[0] == "test"@ || args[0] == "bench"@ {
        (if !args.contains("-Zunstable-options"@) && !args.contains("unstable-options"@) {
            seq!["-Zunstable-options"@]
        } else {
            Seq::empty()
        }) + seq!["--format"@, "json"@]
    } else {
        Seq::empty()
    }
}

/// The arguments with which cargo is run: those given, whose first is the
/// subcommand, followed by what makes cargo and the test harness report in
/// JSON.
pub open spec fn cargo_command(args: Seq<Seq<char>>) -> Seq<Seq<char>>
    recommends
        args.len() > 0,
{
    args + format_arguments(args[0]) + separator_arguments(args) + harness_arguments(args)
}

/// Builds the arguments with which cargo is run.
pub fn cargo_arguments(args: &[String]) -> (command: Vec<String>)
    requires
        args.len() > 0,
    ensures
        texts(command@) == cargo_command(texts(args@)),
{
    let mut command: Vec<String> = Vec::new();
    let mut i: usize = 0;
    while i < args.len()
        invariant
            i <= args.len(),
            texts(command@) == texts(args@).take(i as int),
        decreases args.len() - i,
    {
        let ghost before = texts(command@);
        push_text(&mut command, args[i].as_str());
        assert(texts(args@).take(i + 1) == before.push(args@[i as int]@));
        i += 1;
    }
    assert(texts(args@).take(args.len() as int) == texts(args@));
    assert(texts(args@)[0] == args@[0]@);
    let subcommand = args[0].as_str();
    if !same_text(subcommand, "clean") && !same_text(subcommand, "fmt") {
        push_text(&mut command, "--message-format=json");
        push_text(&mut command, "-Ztimings=json,html,info");
    }
    assert(texts(command@) =~= texts(args@) + format_arguments(subcommand@));
    if !contains("--", args) {
        push_text(&mut command, "--");
    }
    assert(texts(command@) =~= texts(args@) + format_arguments(subcommand@) + separator_arguments(
        texts(args@),
    ));
    if same_text(subcommand, "test") || same_text(subcommand, "bench") {
        if !contains("-Zunstable-options", args) && !contains("unstable-options", args) {
            push_text(&mut command, "-Zunstable-options");
        }
        push_text(&mut command, "--format");
        push_text(&mut command, "json");
    }
    assert(texts(command@) =~= cargo_command(texts(args@)));
    command
}

/// The compiler flags for a run that measures coverage: those already set,
/// followed by the ones that instrument the build.
pub open spec fn coverage_flags(flags: Seq<char>) -> Seq<char> {
    flags
        + " -Zinstrument-coverage -Zprofile -Ccodegen-units=1 -Copt-level=0 -Clink-dead-code -Coverflow-checks=off -Zpanic_abort_tests -Cpanic=abort"@
}

/// Builds the compiler flags for a run that measures coverage.
pub fn coverage_rustflags(flags: &str) -> (all: String)
    ensures
        all@ == coverage_flags(flags@),
{
    let mut all = String::from_str(flags);
    all.append(
        " -Zinstrument-coverage -Zprofile -Ccodegen-units=1 -Copt-level=0 -Clink-dead-code -Coverflow-checks=off -Zpanic_abort_tests -Cpanic=abort",
    );
    all
}

/// The arguments with which the coverage tool is run: it reads `input_dir`
/// and writes a report of the kind `output_type` to `output_dir`, passing
/// over what lies under cargo's home, where that is known.
pub open spec fn coverage_tool_command(
    input_dir: Seq<char>,
    output_type: Seq<char>,
    output_dir: Seq<char>,
    cargo_home: Option<Seq<char>>,
) -> Seq<Seq<char>> {
    seq![
        input_dir,
        "-s"@,
        "."@,
        "-t"@,
        output_type,
        "--llvm"@,
        "--branch"@,
        "--ignore-not-existing"@,
        "-o"@,
        output_dir,
    ] + match cargo_home {
        Some(home) => seq!["--ignore"@, home + "/**"@],
        None => Seq::empty(),
    }
}

/// Builds the arguments with which the coverage tool is run.
pub fn grcov_arguments(
    input_dir: &str,
    output_type: &str,
    output_dir: &str,
    cargo_home: Option<&str>,
) -> (command: Vec<String>)
    ensures
        texts(command@) == coverage_tool_command(
            input_dir@,
            output_type@,
            output_dir@,
            match cargo_home {
                Some(home) => Some(home@),
                None => None,
            },
        ),
{
    let mut command: Vec<String> = Vec::new();
    assert(texts(command@) =~= Seq::<Seq<char>>::empty());
    push_text(&mut command, input_dir);
    push_text(&mut command, "-s");
    push_text(&mut command, ".");
    push_text(&mut command, "-t");
    push_text(&mut command, output_type);
    push_text(&mut command, "--llvm");
    push_text(&mut command, "--branch");
    push_text(&mut command, "--ignore-not-existing");
    push_text(&mut command, "-o");
    push_text(&mut command, output_dir);
    match cargo_home {
        Some(home) => {
            push_text(&mut command, "--ignore");
            let mut pattern = String::from_str(home);
            pattern.append("/**");
            push_text(&mut command, pattern.as_str());
        },
        None => {},
    }
    assert(texts(command@) =~= coverage_tool_command(
        input_dir@,
        output_type@,
        output_dir@,
        match cargo_home {
            Some(home) => Some(home@),
            None => None,
        },
    ));
    command
}

} // verus!
