//! The summary of a coverage report and the statistics that report it.

use crate::format::Context;
use crate::json::{decode, json_stream, Object, Parsed};
use crate::lines::{statistic, statistic_line};
use crate::number::{counted, fixed_notation};
use crate::text::{decimal, decimal_text, push_string, texts};
use vstd::prelude::*;

verus! {

/// The figures at the root of a coverage report.
pub struct CoverageSummary {
    /// Share of the lines that are covered, in percent: the bit pattern of
    /// the double.
    pub percent_bits: u64,
    /// Share of the lines that are covered, in percent, with six decimals.
    pub percent: String,
    pub lines_covered: u64,
    pub lines_missed: u64,
    pub lines_total: u64,
}

/// The figures of a coverage report, as the contracts see them.
pub struct Coverage {
    pub percent_bits: u64,
    pub percent: Seq<char>,
    pub lines_covered: u64,
    pub lines_missed: u64,
    pub lines_total: u64,
}

impl View for CoverageSummary {
    type V = Coverage;

    open spec fn view(&self) -> Coverage {
        Coverage {
            percent_bits: self.percent_bits,
            percent: self.percent@,
            lines_covered: self.lines_covered,
            lines_missed: self.lines_missed,
            lines_total: self.lines_total,
        }
    }
}

/// The first object among the decoded values at or after `from`.
pub open spec fn first_event(values: Seq<Parsed>, from: int) -> Option<Object>
    decreases values.len() - from,
{
    if from < 0 || from >= values.len() {
        None
    } else {
        match values[from] {
            Parsed::Event(event) => Some(event),
            _ => first_event(values, from + 1),
        }
    }
}

/// The number in the field `key` as a double, 0.0 where there is none.
pub open spec fn bits_in(report: Object, key: Seq<char>) -> u64 {
    match report.number(key) {
        Some(n) => match n@.bits {
            Some(bits) => bits,
            None => 0,
        },
        None => 0,
    }
}

/// The number in the field `key` with six decimals, `0.000000` where there is
/// none.
pub open spec fn six_places_in(report: Object, key: Seq<char>) -> Seq<char> {
    match report.number(key) {
        Some(n) => match n@.bits {
            Some(bits) => fixed_notation(bits, 6),
            None => "0.000000"@,
        },
        None => "0.000000"@,
    }
}

/// The number in the field `key` as a count, 0 where there is none.
pub open spec fn count_in(report: Object, key: Seq<char>) -> u64 {
    match report.number(key) {
        Some(n) => counted(n@),
        None => 0,
    }
}

/// The figures in the fields of `report`; what it holds besides them, such as
/// the tree under `children`, is not read.
pub open spec fn figures(report: Object) -> Coverage {
    Coverage {
        percent_bits: bits_in(report, "coveragePercent"@),
        percent: six_places_in(report, "coveragePercent"@),
        lines_covered: count_in(report, "linesCovered"@),
        lines_missed: count_in(report, "linesMissed"@),
        lines_total: count_in(report, "linesTotal"@),
    }
}

/// The figures of the first object among `values`, all zero where there is
/// none.
pub open spec fn summary_of(values: Seq<Parsed>) -> Coverage {
    match first_event(values, 0) {
        Some(report) => figures(report),
        None => Coverage {
            percent_bits: 0,
            percent: "0.000000"@,
            lines_covered: 0,
            lines_missed: 0,
            lines_total: 0,
        },
    }
}

fn count(report: &Object, key: &str) -> (n: u64)
    ensures
        n == count_in(*report, key@),
{
    match report.get_number(key) {
        Some(n) => n.count(),
        None => 0,
    }
}

fn percent(report: &Object, key: &str) -> (percent: (u64, String))
    ensures
        percent.0 == bits_in(*report, key@),
        percent.1@ == six_places_in(*report, key@),
{
    match report.get_number(key) {
        Some(n) => match (n.bits(), n.fixed(6)) {
            (Some(bits), Some(text)) => (bits, text),
            _ => (0, String::from_str("0.000000")),
        },
        None => (0, String::from_str("0.000000")),
    }
}

/// Reads the summary off the values decoded from a coverage report.
pub fn summarize(values: &Vec<Parsed>) -> (summary: CoverageSummary)
    ensures
        summary@ == summary_of(values@),
{
    let mut i: usize = 0;
    while i < values.len()
        invariant
            i <= values.len(),
            first_event(values@, 0) == first_event(values@, i as int),
        decreases values.len() - i,
    {
        match &values[i] {
            Parsed::Event(report) => {
                let (percent_bits, percent) = percent(report, "coveragePercent");
                return CoverageSummary {
                    percent_bits,
                    percent,
                    lines_covered: count(report, "linesCovered"),
                    lines_missed: count(report, "linesMissed"),
                    lines_total: count(report, "linesTotal"),
                };
            },
            _ => {},
        }
        i += 1;
    }
    CoverageSummary {
        percent_bits: 0,
        percent: String::from_str("0.000000"),
        lines_covered: 0,
        lines_missed: 0,
        lines_total: 0,
    }
}

/// Reads the summary off the JSON text of a coverage report.
pub fn parse_cov(cov: &str) -> (summary: CoverageSummary)
    ensures
        summary@ == summary_of(json_stream(cov@)),
{
    let values = decode(cov);
    summarize(&values)
}

/// The three statistics that report a coverage summary: the percentage, the
/// number of covered lines and the number of lines.
pub open spec fn coverage_lines(brand: Seq<char>, summary: Coverage) -> Seq<Seq<char>> {
    seq![
        statistic_line(brand, "CodeCoverageL"@, summary.percent),
        statistic_line(brand, "CodeCoverageAbsLCovered"@, decimal(summary.lines_covered as nat)),
        statistic_line(brand, "CodeCoverageAbsLTotal"@, decimal(summary.lines_total as nat)),
    ]
}

/// Builds the statistics that report a coverage summary.
pub fn coverage_report(ctx: &Context, summary: &CoverageSummary) -> (lines: Vec<String>)
    ensures
        texts(lines@) == coverage_lines(ctx.brand@, summary@),
{
    let brand = ctx.brand.as_str();
    let mut lines: Vec<String> = Vec::new();
    assert(texts(lines@) =~= Seq::<Seq<char>>::empty());
    push_string(&mut lines, statistic(brand, "CodeCoverageL", summary.percent.as_str()));
    push_string(
        &mut lines,
        statistic(brand, "CodeCoverageAbsLCovered", decimal_text(summary.lines_covered).as_str()),
    );
    push_string(
        &mut lines,
        statistic(brand, "CodeCoverageAbsLTotal", decimal_text(summary.lines_total).as_str()),
    );
    assert(texts(lines@) =~= coverage_lines(ctx.brand@, summary@));
    lines
}

} // verus!
