//! The record parser: from one line of a statement to a transaction record,
//! and from all lines of a statement to the records they hold.

use crate::error::ReportError;
use crate::matcher::{capture_groups, captured_groups, compile, compiled, groups_view};
use crate::capture::{group, group_text};
use crate::models::data::{date_in_text, BusinessType, Data, DataBuilder, Date};
use crate::text::{bounded_value, chars_of, parse_chars};
use regex::Regex;
use vstd::prelude::*;

verus! {

/// The expression for a line of a pipe-delimited statement:
/// `index|date time|description|out|in|balance|note|type|place`, with or
/// without more fields after another `|`.
pub open spec fn pipe_pattern_text() -> Seq<char> {
    "^(\\d+)\\|(\\d{4}\\.\\d{2}\\.\\d{2} \\d{2}:\\d{2}:\\d{2})\\|([^|]+)\\|(\\d{1,3}(?:,\\d{3})*)\\|(\\d{1,3}(?:,\\d{3})*)\\|(\\d{1,3}(?:,\\d{3})*)\\|([^|]*)\\|([^|]+)\\|([^|]+)(?:\\|.*)?$"@
}

/// The expression for a line of a statement whose fields are separated by
/// blanks, as text taken from a printed statement has them:
/// `index date time description out in balance` and then free text.
pub open spec fn blank_pattern_text() -> Seq<char> {
    "^\\s*(\\d+)\\s+(\\d{4}\\.\\d{2}\\.\\d{2} \\d{2}:\\d{2}:\\d{2})\\s+(\\S+)\\s+(\\d{1,3}(?:,\\d{3})*)\\s+(\\d{1,3}(?:,\\d{3})*)\\s+(\\d{1,3}(?:,\\d{3})*)\\s+(\\S.*)$"@
}

/// The expression for a line of a pipe-delimited statement.
pub fn pipe_pattern() -> (r: &'static str)
    ensures
        r@ == pipe_pattern_text(),
{
    "^(\\d+)\\|(\\d{4}\\.\\d{2}\\.\\d{2} \\d{2}:\\d{2}:\\d{2})\\|([^|]+)\\|(\\d{1,3}(?:,\\d{3})*)\\|(\\d{1,3}(?:,\\d{3})*)\\|(\\d{1,3}(?:,\\d{3})*)\\|([^|]*)\\|([^|]+)\\|([^|]+)(?:\\|.*)?$"
}

/// The expression for a line of a statement whose fields are separated by
/// blanks.
pub fn blank_pattern() -> (r: &'static str)
    ensures
        r@ == blank_pattern_text(),
{
    "^\\s*(\\d+)\\s+(\\d{4}\\.\\d{2}\\.\\d{2} \\d{2}:\\d{2}:\\d{2})\\s+(\\S+)\\s+(\\d{1,3}(?:,\\d{3})*)\\s+(\\d{1,3}(?:,\\d{3})*)\\s+(\\d{1,3}(?:,\\d{3})*)\\s+(\\S.*)$"
}

/// The test that tells the thousands separator from the other characters.
pub open spec fn not_separator() -> spec_fn(char) -> bool {
    |c: char| c != ','
}

/// The amount that `text` writes: its characters without the thousands
/// separators, read as an unsigned number of 32 bits.
pub open spec fn amount_value(text: Seq<char>) -> Option<u32> {
    match bounded_value(text.filter(not_separator()), u32::MAX as nat) {
        Some(v) => Some(v as u32),
        None => None,
    }
}

/// Reads an amount: strips the thousands separators from `text` and reads
/// what is left as an unsigned number.
pub fn parse_amount(text: &str) -> (r: Option<u32>)
    ensures
        r == amount_value(text@),
{
    let chars = chars_of(text);
    let mut digits: Vec<char> = Vec::new();
    let mut i: usize = 0;
    proof {
        reveal(Seq::filter);
        assert(text@.take(0).filter(not_separator()) =~= digits@);
    }
    while i < chars.len()
        invariant
            i <= chars.len(),
            chars@ == text@,
            digits@ == text@.take(i as int).filter(not_separator()),
        decreases chars.len() - i,
    {
        let c = chars[i];
        proof {
            reveal(Seq::filter);
            assert(text@.take(i + 1).drop_last() =~= text@.take(i as int));
        }
        if c != ',' {
            digits.push(c);
        }
        i = i + 1;
    }
    proof {
        assert(text@.take(chars.len() as int) =~= text@);
    }
    parse_chars(&digits, u32::MAX)
}

/// A field of a matched line: not there (`None`), there but unreadable
/// (`Some(None)`), or read.
pub open spec fn date_field(groups: Seq<Option<Seq<char>>>) -> Option<Option<Date>> {
    match group_text(groups, 2) {
        Some(text) => Some(date_in_text(text)),
        None => None,
    }
}

/// The amount in capture group `i` of a matched line: not there (`None`),
/// there but unreadable (`Some(None)`), or read.
pub open spec fn amount_field(groups: Seq<Option<Seq<char>>>, i: int) -> Option<Option<u32>> {
    match group_text(groups, i) {
        Some(text) => Some(amount_value(text)),
        None => None,
    }
}

/// The record that the capture groups of a line make up.
///
/// A line that did not match holds no record. Of a line that matched,
/// group 2 holds the date and groups 4, 5 and 6 the expense, the income and
/// the balance. If one of them is there but cannot be read, the line is
/// distrusted; if one is not there at all, the record is incomplete.
pub open spec fn record_of_groups(groups: Option<Seq<Option<Seq<char>>>>) -> Result<
    Option<Data>,
    ReportError,
> {
    match groups {
        None => Ok(None),
        Some(gs) => {
            let date = date_field(gs);
            let cash_in = amount_field(gs, 5);
            let cash_out = amount_field(gs, 4);
            let balance = amount_field(gs, 6);
            if date == Some(None::<Date>) || cash_in == Some(None::<u32>) || cash_out == Some(
                None::<u32>,
            ) || balance == Some(None::<u32>) {
                Err(ReportError::FieldParse)
            } else if date is None || cash_in is None || cash_out is None || balance is None {
                Err(ReportError::IncompleteRecord)
            } else {
                Ok(
                    Some(
                        Data {
                            date: date->0->0,
                            business_type: BusinessType::Unclassified,
                            business_name: None,
                            cash_in: cash_in->0->0,
                            cash_out: cash_out->0->0,
                            balance: balance->0->0,
                            remarks: None,
                            receipt_num: None,
                        },
                    ),
                )
            }
        },
    }
}

/// Builds the record that the capture groups of a line make up; see
/// `record_of_groups`.
pub fn record_from_groups(groups: &Option<Vec<Option<String>>>) -> (r: Result<
    Option<Data>,
    ReportError,
>)
    ensures
        r == record_of_groups(groups_view(*groups)),
{
    let list = match groups {
        Some(list) => list,
        None => {
            return Ok(None);
        },
    };
    let ghost gs = groups_view(*groups)->0;
    let mut builder = DataBuilder::new();
    match group(list, 2) {
        Some(text) => match Date::new(text) {
            Some(date) => {
                builder.date(date);
            },
            None => {
                return Err(ReportError::FieldParse);
            },
        },
        None => {},
    }
    match group(list, 5) {
        Some(text) => match parse_amount(text) {
            Some(amount) => {
                builder.cash_in(amount);
            },
            None => {
                return Err(ReportError::FieldParse);
            },
        },
        None => {},
    }
    match group(list, 4) {
        Some(text) => match parse_amount(text) {
            Some(amount) => {
                builder.cash_out(amount);
            },
            None => {
                return Err(ReportError::FieldParse);
            },
        },
        None => {},
    }
    match group(list, 6) {
        Some(text) => match parse_amount(text) {
            Some(amount) => {
                builder.balance(amount);
            },
            None => {
                return Err(ReportError::FieldParse);
            },
        },
        None => {},
    }
    match builder.build() {
        Ok(data) => Ok(Some(data)),
        Err(_) => Err(ReportError::IncompleteRecord),
    }
}

/// What `regex` makes of `line`: no record where the line does not match,
/// the record of its capture groups where it does.
pub open spec fn record_in_line(regex: Regex, line: Seq<char>) -> Result<Option<Data>, ReportError> {
    record_of_groups(captured_groups(regex, line))
}

/// Reads one line of a statement with the extraction pattern `regex`.
/// A line that does not fit the pattern holds no record, which is no
/// error: statements have headers and footers.
pub fn regex_match(regex: &Regex, line: &str) -> (r: Result<Option<Data>, ReportError>)
    ensures
        r == record_in_line(*regex, line@),
{
    let groups = capture_groups(regex, line);
    record_from_groups(&groups)
}

/// The lines as sequences of characters.
pub open spec fn lines_view(lines: Seq<String>) -> Seq<Seq<char>> {
    lines.map_values(|l: String| l@)
}

/// The records that `lines` hold, in the order of the lines. The first
/// line that is distrusted fails the whole batch.
pub open spec fn extracted(regex: Regex, lines: Seq<Seq<char>>) -> Result<Seq<Data>, ReportError>
    decreases lines.len(),
{
    if lines.len() == 0 {
        Ok(Seq::<Data>::empty())
    } else {
        match extracted(regex, lines.drop_last()) {
            Err(e) => Err(e),
            Ok(table) => match record_in_line(regex, lines.last()) {
                Err(e) => Err(e),
                Ok(None) => Ok(table),
                Ok(Some(data)) => Ok(table.push(data)),
            },
        }
    }
}

/// Reads every line of a statement with the extraction pattern `regex`
/// and collects the records, skipping the lines that do not fit.
pub fn extract_with(regex: &Regex, lines: &Vec<String>) -> (r: Result<Vec<Data>, ReportError>)
    ensures
        match r {
            Ok(table) => extracted(*regex, lines_view(lines@)) == Ok::<Seq<Data>, ReportError>(
                table@,
            ),
            Err(e) => extracted(*regex, lines_view(lines@)) == Err::<Seq<Data>, ReportError>(e),
        },
        r is Ok ==> r->Ok_0@.len() <= lines@.len(),
{
    let mut table: Vec<Data> = Vec::new();
    let mut i: usize = 0;
    let ghost all = lines_view(lines@);
    while i < lines.len()
        invariant
            i <= lines.len(),
            all == lines_view(lines@),
            table.len() <= i,
            extracted(*regex, all.take(i as int)) == Ok::<Seq<Data>, ReportError>(table@),
        decreases lines.len() - i,
    {
        proof {
            assert(all.take(i + 1).drop_last() =~= all.take(i as int));
            assert(all.take(i + 1).last() == lines@[i as int]@);
        }
        match regex_match(regex, lines[i].as_str()) {
            Ok(Some(data)) => {
                table.push(data);
            },
            Ok(None) => {},
            Err(e) => {
                proof {
                    lemma_failure_stays(*regex, all, i + 1);
                }
                return Err(e);
            },
        }
        i = i + 1;
    }
    proof {
        assert(all.take(lines.len() as int) =~= all);
    }
    Ok(table)
}

/// Once the first `upto` lines have failed, the whole batch fails in the
/// same way.
proof fn lemma_failure_stays(regex: Regex, lines: Seq<Seq<char>>, upto: int)
    requires
        0 <= upto <= lines.len(),
        extracted(regex, lines.take(upto)) is Err,
    ensures
        extracted(regex, lines) == extracted(regex, lines.take(upto)),
    decreases lines.len() - upto,
{
    if upto < lines.len() {
        assert(lines.take(upto + 1).drop_last() =~= lines.take(upto));
        lemma_failure_stays(regex, lines, upto + 1);
    } else {
        assert(lines.take(upto) =~= lines);
    }
}

/// What reading `lines` with the extraction pattern `pattern` gives: the
/// records they hold, or a failure where the pattern is no valid
/// expression or a line is distrusted.
pub open spec fn extracted_lines(pattern: Seq<char>, lines: Seq<Seq<char>>) -> Result<
    Seq<Data>,
    ReportError,
> {
    match compiled(pattern) {
        Some(regex) => extracted(regex, lines),
        None => Err(ReportError::Pattern),
    }
}

/// Reads the lines of a statement with the extraction pattern `pattern`
/// and collects the records that they hold.
pub fn extract_lines(pattern: &str, lines: &Vec<String>) -> (r: Result<Vec<Data>, ReportError>)
    ensures
        match r {
            Ok(table) => extracted_lines(pattern@, lines_view(lines@)) == Ok::<
                Seq<Data>,
                ReportError,
            >(table@),
            Err(e) => extracted_lines(pattern@, lines_view(lines@)) == Err::<
                Seq<Data>,
                ReportError,
            >(e),
        },
        r is Ok ==> r->Ok_0@.len() <= lines@.len(),
{
    match compile(pattern) {
        Ok(regex) => extract_with(&regex, lines),
        Err(_) => Err(ReportError::Pattern),
    }
}

/// What `extract_tables` makes of the lines of a statement.
pub open spec fn extracted_tables(lines: Seq<Seq<char>>) -> Result<Seq<Data>, ReportError> {
    extracted_lines(pipe_pattern_text(), lines)
}

/// Reads the lines of a pipe-delimited statement and collects the records
/// that they hold.
pub fn extract_tables(lines: &Vec<String>) -> (r: Result<Vec<Data>, ReportError>)
    ensures
        match r {
            Ok(table) => extracted_tables(lines_view(lines@)) == Ok::<Seq<Data>, ReportError>(
                table@,
            ),
            Err(e) => extracted_tables(lines_view(lines@)) == Err::<Seq<Data>, ReportError>(e),
        },
        r is Ok ==> r->Ok_0@.len() <= lines@.len(),
{
    extract_lines(pipe_pattern(), lines)
}

} // verus!
