//! Why a report cannot be made.

use vstd::prelude::*;

verus! {

/// The ways in which turning a transaction log into a report fails. Each
/// is fatal to the run: no partial report is ever made.
#[derive(Debug, Clone, Copy, PartialEq, Eq, Structural)]
pub enum ReportError {
    /// The extraction pattern itself is not a valid expression.
    Pattern,
    /// A line fits the pattern, but one of its fields is not the date or
    /// the number that it should be.
    FieldParse,
    /// A record lacks its date, an amount or its balance.
    IncompleteRecord,
    /// There is no first month, or it is neither 1 nor 6, so the log does
    /// not say which half-year it covers.
    PeriodBoundary,
    /// A record's month lies outside the half-year that the log covers.
    MonthOutOfRange,
}

impl ReportError {
    /// A short description of the failure.
    pub fn describe(&self) -> (r: &'static str)
        ensures
            r@ == match *self {
                ReportError::Pattern => "the extraction pattern is not a valid expression"@,
                ReportError::FieldParse => "a matched line holds a field that cannot be read"@,
                ReportError::IncompleteRecord => "a record lacks a required field"@,
                ReportError::PeriodBoundary => "the first month is neither 1 nor 6"@,
                ReportError::MonthOutOfRange => "a record lies outside the half-year"@,
            },
    {
        match self {
            ReportError::Pattern => "the extraction pattern is not a valid expression",
            ReportError::FieldParse => "a matched line holds a field that cannot be read",
            ReportError::IncompleteRecord => "a record lacks a required field",
            ReportError::PeriodBoundary => "the first month is neither 1 nor 6",
            ReportError::MonthOutOfRange => "a record lies outside the half-year",
        }
    }
}

} // verus!
