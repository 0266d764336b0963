//! The report assembler: from the records of a half-year to the whole
//! workbook, sheet by sheet, each period sheet opening with the balance
//! that the sheet before it closed with.

use crate::cell::cell_name_text;
use crate::error::ReportError;
use crate::format::{Style, StyleTag};
use crate::formula::{
    account_sheet_name, budget_sheet_name, half_of_month, reference, report_title,
    sheet_reference, ReportPeriod,
};
use crate::ledger::{buckets_view, partition, separate_data};
use crate::models::data::Data;
use crate::monthly::{
    carryover_formula, lemma_carryover_chain, period_sheet, period_sheet_model, summary_ops,
    total_amount_style, Carryover, MAX_RECORDS,
};
use crate::parse::{extract_tables, extracted_tables, lines_view};
use crate::sheet::{formula_at, Sheet, SheetModel};
use crate::write_account::{account, account_ops};
use crate::write_budget::{budget, budget_ops};
use vstd::prelude::*;

verus! {

/// A whole report: the budget sheet, the reconciliation sheet, and one
/// period sheet per month of the half-year, in that order.
#[derive(Debug, Clone, PartialEq)]
pub struct ReportDocument {
    pub period: ReportPeriod,
    pub title: String,
    pub sheets: Vec<Sheet>,
}

/// `ReportDocument` with its texts as sequences of characters.
pub struct ReportModel {
    pub period: ReportPeriod,
    pub title: Seq<char>,
    pub sheets: Seq<SheetModel>,
}

impl View for ReportDocument {
    type V = ReportModel;

    open spec fn view(&self) -> ReportModel {
        ReportModel {
            period: self.period,
            title: self.title@,
            sheets: self.sheets@.map_values(|s: Sheet| s@),
        }
    }
}

/// The half-year that the buckets cover: the year of the first bucket's
/// first record, and the half that the first bucket's month starts.
pub open spec fn period_of(buckets: Seq<(u8, Seq<Data>)>) -> Option<ReportPeriod> {
    if buckets.len() == 0 || buckets[0].1.len() == 0 {
        None
    } else {
        match half_of_month(buckets[0].0) {
            Some(half) => Some(ReportPeriod { year: buckets[0].1[0].date.year, half }),
            None => None,
        }
    }
}

/// Where the period sheet of bucket `k` takes its opening balance from: the
/// first from the budget sheet, every other from the sheet before it.
pub open spec fn carryover_of(buckets: Seq<(u8, Seq<Data>)>, k: int, period: ReportPeriod)
    -> Carryover {
    if k == 0 {
        Carryover::Budget(period)
    } else {
        Carryover::Previous { month: buckets[k - 1].0, records: buckets[k - 1].1.len() as u32 }
    }
}

/// The budget sheet of `period`.
pub open spec fn budget_sheet_model(period: ReportPeriod) -> SheetModel {
    SheetModel { name: budget_sheet_name(period), ops: budget_ops(period) }
}

/// The reconciliation sheet of `period`.
pub open spec fn account_sheet_model(period: ReportPeriod) -> SheetModel {
    SheetModel { name: account_sheet_name(period), ops: account_ops(period) }
}

/// The period sheets of the first `count` buckets.
pub open spec fn period_sheets(buckets: Seq<(u8, Seq<Data>)>, period: ReportPeriod, count: int)
    -> Seq<SheetModel> {
    Seq::new(
        count as nat,
        |k: int| period_sheet_model(buckets[k].0, buckets[k].1, carryover_of(buckets, k, period)),
    )
}

/// The report of the half-year `period` with the given buckets.
pub open spec fn report_of(buckets: Seq<(u8, Seq<Data>)>, period: ReportPeriod) -> ReportModel {
    ReportModel {
        period,
        title: report_title(period.year),
        sheets: seq![budget_sheet_model(period), account_sheet_model(period)] + period_sheets(
            buckets,
            period,
            buckets.len() as int,
        ),
    }
}

/// What assembling makes of the buckets: their report, or no report where
/// they do not say which half-year they cover.
pub open spec fn assembled(buckets: Seq<(u8, Seq<Data>)>) -> Result<ReportModel, ReportError> {
    match period_of(buckets) {
        Some(period) => Ok(report_of(buckets, period)),
        None => Err(ReportError::PeriodBoundary),
    }
}

/// Whether every bucket fits on a sheet.
pub open spec fn buckets_fit(buckets: Seq<(u8, Seq<Data>)>) -> bool {
    forall|k: int| 0 <= k < buckets.len() ==> (#[trigger] buckets[k]).1.len() <= MAX_RECORDS
}

/// Assembles the report of the given buckets: first the budget and the
/// reconciliation sheet, then the period sheets in the order of the
/// buckets, each wired to the one before it.
pub fn assemble(buckets: &Vec<(u8, Vec<Data>)>) -> (r: Result<ReportDocument, ReportError>)
    requires
        buckets_fit(buckets_view(buckets@)),
    ensures
        match r {
            Ok(document) => assembled(buckets_view(buckets@)) == Ok::<ReportModel, ReportError>(
                document@,
            ),
            Err(e) => assembled(buckets_view(buckets@)) == Err::<ReportModel, ReportError>(e),
        },
{
    let ghost model = buckets_view(buckets@);
    if buckets.len() == 0 || buckets[0].1.len() == 0 {
        return Err(ReportError::PeriodBoundary);
    }
    let period = match ReportPeriod::starting(buckets[0].1[0].date.year, buckets[0].0) {
        Some(period) => period,
        None => {
            return Err(ReportError::PeriodBoundary);
        },
    };
    let mut sheets: Vec<Sheet> = Vec::new();
    let mut budget_sheet = Sheet::new();
    budget_sheet.set_name(period.budget_sheet().as_str());
    budget(&mut budget_sheet, &period);
    assert(budget_sheet@.ops =~= budget_ops(period));
    sheets.push(budget_sheet);
    let mut account_sheet = Sheet::new();
    account_sheet.set_name(period.account_sheet().as_str());
    account(&mut account_sheet, &period);
    assert(account_sheet@.ops =~= account_ops(period));
    sheets.push(account_sheet);
    let ghost head = seq![budget_sheet_model(period), account_sheet_model(period)];
    assert(sheets@.map_values(|s: Sheet| s@) =~= head);
    let mut k: usize = 0;
    let mut carryover = Carryover::Budget(period);
    while k < buckets.len()
        invariant
            k <= buckets.len(),
            model == buckets_view(buckets@),
            buckets_fit(model),
            carryover == carryover_of(model, k as int, period),
            sheets@.map_values(|s: Sheet| s@) == head + period_sheets(model, period, k as int),
        decreases buckets.len() - k,
    {
        assert(model[k as int].1.len() <= MAX_RECORDS);
        if k > 0 {
            assert(model[k - 1].1.len() <= MAX_RECORDS);
        }
        let sheet = period_sheet(buckets[k].0, &buckets[k].1, &carryover);
        let ghost before = sheets@.map_values(|s: Sheet| s@);
        let ghost added = sheet@;
        sheets.push(sheet);
        carryover = Carryover::Previous { month: buckets[k].0, records: buckets[k].1.len() as u32 };
        proof {
            assert(model[k as int] == (buckets@[k as int].0, buckets@[k as int].1@));
            assert(added == period_sheets(model, period, k + 1)[k as int]);
            assert(sheets@.map_values(|s: Sheet| s@) =~= before.push(added));
            assert forall|j: int| 0 <= j < k implies period_sheets(model, period, k + 1)[j]
                == period_sheets(model, period, k as int)[j] by {}
            assert(before.push(added) =~= head + period_sheets(model, period, k + 1));
            assert(sheets@.map_values(|s: Sheet| s@) =~= head + period_sheets(
                model,
                period,
                k + 1,
            ));
        }
        k = k + 1;
    }
    let document = ReportDocument { period, title: period.title(), sheets };
    Ok(document)
}

/// In a report, every opening balance resolves: the period sheet of bucket
/// `k` takes it from a sheet that is in the report. For the first bucket
/// that is the budget sheet, the report's first sheet. For every other
/// bucket it is the period sheet just before its own, and the cell it
/// names there is the one that shows that sheet's closing balance.
pub proof fn lemma_opening_balances_resolve(
    buckets: Seq<(u8, Seq<Data>)>,
    period: ReportPeriod,
    k: int,
)
    requires
        0 <= k < buckets.len(),
        buckets_fit(buckets),
    ensures
        ({
            let sheets = report_of(buckets, period).sheets;
            let opening = carryover_formula(carryover_of(buckets, k, period));
            &&& sheets.len() == 2 + buckets.len()
            &&& sheets[2 + k].ops.contains(
                formula_at(3, 3, opening, Style::preset(StyleTag::GrayFormula)),
            )
            &&& k == 0 ==> opening == sheet_reference(sheets[0].name, cell_name_text(6, 1))
            &&& k > 0 ==> {
                let closing = 7 + buckets[k - 1].1.len();
                &&& opening == sheet_reference(sheets[1 + k].name, cell_name_text(closing, 5))
                &&& sheets[1 + k].ops.contains(
                    formula_at(
                        closing as int,
                        5,
                        reference(cell_name_text((closing - 1) as nat, 5)),
                        total_amount_style(),
                    ),
                )
            }
        }),
{
    let sheets = report_of(buckets, period).sheets;
    let own = period_sheet_model(buckets[k].0, buckets[k].1, carryover_of(buckets, k, period));
    assert(sheets[2 + k] == own);
    let summary = summary_ops(buckets[k].1.len(), carryover_of(buckets, k, period));
    assert(own.ops[own.ops.len() - 4 + 2] == summary[2]);
    if k > 0 {
        assert(buckets[k - 1].1.len() <= MAX_RECORDS);
        lemma_carryover_chain(
            buckets[k - 1].0,
            buckets[k - 1].1,
            carryover_of(buckets, k - 1, period),
        );
        assert(sheets[1 + k] == period_sheet_model(
            buckets[k - 1].0,
            buckets[k - 1].1,
            carryover_of(buckets, k - 1, period),
        ));
    }
}

/// What `build_report` makes of a log: the report of its buckets, or why
/// there is none.
pub open spec fn report_of_records(table: Seq<Data>) -> Result<ReportModel, ReportError> {
    match partition(table) {
        Ok(buckets) => assembled(buckets),
        Err(e) => Err(e),
    }
}

/// Makes the report of a half-year's log: partitions the records by month
/// and assembles the sheets.
pub fn build_report(table: Vec<Data>) -> (r: Result<ReportDocument, ReportError>)
    requires
        table.len() <= MAX_RECORDS,
    ensures
        match r {
            Ok(document) => report_of_records(table@) == Ok::<ReportModel, ReportError>(
                document@,
            ),
            Err(e) => report_of_records(table@) == Err::<ReportModel, ReportError>(e),
        },
        r is Err ==> r->Err_0 == ReportError::PeriodBoundary || r->Err_0
            == ReportError::MonthOutOfRange,
{
    match separate_data(table) {
        Ok(buckets) => assemble(&buckets),
        Err(e) => Err(e),
    }
}

/// What `report_from_lines` makes of the lines of a statement: the report
/// of the records that they hold, or why there is none.
pub open spec fn report_of_lines(lines: Seq<Seq<char>>) -> Result<ReportModel, ReportError> {
    match extracted_tables(lines) {
        Ok(table) => report_of_records(table),
        Err(e) => Err(e),
    }
}

/// Makes the report of a pipe-delimited statement: reads the records from
/// its lines, partitions them by month and assembles the sheets. Any
/// failure on the way means that there is no report at all.
pub fn report_from_lines(lines: &Vec<String>) -> (r: Result<ReportDocument, ReportError>)
    requires
        lines.len() <= MAX_RECORDS,
    ensures
        match r {
            Ok(document) => report_of_lines(lines_view(lines@)) == Ok::<ReportModel, ReportError>(
                document@,
            ),
            Err(e) => report_of_lines(lines_view(lines@)) == Err::<ReportModel, ReportError>(e),
        },
{
    match extract_tables(lines) {
        Ok(table) => build_report(table),
        Err(e) => Err(e),
    }
}

} // verus!
