//! Sheet names and formula texts. Every name that one sheet uses for
//! another is made here, so a sheet's own name and the formulas that refer
//! to it cannot drift apart.

use crate::cell::{cell_name, cell_name_text};
use crate::text::{decimal_digits, decimal_string, is_digit, lemma_decimal_digits};
use vstd::prelude::*;

verus! {

/// The half-year that a report covers.
#[derive(Debug, Clone, Copy, PartialEq, Eq, Structural)]
pub struct ReportPeriod {
    pub year: u16,
    /// 1 for months 1 to 6, 2 for months 6 to 12.
    pub half: u8,
}

/// The first and last month of a half-year: 1 to 6 for the first half, 6 to
/// 12 for the second.
pub open spec fn half_months(half: u8) -> (u8, u8)
    recommends
        half == 1 || half == 2,
{
    if half == 1 {
        (1u8, 6u8)
    } else {
        (6u8, 12u8)
    }
}

/// The half-year that starts with `month`, if one does.
pub open spec fn half_of_month(month: u8) -> Option<u8> {
    if month == 1 {
        Some(1u8)
    } else if month == 6 {
        Some(2u8)
    } else {
        None
    }
}

/// The name of the sheet that holds the transactions of `month`.
pub open spec fn month_sheet_name(month: nat) -> Seq<char> {
    decimal_digits(month) + "월 정산서"@
}

/// How report titles and sheet names call the half-year.
pub open spec fn period_label(period: ReportPeriod) -> Seq<char> {
    decimal_digits(period.year as nat) + "년도 제"@ + decimal_digits(period.half as nat) + "회기"@
}

/// The name of the budget sheet.
pub open spec fn budget_sheet_name(period: ReportPeriod) -> Seq<char> {
    period_label(period) + " 예산안"@
}

/// The name of the reconciliation sheet.
pub open spec fn account_sheet_name(period: ReportPeriod) -> Seq<char> {
    period_label(period) + " 정산서"@
}

/// The title of the whole report.
pub open spec fn report_title(year: u16) -> Seq<char> {
    decimal_digits(year as nat) + " 중앙감사위원회_재정감사"@
}

/// A formula that shows what `cell` of the same sheet holds.
pub open spec fn reference(cell: Seq<char>) -> Seq<char> {
    "="@ + cell
}

/// A formula that shows what `cell` of the sheet named `sheet` holds.
pub open spec fn sheet_reference(sheet: Seq<char>, cell: Seq<char>) -> Seq<char> {
    "='"@ + sheet + "'!"@ + cell
}

/// A formula that adds up the cells of column `col` from row `first` to row
/// `last`.
pub open spec fn sum_formula(first: nat, last: nat, col: nat) -> Seq<char> {
    "=SUM("@ + cell_name_text(first, col) + ":"@ + cell_name_text(last, col) + ")"@
}

/// A formula for `base + plus - minus`, each the name of a cell.
pub open spec fn running_formula(base: Seq<char>, plus: Seq<char>, minus: Seq<char>) -> Seq<char> {
    "="@ + base + "+"@ + plus + "-"@ + minus
}

/// One term of a sum over the period sheets: the amounts of `month` whose
/// business name is `category`.
pub open spec fn sumif_term(month: nat, category: Seq<char>) -> Seq<char> {
    "SUMIF('"@ + month_sheet_name(month) + "'!C:C, \""@ + category + "\", '"@ + month_sheet_name(
        month,
    ) + "'!D:D)"@
}

/// The terms of the months `first` to `last`, joined by ` + `.
pub open spec fn sumif_terms(first: nat, last: nat, category: Seq<char>) -> Seq<char>
    recommends
        first <= last,
    decreases last,
{
    if last <= first {
        sumif_term(first, category)
    } else {
        sumif_terms(first, (last - 1) as nat, category) + " + "@ + sumif_term(last, category)
    }
}

/// A formula that adds up, over the period sheets of the months `first` to
/// `last`, the amounts whose business name is `category`.
pub open spec fn aggregate_formula(first: nat, last: nat, category: Seq<char>) -> Seq<char> {
    "="@ + sumif_terms(first, last, category)
}

/// The name of a month's sheet never holds the quote that encloses sheet
/// names in formulas, so a reference to the sheet always reads as one.
pub proof fn lemma_month_sheet_name_unquoted(month: nat)
    ensures
        forall|i: int|
            0 <= i < month_sheet_name(month).len() ==> (#[trigger] month_sheet_name(month)[i])
                != '\'',
{
    lemma_decimal_digits(month);
    reveal_strlit("월 정산서");
    let digits = decimal_digits(month);
    let name = month_sheet_name(month);
    assert forall|i: int| 0 <= i < name.len() implies (#[trigger] name[i]) != '\'' by {
        if i < digits.len() {
            assert(is_digit(digits[i]));
        } else {
            assert(name[i] == "월 정산서"@[i - digits.len()]);
        }
    }
}

/// Neither do the names of the budget and the reconciliation sheet.
pub proof fn lemma_summary_sheet_names_unquoted(period: ReportPeriod)
    ensures
        forall|i: int|
            0 <= i < budget_sheet_name(period).len() ==> (#[trigger] budget_sheet_name(period)[i])
                != '\'',
        forall|i: int|
            0 <= i < account_sheet_name(period).len() ==> (#[trigger] account_sheet_name(
                period,
            )[i]) != '\'',
{
    lemma_decimal_digits(period.year as nat);
    lemma_decimal_digits(period.half as nat);
    reveal_strlit("년도 제");
    reveal_strlit("회기");
    reveal_strlit(" 예산안");
    reveal_strlit(" 정산서");
    let year = decimal_digits(period.year as nat);
    let half = decimal_digits(period.half as nat);
    let label = period_label(period);
    assert forall|i: int| 0 <= i < label.len() implies (#[trigger] label[i]) != '\'' by {
        if i < year.len() {
            assert(is_digit(year[i]));
        } else if i < year.len() + 4 {
            assert(label[i] == "년도 제"@[i - year.len()]);
        } else if i < year.len() + 4 + half.len() {
            assert(is_digit(half[i - year.len() - 4]));
        } else {
            assert(label[i] == "회기"@[i - year.len() - 4 - half.len()]);
        }
    }
    let budget = budget_sheet_name(period);
    assert forall|i: int| 0 <= i < budget.len() implies (#[trigger] budget[i]) != '\'' by {
        if i < label.len() {
            assert(budget[i] == label[i]);
        } else {
            assert(budget[i] == " 예산안"@[i - label.len()]);
        }
    }
    let account = account_sheet_name(period);
    assert forall|i: int| 0 <= i < account.len() implies (#[trigger] account[i]) != '\'' by {
        if i < label.len() {
            assert(account[i] == label[i]);
        } else {
            assert(account[i] == " 정산서"@[i - label.len()]);
        }
    }
}

impl ReportPeriod {
    /// Whether the half is the first or the second.
    pub open spec fn wf(self) -> bool {
        self.half == 1 || self.half == 2
    }

    /// The half-year of `year` that starts with `month`: the first half
    /// from month 1, the second from month 6, none from any other month.
    pub fn starting(year: u16, month: u8) -> (r: Option<ReportPeriod>)
        ensures
            match half_of_month(month) {
                Some(half) => r == Some(ReportPeriod { year, half }),
                None => r is None,
            },
            r is Some ==> r->0.wf(),
    {
        if month == 1 {
            Some(ReportPeriod { year, half: 1 })
        } else if month == 6 {
            Some(ReportPeriod { year, half: 2 })
        } else {
            None
        }
    }

    /// The first and last month of the half-year.
    pub fn months(&self) -> (r: (u8, u8))
        requires
            self.wf(),
        ensures
            r == half_months(self.half),
    {
        if self.half == 1 {
            (1, 6)
        } else {
            (6, 12)
        }
    }

    /// How report titles and sheet names call the half-year.
    pub fn label(&self) -> (r: String)
        ensures
            r@ == period_label(*self),
    {
        let mut r = decimal_string(self.year as u64);
        r.append("년도 제");
        r.append(decimal_string(self.half as u64).as_str());
        r.append("회기");
        r
    }

    /// The name of the budget sheet.
    pub fn budget_sheet(&self) -> (r: String)
        ensures
            r@ == budget_sheet_name(*self),
    {
        let mut r = self.label();
        r.append(" 예산안");
        r
    }

    /// The name of the reconciliation sheet.
    pub fn account_sheet(&self) -> (r: String)
        ensures
            r@ == account_sheet_name(*self),
    {
        let mut r = self.label();
        r.append(" 정산서");
        r
    }

    /// The title of the whole report.
    pub fn title(&self) -> (r: String)
        ensures
            r@ == report_title(self.year),
    {
        let mut r = decimal_string(self.year as u64);
        r.append(" 중앙감사위원회_재정감사");
        r
    }
}

/// The name of the sheet that holds the transactions of `month`.
pub fn sheet_name_of(month: u8) -> (r: String)
    ensures
        r@ == month_sheet_name(month as nat),
{
    let mut r = decimal_string(month as u64);
    r.append("월 정산서");
    r
}

/// A formula that shows what the cell `cell` of the same sheet holds.
pub fn refer_to(cell: &str) -> (r: String)
    ensures
        r@ == reference(cell@),
{
    let mut r = String::from_str("=");
    r.append(cell);
    r
}

/// A formula that shows what `cell` of the sheet named `sheet` holds.
pub fn refer_to_sheet(sheet: &str, cell: &str) -> (r: String)
    ensures
        r@ == sheet_reference(sheet@, cell@),
{
    let mut r = String::from_str("='");
    r.append(sheet);
    r.append("'!");
    r.append(cell);
    r
}

/// A formula that adds up column `col` from row `first` to row `last`.
pub fn sum_of(first: u32, last: u32, col: u32) -> (r: String)
    ensures
        r@ == sum_formula(first as nat, last as nat, col as nat),
{
    let mut r = String::from_str("=SUM(");
    r.append(cell_name(first, col).as_str());
    r.append(":");
    r.append(cell_name(last, col).as_str());
    r.append(")");
    r
}

/// A formula for `base + plus - minus`, each the name of a cell.
pub fn running(base: &str, plus: &str, minus: &str) -> (r: String)
    ensures
        r@ == running_formula(base@, plus@, minus@),
{
    let mut r = String::from_str("=");
    r.append(base);
    r.append("+");
    r.append(plus);
    r.append("-");
    r.append(minus);
    r
}

/// A formula that adds up, over the period sheets of the months `first` to
/// `last`, the amounts whose business name is `category`.
pub fn aggregate(first: u8, last: u8, category: &str) -> (r: String)
    requires
        first <= last,
    ensures
        r@ == aggregate_formula(first as nat, last as nat, category@),
{
    let mut terms = String::new();
    let mut month: u8 = first;
    loop
        invariant_except_break
            first <= month <= last,
            month == first ==> terms@ == Seq::<char>::empty(),
            month > first ==> terms@ == sumif_terms(
                first as nat,
                (month - 1) as nat,
                category@,
            ),
        ensures
            terms@ == sumif_terms(first as nat, last as nat, category@),
        decreases last - month,
    {
        if month > first {
            terms.append(" + ");
        }
        let name = sheet_name_of(month);
        terms.append("SUMIF('");
        terms.append(name.as_str());
        terms.append("'!C:C, \"");
        terms.append(category);
        terms.append("\", '");
        terms.append(name.as_str());
        terms.append("'!D:D)");
        proof {
            let term = sumif_term(month as nat, category@);
            if month > first {
                assert(terms@ =~= sumif_terms(first as nat, (month - 1) as nat, category@)
                    + " + "@ + term);
            } else {
                assert(terms@ =~= term);
            }
        }
        if month == last {
            break ;
        }
        month = month + 1;
    }
    let mut r = String::from_str("=");
    r.append(terms.as_str());
    r
}

} // verus!
