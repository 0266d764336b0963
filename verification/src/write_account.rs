//! The reconciliation sheet: one row per month of the half-year, each
//! showing the month's income, expenses and carried-over balance by
//! reference to the month's own sheet, and a row of totals.

use crate::cell::{cell_name, cell_name_text};
use crate::format::{caption_style, summary_style, Border, Style, StyleTag};
use crate::formula::{
    budget_sheet_name, half_months, month_sheet_name, period_label, refer_to, refer_to_sheet,
    reference, sheet_name_of, sheet_reference, sum_formula, sum_of, ReportPeriod,
};
use crate::sheet::{column_width, formula_at, merged, row_height, text_at, Op, Sheet};
use crate::text::{decimal_digits, decimal_string};
use crate::write_budget::{banner, entry_style, write_banner};
use vstd::prelude::*;

verus! {

/// The first line of the reconciliation sheet's banner.
pub open spec fn account_heading(period: ReportPeriod) -> Seq<char> {
    period_label(period) + " 재정감사 정산서\n"@
}

/// The style of the captions above the month rows.
pub open spec fn month_caption() -> Style {
    Style::caption().with_border(Border::Thin).with_border_top(Border::Medium).with_border_bottom(
        Border::Medium,
    )
}

/// Column widths, the banner, the note under it and the captions of the
/// month table.
pub open spec fn account_head(period: ReportPeriod) -> Seq<Op> {
    seq![
        column_width(0, 164),
        column_width(1, 1064),
        column_width(2, 1436),
        column_width(3, 1436),
        column_width(4, 1564),
        column_width(5, 1564),
        column_width(6, 4645),
        column_width(7, 4391),
        row_height(0, 990),
    ] + banner(account_heading(period)) + seq![
        row_height(1, 225),
        merged(
            1,
            1,
            1,
            7,
            "주황색 칸의 학생회명 및 월별 영수증 번호만 적어주세요."@,
            Style::summary(StyleTag::PlainText).with_bold().with_border(Border::Medium),
        ),
        row_height(2, 263),
        text_at(2, 1, "월"@, month_caption()),
        text_at(2, 2, "수입"@, month_caption()),
        text_at(2, 3, "지출"@, month_caption()),
        text_at(2, 4, "이월금"@, month_caption()),
        text_at(2, 5, "총잔액"@, month_caption()),
        text_at(2, 6, "영수증 번호"@, month_caption()),
        text_at(2, 7, "비고"@, month_caption()),
        text_at(2, 0, ""@, Style::frame_left()),
        text_at(2, 8, ""@, Style::frame_right()),
    ]
}

fn write_account_head(worksheet: &mut Sheet, period: &ReportPeriod)
    ensures
        final(worksheet)@ == old(worksheet)@.with_all(account_head(*period)),
{
    worksheet.set_column_width(0, 164);
    worksheet.set_column_width(1, 1064);
    worksheet.set_column_width(2, 1436);
    worksheet.set_column_width(3, 1436);
    worksheet.set_column_width(4, 1564);
    worksheet.set_column_width(5, 1564);
    worksheet.set_column_width(6, 4645);
    worksheet.set_column_width(7, 4391);
    worksheet.set_row_height(0, 990);
    let mut heading = period.label();
    heading.append(" 재정감사 정산서\n");
    write_banner(worksheet, heading);
    worksheet.set_row_height(1, 225);
    worksheet.merge_range(
        1,
        1,
        1,
        7,
        "주황색 칸의 학생회명 및 월별 영수증 번호만 적어주세요.",
        summary_style(StyleTag::PlainText).set_bold().set_border(Border::Medium),
    );
    worksheet.set_row_height(2, 263);
    let caption = caption_style().set_border(Border::Thin).set_border_top(
        Border::Medium,
    ).set_border_bottom(Border::Medium);
    worksheet.write_text(2, 1, "월", caption);
    worksheet.write_text(2, 2, "수입", caption);
    worksheet.write_text(2, 3, "지출", caption);
    worksheet.write_text(2, 4, "이월금", caption);
    worksheet.write_text(2, 5, "총잔액", caption);
    worksheet.write_text(2, 6, "영수증 번호", caption);
    worksheet.write_text(2, 7, "비고", caption);
    worksheet.write_text(2, 0, "", Style::new().set_border_right(Border::Medium));
    worksheet.write_text(2, 8, "", Style::new().set_border_left(Border::Medium));
    assert(worksheet@.ops =~= old(worksheet)@.ops + account_head(*period));
}

/// The style of the cells that the reconciliation sheet computes.
pub open spec fn computed_style() -> Style {
    Style::summary(StyleTag::GrayFormula).with_border(Border::Thin)
}

/// The opening row: the balance that the previous term handed over, taken
/// from the budget sheet, which is also the balance before the first month.
pub open spec fn account_opening(period: ReportPeriod) -> Seq<Op> {
    seq![
        row_height(3, 278),
        text_at(
            3,
            1,
            ""@,
            Style::summary(StyleTag::GrayText).with_border(Border::Thin).with_border_left(
                Border::Medium,
            ).with_border_top(Border::Medium),
        ),
        text_at(
            3,
            2,
            ""@,
            Style::summary(StyleTag::GrayText).with_border(Border::Thin).with_border_top(
                Border::Medium,
            ).with_border_right(Border::NoLine),
        ),
        text_at(
            3,
            3,
            ""@,
            Style::summary(StyleTag::GrayText).with_border(Border::Thin).with_border_left(
                Border::NoLine,
            ).with_border_top(Border::Medium),
        ),
        formula_at(
            3,
            4,
            sheet_reference(budget_sheet_name(period), cell_name_text(6, 1)),
            computed_style().with_border_top(Border::Medium),
        ),
        formula_at(
            3,
            5,
            reference(cell_name_text(3, 4)),
            computed_style().with_border_top(Border::Medium),
        ),
        text_at(3, 6, ""@, entry_style().with_border_top(Border::Medium)),
        text_at(
            3,
            7,
            ""@,
            entry_style().with_border_top(Border::Medium).with_border_right(Border::Medium),
        ),
    ]
}

fn write_account_opening(worksheet: &mut Sheet, period: &ReportPeriod)
    ensures
        final(worksheet)@ == old(worksheet)@.with_all(account_opening(*period)),
{
    let gray = summary_style(StyleTag::GrayText).set_border(Border::Thin);
    let computed = summary_style(StyleTag::GrayFormula).set_border(Border::Thin).set_border_top(
        Border::Medium,
    );
    let entry = summary_style(StyleTag::PlainText).set_border(Border::Thin).set_border_top(
        Border::Medium,
    );
    worksheet.set_row_height(3, 278);
    worksheet.write_text(
        3,
        1,
        "",
        gray.set_border_left(Border::Medium).set_border_top(Border::Medium),
    );
    worksheet.write_text(
        3,
        2,
        "",
        gray.set_border_top(Border::Medium).set_border_right(Border::NoLine),
    );
    worksheet.write_text(
        3,
        3,
        "",
        gray.set_border_left(Border::NoLine).set_border_top(Border::Medium),
    );
    worksheet.write_formula(
        3,
        4,
        refer_to_sheet(period.budget_sheet().as_str(), cell_name(6, 1).as_str()),
        computed,
    );
    worksheet.write_formula(3, 5, refer_to(cell_name(3, 4).as_str()), computed);
    worksheet.write_text(3, 6, "", entry);
    worksheet.write_text(3, 7, "", entry.set_border_right(Border::Medium));
    assert(worksheet@.ops =~= old(worksheet)@.ops + account_opening(*period));
}

/// A formula for the balance at the end of the month in `row`: what was
/// carried over, plus the income, minus the expenses of that row.
pub open spec fn month_balance_formula(row: nat) -> Seq<char> {
    "=SUM("@ + cell_name_text(row, 4) + "+"@ + cell_name_text(row, 2) + "-"@ + cell_name_text(
        row,
        3,
    ) + ")"@
}

/// The row of `month`, written at `row`: income and expenses by reference
/// to the month's own sheet, the balance carried over from the row above,
/// and the balance at the end of the month.
pub open spec fn account_month(month: nat, row: int) -> Seq<Op> {
    seq![
        row_height(row, 278),
        text_at(
            row,
            1,
            decimal_digits(month) + "월"@,
            Style::summary(StyleTag::GrayText).with_border(Border::Thin).with_border_left(
                Border::Medium,
            ),
        ),
        formula_at(
            row,
            2,
            sheet_reference(month_sheet_name(month), cell_name_text(1, 3)),
            computed_style(),
        ),
        formula_at(
            row,
            3,
            sheet_reference(month_sheet_name(month), cell_name_text(2, 3)),
            computed_style(),
        ),
        formula_at(row, 4, reference(cell_name_text((row - 1) as nat, 5)), computed_style()),
        formula_at(row, 5, month_balance_formula(row as nat), computed_style()),
        text_at(row, 6, ""@, entry_style()),
        text_at(row, 7, ""@, entry_style()),
        text_at(row, 8, ""@, Style::frame_right()),
    ]
}

/// The rows of the first `count` months from `first` on, the first of them
/// written at row 4.
pub open spec fn account_months(first: nat, count: nat) -> Seq<Op>
    decreases count,
{
    if count == 0 {
        Seq::<Op>::empty()
    } else {
        account_months(first, (count - 1) as nat) + account_month(
            (first + count - 1) as nat,
            3 + count as int,
        )
    }
}

fn write_account_month(worksheet: &mut Sheet, month: u8, row: u32)
    requires
        row >= 1,
    ensures
        final(worksheet)@ == old(worksheet)@.with_all(account_month(month as nat, row as int)),
{
    let computed = summary_style(StyleTag::GrayFormula).set_border(Border::Thin);
    let entry = summary_style(StyleTag::PlainText).set_border(Border::Thin);
    let sheet = sheet_name_of(month);
    worksheet.set_row_height(row, 278);
    let mut label = decimal_string(month as u64);
    label.append("월");
    worksheet.write_text(
        row,
        1,
        label.as_str(),
        summary_style(StyleTag::GrayText).set_border(Border::Thin).set_border_left(
            Border::Medium,
        ),
    );
    worksheet.write_formula(
        row,
        2,
        refer_to_sheet(sheet.as_str(), cell_name(1, 3).as_str()),
        computed,
    );
    worksheet.write_formula(
        row,
        3,
        refer_to_sheet(sheet.as_str(), cell_name(2, 3).as_str()),
        computed,
    );
    worksheet.write_formula(row, 4, refer_to(cell_name(row - 1, 5).as_str()), computed);
    let mut balance = String::from_str("=SUM(");
    balance.append(cell_name(row, 4).as_str());
    balance.append("+");
    balance.append(cell_name(row, 2).as_str());
    balance.append("-");
    balance.append(cell_name(row, 3).as_str());
    balance.append(")");
    worksheet.write_formula(row, 5, balance, computed);
    worksheet.write_text(row, 6, "", entry);
    worksheet.write_text(row, 7, "", entry);
    worksheet.write_text(row, 8, "", Style::new().set_border_left(Border::Medium));
    assert(worksheet@.ops =~= old(worksheet)@.ops + account_month(month as nat, row as int));
}

/// The style of the cells of the totals row.
pub open spec fn total_style(tag: StyleTag) -> Style {
    Style::summary(tag).with_border(Border::Medium).with_border_left(
        Border::Thin,
    ).with_border_right(Border::Thin)
}

/// The totals row at `row`: income and expenses summed from the opening
/// row down, and the balance at the end of the last month.
pub open spec fn account_total(row: int) -> Seq<Op> {
    seq![
        row_height(row, 270),
        text_at(
            row,
            1,
            "계"@,
            Style::summary(StyleTag::GrayText).with_border(Border::Medium).with_border_right(
                Border::Thin,
            ),
        ),
        formula_at(
            row,
            2,
            sum_formula(3, (row - 1) as nat, 2),
            total_style(StyleTag::GrayFormula),
        ),
        formula_at(
            row,
            3,
            sum_formula(3, (row - 1) as nat, 3),
            total_style(StyleTag::GrayFormula),
        ),
        text_at(row, 4, "-"@, total_style(StyleTag::GrayText)),
        formula_at(
            row,
            5,
            reference(cell_name_text((row - 1) as nat, 5)),
            total_style(StyleTag::GrayFormula),
        ),
        text_at(row, 6, ""@, total_style(StyleTag::PlainText)),
        text_at(row, 7, ""@, total_style(StyleTag::PlainText)),
        text_at(row, 8, ""@, Style::frame_right()),
    ]
}

fn write_account_total(worksheet: &mut Sheet, row: u32)
    requires
        row >= 1,
    ensures
        final(worksheet)@ == old(worksheet)@.with_all(account_total(row as int)),
{
    let computed = summary_style(StyleTag::GrayFormula).set_border(
        Border::Medium,
    ).set_border_left(Border::Thin).set_border_right(Border::Thin);
    let entry = summary_style(StyleTag::PlainText).set_border(Border::Medium).set_border_left(
        Border::Thin,
    ).set_border_right(Border::Thin);
    worksheet.set_row_height(row, 270);
    worksheet.write_text(
        row,
        1,
        "계",
        summary_style(StyleTag::GrayText).set_border(Border::Medium).set_border_right(
            Border::Thin,
        ),
    );
    worksheet.write_formula(row, 2, sum_of(3, row - 1, 2), computed);
    worksheet.write_formula(row, 3, sum_of(3, row - 1, 3), computed);
    worksheet.write_text(
        row,
        4,
        "-",
        summary_style(StyleTag::GrayText).set_border(Border::Medium).set_border_left(
            Border::Thin,
        ).set_border_right(Border::Thin),
    );
    worksheet.write_formula(row, 5, refer_to(cell_name(row - 1, 5).as_str()), computed);
    worksheet.write_text(row, 6, "", entry);
    worksheet.write_text(row, 7, "", entry);
    worksheet.write_text(row, 8, "", Style::new().set_border_left(Border::Medium));
    assert(worksheet@.ops =~= old(worksheet)@.ops + account_total(row as int));
}

/// How many months a half-year's report covers.
pub open spec fn month_count(half: u8) -> nat {
    (half_months(half).1 - half_months(half).0 + 1) as nat
}

/// Everything that `account` writes, in order: the head of the sheet, the
/// opening row, one row for every month of the half-year, and the totals.
pub open spec fn account_ops(period: ReportPeriod) -> Seq<Op> {
    account_head(period) + account_opening(period) + account_months(
        half_months(period.half).0 as nat,
        month_count(period.half),
    ) + account_total(4 + month_count(period.half) as int)
}

/// Lays out the reconciliation sheet of the half-year `period` on
/// `worksheet`.
pub fn account(worksheet: &mut Sheet, period: &ReportPeriod)
    requires
        period.wf(),
    ensures
        final(worksheet)@ == old(worksheet)@.with_all(account_ops(*period)),
{
    write_account_head(worksheet, period);
    write_account_opening(worksheet, period);
    let (first, last) = period.months();
    let ghost head = worksheet@.ops;
    let mut row: u32 = 4;
    let mut month: u8 = first;
    while month <= last
        invariant
            first <= month <= last + 1,
            last <= 12,
            row == 4 + (month - first),
            worksheet@.name == old(worksheet)@.name,
            worksheet@.ops == head + account_months(first as nat, (month - first) as nat),
        decreases last + 1 - month,
    {
        write_account_month(worksheet, month, row);
        proof {
            assert(worksheet@.ops =~= head + account_months(
                first as nat,
                (month - first + 1) as nat,
            ));
        }
        row = row + 1;
        month = month + 1;
    }
    write_account_total(worksheet, row);
    assert(worksheet@.ops =~= old(worksheet)@.ops + account_ops(*period));
}

} // verus!
