//! The budget sheet: the half-year's planned income and expenses, with the
//! cells that the period sheets and the reconciliation sheet refer to.

use crate::cell::{cell_name, cell_name_text};
use crate::format::{
    banner_cell_style, banner_ground_style, banner_run_style, caption_style, summary_style, Border,
    BorderColor, Style, StyleTag,
};
use crate::formula::{
    aggregate, aggregate_formula, half_months, period_label, sum_formula, sum_of, ReportPeriod,
};
use crate::models::data::BusinessType;
use crate::text::{decimal_digits, decimal_string};
use crate::sheet::{
    column_width, formula_at, merged, row_height, text_at, LayoutError, Op, RichSegment, Run,
    Sheet,
};
use vstd::prelude::*;

verus! {

/// Row heights and column widths of the budget sheet.
pub open spec fn budget_grid() -> Seq<Op> {
    seq![
        row_height(0, 990),
        row_height(1, 75),
        row_height(2, 225),
        row_height(3, 75),
        row_height(4, 225),
        row_height(5, 225),
        row_height(6, 263),
        row_height(7, 158),
        row_height(8, 263),
        row_height(9, 278),
        column_width(0, 164),
        column_width(1, 1064),
        column_width(2, 1436),
        column_width(3, 2245),
        column_width(4, 1564),
        column_width(5, 1564),
        column_width(6, 3591),
        column_width(7, 4391),
    ]
}

fn write_budget_grid(worksheet: &mut Sheet)
    ensures
        final(worksheet)@ == old(worksheet)@.with_all(budget_grid()),
{
    worksheet.set_row_height(0, 990);
    worksheet.set_row_height(1, 75);
    worksheet.set_row_height(2, 225);
    worksheet.set_row_height(3, 75);
    worksheet.set_row_height(4, 225);
    worksheet.set_row_height(5, 225);
    worksheet.set_row_height(6, 263);
    worksheet.set_row_height(7, 158);
    worksheet.set_row_height(8, 263);
    worksheet.set_row_height(9, 278);
    worksheet.set_column_width(0, 164);
    worksheet.set_column_width(1, 1064);
    worksheet.set_column_width(2, 1436);
    worksheet.set_column_width(3, 2245);
    worksheet.set_column_width(4, 1564);
    worksheet.set_column_width(5, 1564);
    worksheet.set_column_width(6, 3591);
    worksheet.set_column_width(7, 4391);
    assert(worksheet@.ops =~= old(worksheet)@.ops + budget_grid());
}

/// The title banner of a summary sheet, with `heading` as its first line.
pub open spec fn banner(heading: Seq<char>) -> Seq<Op> {
    seq![
        merged(0, 1, 0, 7, ""@, Style::banner_ground()),
        Op::RichText {
            row: 0,
            col: 1,
            segments: seq![
                Run { style: Style::banner_run(30), text: heading },
                Run {
                    style: Style::banner_run(16),
                    text: "(OOOO대학 OOOO학과 제OO대 OOOO학생회)\n"@,
                },
                Run { style: Style::banner_run(16), text: "(출범일 - yyyy.mm.dd~yyyy.mm.dd)"@ },
            ],
            style: Style::banner_cell(),
        },
    ]
}

/// Writes the title banner of a summary sheet.
pub fn write_banner(worksheet: &mut Sheet, heading: String)
    ensures
        final(worksheet)@ == old(worksheet)@.with_all(banner(heading@)),
{
    worksheet.merge_range(0, 1, 0, 7, "", banner_ground_style());
    let mut segments: Vec<RichSegment> = Vec::new();
    segments.push(RichSegment { style: banner_run_style(30), text: heading });
    segments.push(
        RichSegment {
            style: banner_run_style(16),
            text: String::from_str("(OOOO대학 OOOO학과 제OO대 OOOO학생회)\n"),
        },
    );
    segments.push(
        RichSegment {
            style: banner_run_style(16),
            text: String::from_str("(출범일 - yyyy.mm.dd~yyyy.mm.dd)"),
        },
    );
    proof {
        assert(segments@.map_values(|s: RichSegment| s@) =~= banner(heading@)[1]->RichText_segments);
    }
    worksheet.write_rich_text(0, 1, segments, banner_cell_style());
    assert(worksheet@.ops =~= old(worksheet)@.ops + banner(heading@));
}

/// The first line of the budget sheet's banner.
pub open spec fn budget_heading(period: ReportPeriod) -> Seq<char> {
    period_label(period) + " 예산안\n"@
}

/// The note under the banner.
pub open spec fn budget_notice() -> Seq<Op> {
    seq![
        merged(1, 1, 1, 7, ""@, Style::plain()),
        merged(
            2,
            1,
            2,
            7,
            "예산안 작성 전, 반드시 가이드라인 및 작성 예시를 참고해주세요. / 색칠된 칸은 입력하지 마세요. / 양식에 맞추어 작성해주시고, 예산안 원본도 첨부해주세요."@,
            Style::summary(StyleTag::PlainText).with_bold().with_border(
                Border::Thin,
            ).with_border_color(BorderColor::White),
        ),
    ]
}

fn write_budget_notice(worksheet: &mut Sheet)
    ensures
        final(worksheet)@ == old(worksheet)@.with_all(budget_notice()),
{
    worksheet.merge_range(1, 1, 1, 7, "", Style::new());
    worksheet.merge_range(
        2,
        1,
        2,
        7,
        "예산안 작성 전, 반드시 가이드라인 및 작성 예시를 참고해주세요. / 색칠된 칸은 입력하지 마세요. / 양식에 맞추어 작성해주시고, 예산안 원본도 첨부해주세요.",
        summary_style(StyleTag::PlainText).set_bold().set_border(Border::Thin).set_border_color(
            BorderColor::White,
        ),
    );
    assert(worksheet@.ops =~= old(worksheet)@.ops + budget_notice());
}

/// The business name under which membership fees are booked.
pub open spec fn fee_category() -> Seq<char> {
    "학생회비 납부"@
}

/// The income the budget starts from: what the previous term handed over
/// plus the membership fees paid in during the half-year.
pub open spec fn income_total_formula() -> Seq<char> {
    "="@ + cell_name_text(6, 1) + "+"@ + cell_name_text(6, 4)
}

/// The income block: the carried-over amount, the membership fees summed
/// over every period sheet of the half-year, and their total.
pub open spec fn budget_income(period: ReportPeriod) -> Seq<Op> {
    seq![
        merged(4, 1, 4, 7, "수입"@, Style::caption().with_bold().with_border(Border::Medium)),
        merged(
            5,
            1,
            5,
            3,
            "이월금"@,
            Style::caption().with_border(Border::Thin).with_border_left(Border::Medium),
        ),
        merged(5, 4, 5, 6, fee_category(), Style::caption().with_border(Border::Thin)),
        text_at(
            5,
            7,
            "계"@,
            Style::caption().with_font_size(12).with_border(Border::Thin).with_border_right(
                Border::Medium,
            ),
        ),
        merged(
            6,
            1,
            6,
            3,
            ""@,
            Style::summary(StyleTag::Number).with_border(Border::Medium).with_border_right(
                Border::Thin,
            ),
        ),
        merged(
            6,
            4,
            6,
            6,
            ""@,
            Style::summary(StyleTag::Number).with_border(Border::Medium).with_border_left(
                Border::Thin,
            ).with_border_right(Border::Thin),
        ),
        formula_at(
            6,
            4,
            aggregate_formula(
                half_months(period.half).0 as nat,
                half_months(period.half).1 as nat,
                fee_category(),
            ),
            Style::summary(StyleTag::Number).with_border(Border::Medium).with_border_left(
                Border::Thin,
            ).with_border_right(Border::Thin),
        ),
        formula_at(
            6,
            7,
            income_total_formula(),
            Style::summary(StyleTag::GrayFormula).with_border(Border::Medium).with_border_left(
                Border::Thin,
            ),
        ),
    ]
}

fn write_budget_income(worksheet: &mut Sheet, period: &ReportPeriod)
    requires
        period.wf(),
    ensures
        final(worksheet)@ == old(worksheet)@.with_all(budget_income(*period)),
{
    let caption = caption_style();
    let number = summary_style(StyleTag::Number);
    worksheet.merge_range(4, 1, 4, 7, "수입", caption.set_bold().set_border(Border::Medium));
    worksheet.merge_range(
        5,
        1,
        5,
        3,
        "이월금",
        caption.set_border(Border::Thin).set_border_left(Border::Medium),
    );
    worksheet.merge_range(5, 4, 5, 6, "학생회비 납부", caption.set_border(Border::Thin));
    worksheet.write_text(
        5,
        7,
        "계",
        caption.set_font_size(12).set_border(Border::Thin).set_border_right(Border::Medium),
    );
    worksheet.merge_range(
        6,
        1,
        6,
        3,
        "",
        number.set_border(Border::Medium).set_border_right(Border::Thin),
    );
    let fees = number.set_border(Border::Medium).set_border_left(Border::Thin).set_border_right(
        Border::Thin,
    );
    worksheet.merge_range(6, 4, 6, 6, "", fees);
    let (first, last) = period.months();
    worksheet.write_formula(6, 4, aggregate(first, last, "학생회비 납부"), fees);
    let mut total = String::from_str("=");
    total.append(cell_name(6, 1).as_str());
    total.append("+");
    total.append(cell_name(6, 4).as_str());
    worksheet.write_formula(
        6,
        7,
        total,
        summary_style(StyleTag::GrayFormula).set_border(Border::Medium).set_border_left(
            Border::Thin,
        ),
    );
    assert(worksheet@.ops =~= old(worksheet)@.ops + budget_income(*period));
}

/// The style of the plain cells of the summary sheets.
pub open spec fn entry_style() -> Style {
    Style::summary(StyleTag::PlainText).with_border(Border::Thin)
}

/// One empty row of a business block: six cells to fill in, the row's
/// height, and the frame's right edge.
pub open spec fn business_row(row: int) -> Seq<Op> {
    seq![
        text_at(row, 2, ""@, entry_style()),
        text_at(row, 3, ""@, entry_style()),
        text_at(row, 4, ""@, entry_style()),
        text_at(row, 5, ""@, entry_style()),
        text_at(row, 6, ""@, entry_style()),
        text_at(row, 7, ""@, entry_style()),
        row_height(row, 380),
        text_at(row, 8, ""@, Style::frame_right()),
    ]
}

/// The first `cnt` empty rows of a business block that starts at `row`.
pub open spec fn business_rows(row: int, cnt: nat) -> Seq<Op>
    decreases cnt,
{
    if cnt == 0 {
        Seq::<Op>::empty()
    } else {
        business_rows(row, (cnt - 1) as nat) + business_row(row + cnt - 1)
    }
}

/// A business block: the category's label down the side of `cnt` rows from
/// `row` on, and the rows themselves.
pub open spec fn business_block(business_type: BusinessType, row: int, cnt: nat) -> Seq<Op> {
    seq![
        merged(
            row,
            1,
            row + cnt - 1,
            1,
            business_type.label(),
            entry_style().with_border_left(Border::Medium),
        ),
    ] + business_rows(row, cnt)
}

/// Lays out the block of `cnt` rows for one business category, from `row`
/// on, and returns the row after the block.
fn write_block(worksheet: &mut Sheet, business_type: BusinessType, row: u32, cnt: u32) -> (next: u32)
    requires
        cnt >= 1,
        row + cnt <= u32::MAX,
    ensures
        next == row + cnt,
        final(worksheet)@ == old(worksheet)@.with_all(
            business_block(business_type, row as int, cnt as nat),
        ),
{
    let entry = summary_style(StyleTag::PlainText).set_border(Border::Thin);
    worksheet.merge_range(
        row,
        1,
        row + cnt - 1,
        1,
        business_type.variant_name(),
        entry.set_border_left(Border::Medium),
    );
    let ghost head = worksheet@.ops;
    let mut r: u32 = row;
    while r < row + cnt
        invariant
            row <= r <= row + cnt <= u32::MAX,
            entry == entry_style(),
            worksheet@.name == old(worksheet)@.name,
            worksheet@.ops == head + business_rows(row as int, (r - row) as nat),
        decreases row + cnt - r,
    {
        worksheet.write_text(r, 2, "", entry);
        worksheet.write_text(r, 3, "", entry);
        worksheet.write_text(r, 4, "", entry);
        worksheet.write_text(r, 5, "", entry);
        worksheet.write_text(r, 6, "", entry);
        worksheet.write_text(r, 7, "", entry);
        worksheet.set_row_height(r, 380);
        worksheet.write_text(r, 8, "", Style::new().set_border_left(Border::Medium));
        proof {
            assert(worksheet@.ops =~= head + business_rows(row as int, (r - row) as nat)
                + business_row(r as int));
        }
        r = r + 1;
    }
    proof {
        assert(worksheet@.ops =~= old(worksheet)@.ops + business_block(
            business_type,
            row as int,
            cnt as nat,
        ));
    }
    row + cnt
}

/// Lays out the block of `cnt` rows for one business category, from `row`
/// on, and returns the row after the block. A block without rows, or one
/// that would pass the last row number, is refused and nothing is written.
pub fn write_business(
    worksheet: &mut Sheet,
    business_type: BusinessType,
    row: u32,
    cnt: u32,
) -> (r: Result<u32, LayoutError>)
    ensures
        match r {
            Ok(next) => {
                &&& cnt >= 1
                &&& next == row + cnt
                &&& final(worksheet)@ == old(worksheet)@.with_all(
                    business_block(business_type, row as int, cnt as nat),
                )
            },
            Err(LayoutError::EmptyBlock) => cnt == 0 && final(worksheet)@ == old(worksheet)@,
            Err(LayoutError::RowOverflow) => {
                &&& cnt >= 1
                &&& row + cnt > u32::MAX
                &&& final(worksheet)@ == old(worksheet)@
            },
        },
{
    if cnt == 0 {
        Err(LayoutError::EmptyBlock)
    } else if cnt > u32::MAX - row {
        Err(LayoutError::RowOverflow)
    } else {
        Ok(write_block(worksheet, business_type, row, cnt))
    }
}

/// How the budget sheet writes the year before `year`.
pub open spec fn previous_year(year: u16) -> Seq<char> {
    if year == 0 {
        "-1"@
    } else {
        decimal_digits((year - 1) as nat)
    }
}

/// The style of the captions above the expense rows.
pub open spec fn expense_caption() -> Style {
    Style::caption().with_border(Border::Thin).with_border_bottom(Border::Medium)
}

/// The captions of the expense table, with the budgets of last year and
/// this year side by side.
pub open spec fn budget_expense_captions(period: ReportPeriod) -> Seq<Op> {
    seq![
        merged(8, 1, 8, 7, "지출"@, Style::caption().with_bold().with_border(Border::Medium)),
        text_at(
            9,
            1,
            "사업구분"@,
            Style::caption().with_border(Border::Thin).with_border_left(
                Border::Medium,
            ).with_border_bottom(Border::Medium),
        ),
        text_at(9, 2, "사업명"@, expense_caption()),
        text_at(9, 3, "지출 상세"@, expense_caption()),
        text_at(9, 4, previous_year(period.year) + "년도 예산"@, expense_caption()),
        text_at(9, 5, decimal_digits(period.year as nat) + "년도 예산"@, expense_caption()),
        text_at(9, 6, "산출 근거"@, expense_caption()),
        text_at(
            9,
            7,
            "비고"@,
            Style::caption().with_border(Border::Thin).with_border_right(
                Border::Medium,
            ).with_border_bottom(Border::Medium),
        ),
    ]
}

fn write_budget_expense_captions(worksheet: &mut Sheet, period: &ReportPeriod)
    ensures
        final(worksheet)@ == old(worksheet)@.with_all(budget_expense_captions(*period)),
{
    let caption = caption_style();
    let plain = caption.set_border(Border::Thin).set_border_bottom(Border::Medium);
    worksheet.merge_range(8, 1, 8, 7, "지출", caption.set_bold().set_border(Border::Medium));
    worksheet.write_text(
        9,
        1,
        "사업구분",
        caption.set_border(Border::Thin).set_border_left(Border::Medium).set_border_bottom(
            Border::Medium,
        ),
    );
    worksheet.write_text(9, 2, "사업명", plain);
    worksheet.write_text(9, 3, "지출 상세", plain);
    let mut last_year = if period.year == 0 {
        String::from_str("-1")
    } else {
        decimal_string((period.year - 1) as u64)
    };
    last_year.append("년도 예산");
    worksheet.write_text(9, 4, last_year.as_str(), plain);
    let mut this_year = decimal_string(period.year as u64);
    this_year.append("년도 예산");
    worksheet.write_text(9, 5, this_year.as_str(), plain);
    worksheet.write_text(9, 6, "산출 근거", plain);
    worksheet.write_text(
        9,
        7,
        "비고",
        caption.set_border(Border::Thin).set_border_right(Border::Medium).set_border_bottom(
            Border::Medium,
        ),
    );
    assert(worksheet@.ops =~= old(worksheet)@.ops + budget_expense_captions(*period));
}

/// A formula for what is left of the income in column `income` of the
/// income row once the planned expenses of column `col`, from the first
/// business row to the row before `row`, are taken off.
pub open spec fn remainder_formula(income: nat, col: nat, row: nat) -> Seq<char> {
    "="@ + cell_name_text(6, income) + "-SUM("@ + cell_name_text(10, col) + ":"@ + cell_name_text(
        (row - 1) as nat,
        col,
    ) + ")"@
}

fn remainder(income: u32, col: u32, row: u32) -> (r: String)
    requires
        row >= 1,
    ensures
        r@ == remainder_formula(income as nat, col as nat, row as nat),
{
    let mut r = String::from_str("=");
    r.append(cell_name(6, income).as_str());
    r.append("-SUM(");
    r.append(cell_name(10, col).as_str());
    r.append(":");
    r.append(cell_name(row - 1, col).as_str());
    r.append(")");
    r
}

/// The two rows that close the expense table at `row`: the reserve, which
/// is what the planned expenses leave of the income, and the total.
pub open spec fn budget_reserve(row: int) -> Seq<Op> {
    seq![
        row_height(row, 380),
        merged(row, 1, row, 2, "예비비"@, entry_style().with_border_left(Border::Medium)),
        text_at(row, 3, "잔액"@, entry_style()),
        formula_at(
            row,
            4,
            remainder_formula(6, 4, row as nat),
            Style::summary(StyleTag::Number).with_border(Border::Thin),
        ),
        formula_at(
            row,
            5,
            remainder_formula(7, 5, row as nat),
            Style::summary(StyleTag::Number).with_border(Border::Thin),
        ),
        text_at(row, 6, ""@, entry_style()),
        text_at(row, 7, ""@, entry_style().with_border_right(Border::Medium)),
        row_height(row + 1, 350),
        merged(
            row + 1,
            1,
            row + 1,
            4,
            "계"@,
            Style::summary(StyleTag::GrayText).with_border(Border::Medium).with_border_right(
                Border::Thin,
            ),
        ),
        formula_at(
            row + 1,
            5,
            sum_formula(10, row as nat, 5),
            Style::summary(StyleTag::GrayFormula).with_border(Border::Medium).with_border_left(
                Border::Thin,
            ).with_border_right(Border::Thin),
        ),
        text_at(
            row + 1,
            6,
            ""@,
            Style::summary(StyleTag::GrayText).with_border(Border::Medium).with_border_left(
                Border::Thin,
            ).with_border_right(Border::Thin),
        ),
        text_at(
            row + 1,
            7,
            ""@,
            Style::summary(StyleTag::GrayText).with_border(Border::Medium).with_border_left(
                Border::Thin,
            ),
        ),
    ]
}

fn write_budget_reserve(worksheet: &mut Sheet, row: u32)
    requires
        1 <= row < u32::MAX,
    ensures
        final(worksheet)@ == old(worksheet)@.with_all(budget_reserve(row as int)),
{
    let entry = summary_style(StyleTag::PlainText).set_border(Border::Thin);
    let number = summary_style(StyleTag::Number).set_border(Border::Thin);
    let gray = summary_style(StyleTag::GrayText).set_border(Border::Medium);
    worksheet.set_row_height(row, 380);
    worksheet.merge_range(row, 1, row, 2, "예비비", entry.set_border_left(Border::Medium));
    worksheet.write_text(row, 3, "잔액", entry);
    worksheet.write_formula(row, 4, remainder(6, 4, row), number);
    worksheet.write_formula(row, 5, remainder(7, 5, row), number);
    worksheet.write_text(row, 6, "", entry);
    worksheet.write_text(row, 7, "", entry.set_border_right(Border::Medium));
    worksheet.set_row_height(row + 1, 350);
    worksheet.merge_range(row + 1, 1, row + 1, 4, "계", gray.set_border_right(Border::Thin));
    worksheet.write_formula(
        row + 1,
        5,
        sum_of(10, row, 5),
        summary_style(StyleTag::GrayFormula).set_border(Border::Medium).set_border_left(
            Border::Thin,
        ).set_border_right(Border::Thin),
    );
    worksheet.write_text(
        row + 1,
        6,
        "",
        gray.set_border_left(Border::Thin).set_border_right(Border::Thin),
    );
    worksheet.write_text(row + 1, 7, "", gray.set_border_left(Border::Thin));
    assert(worksheet@.ops =~= old(worksheet)@.ops + budget_reserve(row as int));
}

/// Everything that `budget` writes, in order: the grid, the banner and the
/// note under it, the income block, one block of rows for each business
/// category, the captions of the expense table, and the reserve and total
/// rows that close it.
pub open spec fn budget_ops(period: ReportPeriod) -> Seq<Op> {
    budget_grid() + banner(budget_heading(period)) + budget_notice() + budget_income(period)
        + business_block(BusinessType::OngoingBusiness, 10, 2) + business_block(
        BusinessType::GeneralBusiness,
        12,
        4,
    ) + business_block(BusinessType::PledgedBusiness, 16, 2) + budget_expense_captions(period)
        + budget_reserve(18)
}

/// Lays out the budget sheet of the half-year `period` on `worksheet`.
pub fn budget(worksheet: &mut Sheet, period: &ReportPeriod)
    requires
        period.wf(),
    ensures
        final(worksheet)@ == old(worksheet)@.with_all(budget_ops(*period)),
{
    write_budget_grid(worksheet);
    let mut heading = period.label();
    heading.append(" 예산안\n");
    write_banner(worksheet, heading);
    write_budget_notice(worksheet);
    write_budget_income(worksheet, period);
    let row = write_block(worksheet, BusinessType::OngoingBusiness, 10, 2);
    let row = write_block(worksheet, BusinessType::GeneralBusiness, row, 4);
    let row = write_block(worksheet, BusinessType::PledgedBusiness, row, 2);
    write_budget_expense_captions(worksheet, period);
    write_budget_reserve(worksheet, row);
    assert(worksheet@.ops =~= old(worksheet)@.ops + budget_ops(*period));
}

} // verus!
