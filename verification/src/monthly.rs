//! The period sheets: one sheet per month, with a row for every
//! transaction, a running balance that starts from the balance carried
//! over, and the month's totals.

use crate::cell::{cell_name, cell_name_text};
use crate::format::{format_list, Border, NumFormat, Style, StyleTag};
use crate::formula::{
    budget_sheet_name, month_sheet_name, refer_to, refer_to_sheet, reference, running,
    running_formula, sheet_name_of, sheet_reference, sum_formula, sum_of, ReportPeriod,
};
use crate::models::data::Data;
use crate::sheet::{
    column_width, date_at, formula_at, merged, number_at, row_height, text_at, Op, Sheet,
    SheetModel,
};
use crate::text::{chars_of, decimal_digits, decimal_string};
use vstd::prelude::*;

verus! {

/// The most transactions that one sheet has rows for.
pub const MAX_RECORDS: u32 = 0xFFFF_FFF0;

/// What `text` holds before its first space (all of it, if it has none).
pub open spec fn first_word(text: Seq<char>) -> Seq<char>
    decreases text.len(),
{
    if text.len() == 0 || text[0] == ' ' {
        Seq::<char>::empty()
    } else {
        seq![text[0]] + first_word(text.drop_first())
    }
}

/// The first word of `text` is the longest start of it that has no space.
pub proof fn lemma_first_word(text: Seq<char>)
    ensures
        first_word(text).len() <= text.len(),
        first_word(text) == text.take(first_word(text).len() as int),
        forall|i: int| 0 <= i < first_word(text).len() ==> first_word(text)[i] != ' ',
        first_word(text).len() < text.len() ==> text[first_word(text).len() as int] == ' ',
    decreases text.len(),
{
    if text.len() == 0 || text[0] == ' ' {
        assert(first_word(text) =~= text.take(0));
    } else {
        let rest = text.drop_first();
        lemma_first_word(rest);
        let word = first_word(text);
        assert(word =~= text.take(word.len() as int)) by {
            assert forall|i: int| 0 <= i < word.len() implies word[i] == text[i] by {
                if i > 0 {
                    assert(first_word(rest)[i - 1] == rest.take(first_word(rest).len() as int)[i
                        - 1]);
                }
            }
        }
        assert forall|i: int| 0 <= i < word.len() implies word[i] != ' ' by {
            if i > 0 {
                assert(word[i] == first_word(rest)[i - 1]);
            }
        }
    }
}

/// What `text` holds before its first space.
pub fn leading_word(text: &str) -> (word: String)
    ensures
        word@ == first_word(text@),
{
    let chars = chars_of(text);
    let mut word = String::new();
    let mut i: usize = 0;
    proof {
        assert(text@.subrange(0, text@.len() as int) =~= text@);
        assert(word@ + first_word(text@) =~= first_word(text@));
    }
    while i < chars.len() && chars[i] != ' '
        invariant
            i <= chars.len(),
            chars@ == text@,
            first_word(text@) == word@ + first_word(text@.subrange(i as int, text@.len() as int)),
        decreases chars.len() - i,
    {
        word.push(chars[i]);
        proof {
            let rest = text@.subrange(i as int, text@.len() as int);
            assert(rest.drop_first() =~= text@.subrange(i + 1, text@.len() as int));
            assert(word@ + first_word(rest.drop_first()) =~= word@.drop_last() + first_word(rest));
        }
        i = i + 1;
    }
    proof {
        let rest = text@.subrange(i as int, text@.len() as int);
        assert(first_word(rest) =~= Seq::<char>::empty());
        assert(word@ + Seq::<char>::empty() =~= word@);
    }
    word
}

/// A caption cell that is open towards the cell below it.
pub open spec fn caption_upper() -> Style {
    Style::preset(StyleTag::SchemaLabel).with_border_bottom(Border::NoLine)
}

/// A caption cell that is open towards the cell above it.
pub open spec fn caption_lower() -> Style {
    Style::preset(StyleTag::SchemaLabel).with_border_top(Border::NoLine)
}

/// Widths, heights and the filter of a period sheet.
pub open spec fn template_grid() -> Seq<Op> {
    seq![
        column_width(0, 864),
        column_width(1, 1191),
        column_width(2, 1364),
        column_width(3, 1200),
        column_width(4, 1200),
        column_width(5, 1300),
        column_width(6, 5491),
        column_width(7, 1736),
        Op::DefaultRowHeight { tenths: 150 },
        row_height(0, 210),
        row_height(1, 210),
        row_height(2, 210),
        row_height(3, 210),
        row_height(4, 155),
        row_height(5, 158),
        Op::AutoFilter { first_row: 4, first_col: 0, last_row: 4, last_col: 7 },
    ]
}

/// The joined cells of a period sheet's head: the month, the captions of
/// the summary block, and the cells that the summary formulas go into.
pub open spec fn template_merges(sheet_name: Seq<char>) -> Seq<Op> {
    seq![
        merged(0, 0, 3, 1, first_word(sheet_name), Style::preset(StyleTag::Header)),
        merged(0, 3, 0, 5, "금액"@, Style::preset(StyleTag::SchemaLabel)),
        merged(0, 6, 0, 7, "비고"@, Style::preset(StyleTag::SchemaLabel)),
        merged(1, 3, 1, 5, "="@, Style::preset(StyleTag::GrayFormula)),
        merged(1, 6, 1, 7, ""@, Style::preset(StyleTag::PlainText)),
        merged(2, 3, 2, 5, "="@, Style::preset(StyleTag::GrayFormula)),
        merged(2, 6, 2, 7, ""@, Style::preset(StyleTag::PlainText)),
        merged(3, 3, 3, 5, "="@, Style::preset(StyleTag::GrayFormula)),
        merged(3, 6, 3, 7, ""@, Style::preset(StyleTag::GrayText)),
        merged(4, 3, 4, 5, "금액"@, caption_upper()),
    ]
}

/// The captions of a period sheet: those of the summary block, and the two
/// caption rows above the transactions.
pub open spec fn template_captions() -> Seq<Op> {
    seq![
        text_at(0, 2, "구분"@, Style::preset(StyleTag::SchemaLabel)),
        text_at(1, 2, "수입"@, Style::preset(StyleTag::SchemaLabel)),
        text_at(2, 2, "지출"@, Style::preset(StyleTag::SchemaLabel)),
        text_at(3, 2, "이월금"@, Style::preset(StyleTag::SchemaLabel)),
        text_at(4, 0, "날짜"@, caption_upper()),
        text_at(4, 1, "사업구분"@, caption_upper()),
        text_at(4, 2, "사업명"@, caption_upper()),
        text_at(4, 6, "비고"@, caption_upper()),
        text_at(4, 7, "영수증번호"@, caption_upper()),
        text_at(5, 0, ""@, caption_lower()),
        text_at(5, 1, ""@, caption_lower()),
        text_at(5, 2, ""@, caption_lower()),
        text_at(5, 3, "수입"@, Style::preset(StyleTag::SchemaLabel)),
        text_at(5, 4, "지출"@, Style::preset(StyleTag::SchemaLabel)),
        text_at(5, 5, "잔고"@, Style::preset(StyleTag::SchemaLabel)),
        text_at(5, 6, ""@, caption_lower()),
        text_at(5, 7, ""@, caption_lower()),
    ]
}

/// Everything that `sheet_template` writes, in order.
pub open spec fn template_ops(sheet_name: Seq<char>) -> Seq<Op> {
    template_grid() + template_merges(sheet_name) + template_captions()
}

fn write_template_grid(worksheet: &mut Sheet)
    ensures
        final(worksheet)@ == old(worksheet)@.with_all(template_grid()),
{
    worksheet.set_column_width(0, 864);
    worksheet.set_column_width(1, 1191);
    worksheet.set_column_width(2, 1364);
    worksheet.set_column_width(3, 1200);
    worksheet.set_column_width(4, 1200);
    worksheet.set_column_width(5, 1300);
    worksheet.set_column_width(6, 5491);
    worksheet.set_column_width(7, 1736);
    worksheet.set_default_row_height(150);
    worksheet.set_row_height(0, 210);
    worksheet.set_row_height(1, 210);
    worksheet.set_row_height(2, 210);
    worksheet.set_row_height(3, 210);
    worksheet.set_row_height(4, 155);
    worksheet.set_row_height(5, 158);
    worksheet.autofilter(4, 0, 4, 7);
    assert(worksheet@.ops =~= old(worksheet)@.ops + template_grid());
}

fn write_template_merges(worksheet: &mut Sheet, sheet_name: &str)
    ensures
        final(worksheet)@ == old(worksheet)@.with_all(template_merges(sheet_name@)),
{
    let month = leading_word(sheet_name);
    worksheet.merge_range(0, 0, 3, 1, month.as_str(), format_list(0));
    worksheet.merge_range(0, 3, 0, 5, "금액", format_list(1));
    worksheet.merge_range(0, 6, 0, 7, "비고", format_list(1));
    worksheet.merge_range(1, 3, 1, 5, "=", format_list(6));
    worksheet.merge_range(1, 6, 1, 7, "", format_list(2));
    worksheet.merge_range(2, 3, 2, 5, "=", format_list(6));
    worksheet.merge_range(2, 6, 2, 7, "", format_list(2));
    worksheet.merge_range(3, 3, 3, 5, "=", format_list(6));
    worksheet.merge_range(3, 6, 3, 7, "", format_list(3));
    worksheet.merge_range(4, 3, 4, 5, "금액", format_list(1).set_border_bottom(Border::NoLine));
    assert(worksheet@.ops =~= old(worksheet)@.ops + template_merges(sheet_name@));
}

fn write_template_captions(worksheet: &mut Sheet)
    ensures
        final(worksheet)@ == old(worksheet)@.with_all(template_captions()),
{
    let caption = format_list(1);
    let upper = caption.set_border_bottom(Border::NoLine);
    let lower = caption.set_border_top(Border::NoLine);
    worksheet.write_text(0, 2, "구분", caption);
    worksheet.write_text(1, 2, "수입", caption);
    worksheet.write_text(2, 2, "지출", caption);
    worksheet.write_text(3, 2, "이월금", caption);
    worksheet.write_text(4, 0, "날짜", upper);
    worksheet.write_text(4, 1, "사업구분", upper);
    worksheet.write_text(4, 2, "사업명", upper);
    worksheet.write_text(4, 6, "비고", upper);
    worksheet.write_text(4, 7, "영수증번호", upper);
    worksheet.write_text(5, 0, "", lower);
    worksheet.write_text(5, 1, "", lower);
    worksheet.write_text(5, 2, "", lower);
    worksheet.write_text(5, 3, "수입", caption);
    worksheet.write_text(5, 4, "지출", caption);
    worksheet.write_text(5, 5, "잔고", caption);
    worksheet.write_text(5, 6, "", lower);
    worksheet.write_text(5, 7, "", lower);
    assert(worksheet@.ops =~= old(worksheet)@.ops + template_captions());
}

/// Names `worksheet` and lays out the head of a period sheet on it: the
/// month (the sheet name's first word), the summary block and the captions
/// of the transaction table.
pub fn sheet_template(worksheet: &mut Sheet, sheet_name: &str)
    ensures
        final(worksheet)@ == (SheetModel {
            name: sheet_name@,
            ops: old(worksheet)@.ops + template_ops(sheet_name@),
        }),
{
    worksheet.set_name(sheet_name);
    write_template_grid(worksheet);
    write_template_merges(worksheet, sheet_name);
    write_template_captions(worksheet);
    assert(worksheet@.ops =~= old(worksheet)@.ops + template_ops(sheet_name@));
}

/// What a cell shows for an optional text: the text, or nothing.
pub open spec fn shown(text: Option<String>) -> Seq<char> {
    match text {
        Some(t) => t@,
        None => ""@,
    }
}

fn text_or_empty(text: &Option<String>) -> (r: &str)
    ensures
        r@ == shown(*text),
{
    match text {
        Some(t) => t.as_str(),
        None => "",
    }
}

/// The formula of the running balance in transaction row `i`: the balance
/// of the row above (for the first row, the balance carried over) plus the
/// row's income minus its expense.
pub open spec fn balance_formula(i: nat) -> Seq<char> {
    running_formula(
        if i == 0 {
            cell_name_text(3, 3)
        } else {
            cell_name_text(5 + i, 5)
        },
        cell_name_text(6 + i, 3),
        cell_name_text(6 + i, 4),
    )
}

/// The running balance formula of transaction row `i`.
pub fn balance_of_row(i: u32) -> (r: String)
    requires
        i <= MAX_RECORDS,
    ensures
        r@ == balance_formula(i as nat),
{
    let base = if i == 0 {
        cell_name(3, 3)
    } else {
        cell_name(5 + i, 5)
    };
    running(base.as_str(), cell_name(6 + i, 3).as_str(), cell_name(6 + i, 4).as_str())
}

/// The style of a date cell.
pub open spec fn date_style() -> Style {
    Style::preset(StyleTag::PlainText).with_num_format(NumFormat::MonthDay)
}

/// The style of an amount cell.
pub open spec fn amount_style() -> Style {
    Style::preset(StyleTag::Number).with_num_format(NumFormat::Currency)
}

/// The cells of transaction row `i`, which holds `data`.
pub open spec fn data_row(i: nat, data: Data) -> Seq<Op> {
    let row = 6 + i as int;
    seq![
        date_at(row, 0, data.date, date_style()),
        text_at(row, 1, data.business_type.label(), Style::preset(StyleTag::PlainText)),
        text_at(row, 2, shown(data.business_name), Style::preset(StyleTag::PlainText)),
        number_at(row, 3, data.cash_in, amount_style()),
        number_at(row, 4, data.cash_out, amount_style()),
        formula_at(row, 5, balance_formula(i), Style::preset(StyleTag::GrayFormula)),
        text_at(row, 6, shown(data.remarks), Style::preset(StyleTag::PlainText)),
        text_at(row, 7, shown(data.receipt_num), Style::preset(StyleTag::PlainText)),
    ]
}

/// Writes `data` into transaction row `i`.
pub fn write_row_data(worksheet: &mut Sheet, i: u32, data: &Data)
    requires
        i <= MAX_RECORDS,
    ensures
        final(worksheet)@ == old(worksheet)@.with_all(data_row(i as nat, *data)),
{
    let text = format_list(2);
    let amount = format_list(5).set_num_format(NumFormat::Currency);
    worksheet.write_date(6 + i, 0, data.date, text.set_num_format(NumFormat::MonthDay));
    worksheet.write_text(6 + i, 1, data.business_type.variant_name(), text);
    worksheet.write_text(6 + i, 2, text_or_empty(&data.business_name), text);
    worksheet.write_number(6 + i, 3, data.cash_in, amount);
    worksheet.write_number(6 + i, 4, data.cash_out, amount);
    worksheet.write_formula(6 + i, 5, balance_of_row(i), format_list(6));
    worksheet.write_text(6 + i, 6, text_or_empty(&data.remarks), text);
    worksheet.write_text(6 + i, 7, text_or_empty(&data.receipt_num), text);
    assert(worksheet@.ops =~= old(worksheet)@.ops + data_row(i as nat, *data));
}

/// The rows of the first `count` transactions of `records`.
pub open spec fn data_rows(records: Seq<Data>, count: nat) -> Seq<Op>
    recommends
        count <= records.len(),
    decreases count,
{
    if count == 0 {
        Seq::<Op>::empty()
    } else {
        data_rows(records, (count - 1) as nat) + data_row(
            (count - 1) as nat,
            records[count - 1],
        )
    }
}

/// The empty row after `len` transactions. It is there even when the month
/// has no transactions, so that every period sheet has a row whose balance
/// the totals and the next sheet can refer to.
pub open spec fn blank_row(len: nat) -> Seq<Op> {
    let row = 6 + len as int;
    seq![
        text_at(row, 0, ""@, date_style()),
        text_at(row, 1, ""@, Style::preset(StyleTag::PlainText)),
        text_at(row, 2, ""@, Style::preset(StyleTag::PlainText)),
        text_at(row, 3, ""@, amount_style()),
        text_at(row, 4, ""@, amount_style()),
        formula_at(row, 5, balance_formula(len), Style::preset(StyleTag::GrayFormula)),
        text_at(row, 6, ""@, Style::preset(StyleTag::PlainText)),
        text_at(row, 7, ""@, Style::preset(StyleTag::PlainText)),
    ]
}

/// The style of the totals.
pub open spec fn total_amount_style() -> Style {
    Style::preset(StyleTag::AccentFormula).with_num_format(NumFormat::Currency)
}

/// The totals row after `len` transactions: income and expense summed over
/// all rows from the first to the empty one, and the closing balance, which
/// is the balance of the empty row.
pub open spec fn totals_row(len: nat) -> Seq<Op> {
    let row = 7 + len as int;
    seq![
        merged(row, 0, row, 2, "계"@, Style::preset(StyleTag::AccentText)),
        formula_at(row, 3, sum_formula(6, 6 + len, 3), total_amount_style()),
        formula_at(row, 4, sum_formula(6, 6 + len, 4), total_amount_style()),
        formula_at(row, 5, reference(cell_name_text(6 + len, 5)), total_amount_style()),
        text_at(row, 6, ""@, Style::preset(StyleTag::AccentText)),
        text_at(row, 7, ""@, Style::preset(StyleTag::AccentText)),
    ]
}

/// Everything that `write_data_in_sheet` writes for `records`, in order.
pub open spec fn ledger_ops(records: Seq<Data>) -> Seq<Op> {
    data_rows(records, records.len()) + blank_row(records.len()) + totals_row(records.len())
}

fn write_blank_row(worksheet: &mut Sheet, len: u32)
    requires
        len <= MAX_RECORDS,
    ensures
        final(worksheet)@ == old(worksheet)@.with_all(blank_row(len as nat)),
{
    let text = format_list(2);
    let amount = format_list(5).set_num_format(NumFormat::Currency);
    worksheet.write_text(6 + len, 0, "", text.set_num_format(NumFormat::MonthDay));
    worksheet.write_text(6 + len, 1, "", text);
    worksheet.write_text(6 + len, 2, "", text);
    worksheet.write_text(6 + len, 3, "", amount);
    worksheet.write_text(6 + len, 4, "", amount);
    worksheet.write_formula(6 + len, 5, balance_of_row(len), format_list(6));
    worksheet.write_text(6 + len, 6, "", text);
    worksheet.write_text(6 + len, 7, "", text);
    assert(worksheet@.ops =~= old(worksheet)@.ops + blank_row(len as nat));
}

fn write_totals_row(worksheet: &mut Sheet, len: u32)
    requires
        len <= MAX_RECORDS,
    ensures
        final(worksheet)@ == old(worksheet)@.with_all(totals_row(len as nat)),
{
    let accent = format_list(4);
    let total = format_list(7).set_num_format(NumFormat::Currency);
    worksheet.merge_range(7 + len, 0, 7 + len, 2, "계", accent);
    worksheet.write_formula(7 + len, 3, sum_of(6, 6 + len, 3), total);
    worksheet.write_formula(7 + len, 4, sum_of(6, 6 + len, 4), total);
    worksheet.write_formula(7 + len, 5, refer_to(cell_name(6 + len, 5).as_str()), total);
    worksheet.write_text(7 + len, 6, "", accent);
    worksheet.write_text(7 + len, 7, "", accent);
    assert(worksheet@.ops =~= old(worksheet)@.ops + totals_row(len as nat));
}

/// Writes one row for every transaction of `data_list`, in order, then the
/// empty row and the totals row.
pub fn write_data_in_sheet(worksheet: &mut Sheet, data_list: &Vec<Data>)
    requires
        data_list.len() <= MAX_RECORDS,
    ensures
        final(worksheet)@ == old(worksheet)@.with_all(ledger_ops(data_list@)),
{
    let len: u32 = data_list.len() as u32;
    let mut i: u32 = 0;
    while i < len
        invariant
            i <= len,
            len == data_list.len(),
            len <= MAX_RECORDS,
            worksheet@.name == old(worksheet)@.name,
            worksheet@.ops == old(worksheet)@.ops + data_rows(data_list@, i as nat),
        decreases len - i,
    {
        write_row_data(worksheet, i, &data_list[i as usize]);
        proof {
            assert(worksheet@.ops =~= old(worksheet)@.ops + data_rows(
                data_list@,
                (i + 1) as nat,
            ));
        }
        i = i + 1;
    }
    write_blank_row(worksheet, len);
    write_totals_row(worksheet, len);
    assert(worksheet@.ops =~= old(worksheet)@.ops + ledger_ops(data_list@));
}

/// Where a period sheet takes its opening balance from.
#[derive(Debug, Clone, Copy, PartialEq, Eq, Structural)]
pub enum Carryover {
    /// From the budget sheet of the half-year: this is the first period
    /// sheet.
    Budget(ReportPeriod),
    /// From the closing balance of the sheet of `month`, which holds
    /// `records` transactions.
    Previous { month: u8, records: u32 },
}

/// The formula of the opening balance.
pub open spec fn carryover_formula(carryover: Carryover) -> Seq<char> {
    match carryover {
        Carryover::Budget(period) => sheet_reference(
            budget_sheet_name(period),
            cell_name_text(6, 1),
        ),
        Carryover::Previous { month, records } => sheet_reference(
            month_sheet_name(month as nat),
            cell_name_text(7 + records as nat, 5),
        ),
    }
}

/// The note beside the opening balance, which says where it comes from.
pub open spec fn carryover_note(carryover: Carryover) -> Seq<char> {
    match carryover {
        Carryover::Budget(_) => "전단위 인수인계 금액"@,
        Carryover::Previous { month, records } => decimal_digits(month as nat) + "월 이월금"@,
    }
}

/// The summary block of a period sheet with `len` transactions: income and
/// expense by reference to the totals row, and the opening balance by
/// reference to where it is carried over from.
pub open spec fn summary_ops(len: nat, carryover: Carryover) -> Seq<Op> {
    seq![
        formula_at(
            1,
            3,
            reference(cell_name_text(7 + len, 3)),
            Style::preset(StyleTag::GrayFormula),
        ),
        formula_at(
            2,
            3,
            reference(cell_name_text(7 + len, 4)),
            Style::preset(StyleTag::GrayFormula),
        ),
        formula_at(3, 3, carryover_formula(carryover), Style::preset(StyleTag::GrayFormula)),
        text_at(3, 6, carryover_note(carryover), Style::preset(StyleTag::GrayText)),
    ]
}

/// The formula of the opening balance.
pub fn carryover_reference(carryover: &Carryover) -> (r: String)
    requires
        carryover matches Carryover::Previous { month, records } ==> records <= MAX_RECORDS,
    ensures
        r@ == carryover_formula(*carryover),
{
    match carryover {
        Carryover::Budget(period) => refer_to_sheet(
            period.budget_sheet().as_str(),
            cell_name(6, 1).as_str(),
        ),
        Carryover::Previous { month, records } => refer_to_sheet(
            sheet_name_of(*month).as_str(),
            cell_name(7 + *records, 5).as_str(),
        ),
    }
}

/// Fills in the summary block of a period sheet with `len` transactions.
pub fn write_summary(worksheet: &mut Sheet, len: u32, carryover: &Carryover)
    requires
        len <= MAX_RECORDS,
        carryover matches Carryover::Previous { month, records } ==> records <= MAX_RECORDS,
    ensures
        final(worksheet)@ == old(worksheet)@.with_all(summary_ops(len as nat, *carryover)),
{
    let computed = format_list(6);
    worksheet.write_formula(1, 3, refer_to(cell_name(7 + len, 3).as_str()), computed);
    worksheet.write_formula(2, 3, refer_to(cell_name(7 + len, 4).as_str()), computed);
    worksheet.write_formula(3, 3, carryover_reference(carryover), computed);
    match carryover {
        Carryover::Budget(_) => {
            worksheet.write_text(3, 6, "전단위 인수인계 금액", format_list(3));
        },
        Carryover::Previous { month, records } => {
            let mut note = decimal_string(*month as u64);
            note.append("월 이월금");
            worksheet.write_text(3, 6, note.as_str(), format_list(3));
        },
    }
    assert(worksheet@.ops =~= old(worksheet)@.ops + summary_ops(len as nat, *carryover));
}

/// The period sheet of `month` with the transactions `records`.
pub open spec fn period_sheet_model(month: u8, records: Seq<Data>, carryover: Carryover)
    -> SheetModel {
    SheetModel {
        name: month_sheet_name(month as nat),
        ops: template_ops(month_sheet_name(month as nat)) + ledger_ops(records) + summary_ops(
            records.len(),
            carryover,
        ),
    }
}

/// Builds the period sheet of `month`: the head, a row for every
/// transaction, the totals, and the summary with its opening balance
/// carried over as `carryover` says.
pub fn period_sheet(month: u8, records: &Vec<Data>, carryover: &Carryover) -> (sheet: Sheet)
    requires
        records.len() <= MAX_RECORDS,
        carryover matches Carryover::Previous { month, records } ==> records <= MAX_RECORDS,
    ensures
        sheet@ == period_sheet_model(month, records@, *carryover),
{
    let mut sheet = Sheet::new();
    let name = sheet_name_of(month);
    sheet_template(&mut sheet, name.as_str());
    write_data_in_sheet(&mut sheet, records);
    write_summary(&mut sheet, records.len() as u32, carryover);
    assert(sheet@.ops =~= period_sheet_model(month, records@, *carryover).ops);
    sheet
}

/// The running balance is a chain: the formula of every transaction row
/// after the first starts from the cell that holds the formula of the row
/// above it, and the first starts from the opening balance.
pub proof fn lemma_balance_chain(i: nat, data: Data)
    ensures
        balance_formula(0) == running_formula(
            cell_name_text(3, 3),
            cell_name_text(6, 3),
            cell_name_text(6, 4),
        ),
        balance_formula(i + 1) == running_formula(
            cell_name_text(6 + i, 5),
            cell_name_text(7 + i, 3),
            cell_name_text(7 + i, 4),
        ),
        data_row(i, data)[5] == formula_at(
            (6 + i) as int,
            5,
            balance_formula(i),
            Style::preset(StyleTag::GrayFormula),
        ),
{
}

/// The carryover is a chain too: the opening balance of the sheet after a
/// period sheet refers, by that sheet's own name, to the very cell in which
/// that sheet shows its closing balance; and the closing balance is the
/// balance of the sheet's last row.
pub proof fn lemma_carryover_chain(month: u8, records: Seq<Data>, carryover: Carryover)
    requires
        records.len() <= MAX_RECORDS,
    ensures
        ({
            let sheet = period_sheet_model(month, records, carryover);
            let next = Carryover::Previous { month, records: records.len() as u32 };
            &&& carryover_formula(next) == sheet_reference(
                sheet.name,
                cell_name_text(7 + records.len(), 5),
            )
            &&& sheet.ops.contains(
                formula_at(
                    (7 + records.len()) as int,
                    5,
                    reference(cell_name_text(6 + records.len(), 5)),
                    total_amount_style(),
                ),
            )
            &&& sheet.ops.contains(
                formula_at(
                    (6 + records.len()) as int,
                    5,
                    balance_formula(records.len()),
                    Style::preset(StyleTag::GrayFormula),
                ),
            )
        }),
{
    let sheet = period_sheet_model(month, records, carryover);
    let len = records.len();
    let head = template_ops(month_sheet_name(month as nat)) + data_rows(records, len);
    let tail = summary_ops(len, carryover);
    assert(sheet.ops =~= head + blank_row(len) + totals_row(len) + tail);
    let at = head.len() as int;
    assert(sheet.ops[at + 5] == blank_row(len)[5]);
    assert(sheet.ops[at + 8 + 3] == totals_row(len)[3]);
}

} // verus!
