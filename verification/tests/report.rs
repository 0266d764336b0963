use std::collections::HashMap;
use transaction_manager::cell::cell_name;
use transaction_manager::error::ReportError;
use transaction_manager::formula::{aggregate, sheet_name_of, ReportPeriod};
use transaction_manager::models::data::{BusinessType, Data, Date};
use transaction_manager::monthly::{
    balance_of_row, leading_word, period_sheet, sheet_template, write_data_in_sheet,
    write_row_data, Carryover,
};
use transaction_manager::report::{assemble, build_report, report_from_lines};
use transaction_manager::sheet::{CellValue, LayoutError, Sheet, SheetOp};
use transaction_manager::write_account::account;
use transaction_manager::write_budget::{budget, write_business};

fn record(month: u8, day: u8, cash_in: u32, cash_out: u32) -> Data {
    Data {
        date: Date { year: 2024, month, day },
        business_type: BusinessType::Unclassified,
        business_name: None,
        cash_in,
        cash_out,
        balance: 0,
        remarks: None,
        receipt_num: None,
    }
}

/// What each cell of the sheet holds after all writes: the last write wins,
/// and a joined range shows its text in its first cell.
fn cells(sheet: &Sheet) -> HashMap<(u32, u16), CellValue> {
    let mut map = HashMap::new();
    for op in &sheet.ops {
        match op {
            SheetOp::Write { row, col, value, .. } => {
                map.insert((*row, *col), value.clone());
            }
            SheetOp::Merge { first_row, first_col, text, .. } => {
                map.insert((*first_row, *first_col), CellValue::Text(text.clone()));
            }
            _ => {}
        }
    }
    map
}

fn formula(sheet: &Sheet, row: u32, col: u16) -> String {
    match cells(sheet).get(&(row, col)) {
        Some(CellValue::Formula(f)) => f.clone(),
        other => panic!("no formula at ({row}, {col}): {other:?}"),
    }
}

fn text(sheet: &Sheet, row: u32, col: u16) -> String {
    match cells(sheet).get(&(row, col)) {
        Some(CellValue::Text(t)) => t.clone(),
        other => panic!("no text at ({row}, {col}): {other:?}"),
    }
}

/// The zero-based row and column that a cell name such as `F10` stands for.
fn position(name: &str) -> (u32, u16) {
    let letters: String = name.chars().take_while(|c| c.is_ascii_uppercase()).collect();
    let digits: String = name.chars().skip(letters.len()).collect();
    let mut col: u32 = 0;
    for c in letters.chars() {
        col = col * 26 + (c as u32 - 'A' as u32) + 1;
    }
    (digits.parse::<u32>().unwrap() - 1, (col - 1) as u16)
}

/// What a spreadsheet would show in the cell: resolves references within
/// the sheet, `a+b-c` and `SUM(first:last)` over one column.
fn value_of(grid: &HashMap<(u32, u16), CellValue>, at: (u32, u16)) -> i64 {
    match grid.get(&at) {
        None => 0,
        Some(CellValue::Number(n)) => *n as i64,
        Some(CellValue::Text(_)) | Some(CellValue::Date(_)) => 0,
        Some(CellValue::Formula(f)) => {
            let body = f.strip_prefix('=').unwrap();
            if let Some(range) = body.strip_prefix("SUM(").and_then(|r| r.strip_suffix(')')) {
                let (first, last) = range.split_once(':').unwrap();
                let (first, last) = (position(first), position(last));
                assert_eq!(first.1, last.1);
                (first.0..=last.0).map(|row| value_of(grid, (row, first.1))).sum()
            } else if let Some((base, rest)) = body.split_once('+') {
                let (plus, minus) = rest.split_once('-').unwrap();
                value_of(grid, position(base)) + value_of(grid, position(plus))
                    - value_of(grid, position(minus))
            } else {
                value_of(grid, position(body))
            }
        }
    }
}

#[test]
fn running_balance_chain_resolves_to_the_closing_balances() {
    let records = vec![record(1, 10, 100_000, 0), record(1, 20, 0, 30_000)];
    let period = ReportPeriod { year: 2024, half: 1 };
    let sheet = period_sheet(1, &records, &Carryover::Budget(period));
    assert_eq!(formula(&sheet, 6, 5), "=D4+D7-E7");
    assert_eq!(formula(&sheet, 7, 5), "=F7+D8-E8");
    assert_eq!(formula(&sheet, 8, 5), "=F8+D9-E9");
    assert_eq!(formula(&sheet, 9, 3), "=SUM(D7:D9)");
    assert_eq!(formula(&sheet, 9, 4), "=SUM(E7:E9)");
    assert_eq!(formula(&sheet, 9, 5), "=F9");
    assert_eq!(formula(&sheet, 1, 3), "=D10");
    assert_eq!(formula(&sheet, 2, 3), "=E10");
    let mut grid = cells(&sheet);
    grid.insert((3, 3), CellValue::Number(500_000));
    assert_eq!(value_of(&grid, (6, 5)), 600_000);
    assert_eq!(value_of(&grid, (7, 5)), 570_000);
    assert_eq!(value_of(&grid, (9, 5)), 570_000);
    assert_eq!(value_of(&grid, (1, 3)), 100_000);
    assert_eq!(value_of(&grid, (2, 3)), 30_000);
}

#[test]
fn month_without_records_still_has_a_row_and_totals() {
    let period = ReportPeriod { year: 2024, half: 1 };
    let sheet = period_sheet(4, &Vec::new(), &Carryover::Previous { month: 3, records: 5 });
    assert_eq!(sheet.name, "4월 정산서");
    assert_eq!(formula(&sheet, 6, 5), "=D4+D7-E7");
    assert_eq!(formula(&sheet, 7, 3), "=SUM(D7:D7)");
    assert_eq!(formula(&sheet, 7, 4), "=SUM(E7:E7)");
    assert_eq!(formula(&sheet, 7, 5), "=F7");
    assert_eq!(formula(&sheet, 1, 3), "=D8");
    assert_eq!(formula(&sheet, 2, 3), "=E8");
    assert_eq!(formula(&sheet, 3, 3), "='3월 정산서'!F13");
    assert_eq!(text(&sheet, 3, 6), "3월 이월금");
    let mut grid = cells(&sheet);
    grid.insert((3, 3), CellValue::Number(42));
    assert_eq!(value_of(&grid, (7, 5)), 42);
    let first = period_sheet(1, &Vec::new(), &Carryover::Budget(period));
    assert_eq!(formula(&first, 3, 3), "='2024년도 제1회기 예산안'!B7");
    assert_eq!(text(&first, 3, 6), "전단위 인수인계 금액");
}

#[test]
fn balance_formula_starts_from_the_carryover_cell() {
    assert_eq!(balance_of_row(0), "=D4+D7-E7");
    assert_eq!(balance_of_row(1), "=F7+D8-E8");
    assert_eq!(balance_of_row(93), "=F99+D100-E100");
}

#[test]
fn rows_show_the_record_and_never_copy_its_balance() {
    let mut data = record(2, 14, 5_000, 700);
    data.balance = 123_456;
    data.business_type = BusinessType::GeneralBusiness;
    data.business_name = Some("간식행사".to_string());
    data.remarks = Some("memo".to_string());
    let mut sheet = Sheet::new();
    write_row_data(&mut sheet, 3, &data);
    assert_eq!(sheet.ops.len(), 8);
    let grid = cells(&sheet);
    assert_eq!(grid[&(9, 0)], CellValue::Date(Date { year: 2024, month: 2, day: 14 }));
    assert_eq!(grid[&(9, 1)], CellValue::Text("일반사업".to_string()));
    assert_eq!(grid[&(9, 2)], CellValue::Text("간식행사".to_string()));
    assert_eq!(grid[&(9, 3)], CellValue::Number(5_000));
    assert_eq!(grid[&(9, 4)], CellValue::Number(700));
    assert_eq!(grid[&(9, 5)], CellValue::Formula("=F9+D10-E10".to_string()));
    assert_eq!(grid[&(9, 6)], CellValue::Text("memo".to_string()));
    assert_eq!(grid[&(9, 7)], CellValue::Text(String::new()));
    assert!(!grid.values().any(|v| *v == CellValue::Number(123_456)));
}

#[test]
fn data_rows_come_in_the_order_of_the_list() {
    let records = vec![record(1, 3, 10, 0), record(1, 1, 20, 0), record(1, 2, 30, 0)];
    let mut sheet = Sheet::new();
    write_data_in_sheet(&mut sheet, &records);
    assert_eq!(sheet.ops.len(), 3 * 8 + 8 + 6);
    let grid = cells(&sheet);
    assert_eq!(grid[&(6, 3)], CellValue::Number(10));
    assert_eq!(grid[&(7, 3)], CellValue::Number(20));
    assert_eq!(grid[&(8, 3)], CellValue::Number(30));
    assert_eq!(grid[&(9, 3)], CellValue::Text(String::new()));
    assert_eq!(grid[&(10, 0)], CellValue::Text("계".to_string()));
    assert_eq!(grid[&(10, 3)], CellValue::Formula("=SUM(D7:D10)".to_string()));
}

#[test]
fn template_names_the_sheet_and_shows_the_month() {
    let mut sheet = Sheet::new();
    sheet_template(&mut sheet, "1월 정산서");
    assert_eq!(sheet.name, "1월 정산서");
    assert_eq!(sheet.ops.len(), 16 + 10 + 17);
    assert_eq!(text(&sheet, 0, 0), "1월");
    assert_eq!(text(&sheet, 3, 2), "이월금");
    assert_eq!(text(&sheet, 5, 5), "잔고");
    assert_eq!(sheet.ops[0], SheetOp::ColumnWidth { col: 0, hundredths: 864 });
    assert_eq!(sheet.ops[8], SheetOp::DefaultRowHeight { tenths: 150 });
    assert_eq!(
        sheet.ops[15],
        SheetOp::AutoFilter { first_row: 4, first_col: 0, last_row: 4, last_col: 7 }
    );
}

#[test]
fn leading_word_stops_at_the_first_space() {
    assert_eq!(leading_word("12월 정산서"), "12월");
    assert_eq!(leading_word("one"), "one");
    assert_eq!(leading_word(" x"), "");
    assert_eq!(leading_word(""), "");
    assert_eq!(leading_word("a b c"), "a");
}

#[test]
fn sheet_names_and_period_labels() {
    let period = ReportPeriod { year: 2024, half: 2 };
    assert_eq!(sheet_name_of(1), "1월 정산서");
    assert_eq!(sheet_name_of(12), "12월 정산서");
    assert_eq!(period.label(), "2024년도 제2회기");
    assert_eq!(period.budget_sheet(), "2024년도 제2회기 예산안");
    assert_eq!(period.account_sheet(), "2024년도 제2회기 정산서");
    assert_eq!(period.title(), "2024 중앙감사위원회_재정감사");
    assert_eq!(period.months(), (6, 12));
    assert_eq!(ReportPeriod { year: 2024, half: 1 }.months(), (1, 6));
    assert_eq!(ReportPeriod::starting(2024, 1), Some(ReportPeriod { year: 2024, half: 1 }));
    assert_eq!(ReportPeriod::starting(2024, 6), Some(period));
    assert_eq!(ReportPeriod::starting(2024, 3), None);
    assert_eq!(ReportPeriod::starting(2024, 0), None);
}

#[test]
fn aggregate_has_one_term_per_period_sheet() {
    assert_eq!(
        aggregate(1, 6, "학생회비 납부"),
        "=SUMIF('1월 정산서'!C:C, \"학생회비 납부\", '1월 정산서'!D:D) + SUMIF('2월 정산서'!C:C, \"학생회비 납부\", '2월 정산서'!D:D) + SUMIF('3월 정산서'!C:C, \"학생회비 납부\", '3월 정산서'!D:D) + SUMIF('4월 정산서'!C:C, \"학생회비 납부\", '4월 정산서'!D:D) + SUMIF('5월 정산서'!C:C, \"학생회비 납부\", '5월 정산서'!D:D) + SUMIF('6월 정산서'!C:C, \"학생회비 납부\", '6월 정산서'!D:D)"
    );
    assert_eq!(aggregate(7, 7, "x"), "=SUMIF('7월 정산서'!C:C, \"x\", '7월 정산서'!D:D)");
    assert_eq!(aggregate(6, 12, "x").matches("SUMIF").count(), 7);
}

#[test]
fn budget_sheet_wires_income_reserve_and_total() {
    let period = ReportPeriod { year: 2024, half: 1 };
    let mut sheet = Sheet::new();
    budget(&mut sheet, &period);
    assert_eq!(formula(&sheet, 6, 4), aggregate(1, 6, "학생회비 납부"));
    assert_eq!(formula(&sheet, 6, 7), "=B7+E7");
    assert_eq!(formula(&sheet, 18, 4), "=G7-SUM(E11:E18)");
    assert_eq!(formula(&sheet, 18, 5), "=H7-SUM(F11:F18)");
    assert_eq!(formula(&sheet, 19, 5), "=SUM(F11:F19)");
    assert_eq!(text(&sheet, 9, 4), "2023년도 예산");
    assert_eq!(text(&sheet, 9, 5), "2024년도 예산");
    assert_eq!(text(&sheet, 10, 1), "상시사업");
    assert_eq!(text(&sheet, 12, 1), "일반사업");
    assert_eq!(text(&sheet, 16, 1), "공약사업");
    assert_eq!(text(&sheet, 18, 1), "예비비");
    assert_eq!(text(&sheet, 19, 1), "계");
    assert_eq!(sheet.ops.len(), 18 + 2 + 2 + 8 + (1 + 2 * 8) + (1 + 4 * 8) + (1 + 2 * 8) + 8 + 12);
    let rich = sheet.ops.iter().find_map(|op| match op {
        SheetOp::RichText { row: 0, col: 1, segments, .. } => Some(segments.clone()),
        _ => None,
    });
    let rich = rich.unwrap();
    assert_eq!(rich.len(), 3);
    assert_eq!(rich[0].text, "2024년도 제1회기 예산안\n");
    assert_eq!(rich[0].style.font_size, Some(30));
    assert_eq!(rich[1].style.font_size, Some(16));
}

#[test]
fn budget_of_the_second_half_sums_june_to_december() {
    let mut sheet = Sheet::new();
    budget(&mut sheet, &ReportPeriod { year: 2025, half: 2 });
    assert_eq!(formula(&sheet, 6, 4), aggregate(6, 12, "학생회비 납부"));
    assert_eq!(text(&sheet, 9, 4), "2024년도 예산");
}

#[test]
fn budget_of_year_zero_names_the_year_before() {
    let mut sheet = Sheet::new();
    budget(&mut sheet, &ReportPeriod { year: 0, half: 1 });
    assert_eq!(text(&sheet, 9, 4), "-1년도 예산");
    assert_eq!(text(&sheet, 9, 5), "0년도 예산");
}

#[test]
fn business_block_returns_the_row_after_it() {
    let mut sheet = Sheet::new();
    assert_eq!(write_business(&mut sheet, BusinessType::GeneralBusiness, 12, 4), Ok(16));
    assert_eq!(sheet.ops.len(), 1 + 4 * 8);
    assert_eq!(
        sheet.ops[0],
        SheetOp::Merge {
            first_row: 12,
            first_col: 1,
            last_row: 15,
            last_col: 1,
            text: "일반사업".to_string(),
            style: match &sheet.ops[0] {
                SheetOp::Merge { style, .. } => *style,
                _ => unreachable!(),
            },
        }
    );
    assert_eq!(sheet.ops[7], SheetOp::RowHeight { row: 12, tenths: 380 });
    assert_eq!(sheet.ops[32 - 1], SheetOp::RowHeight { row: 15, tenths: 380 });
}

#[test]
fn business_block_without_rows_or_room_is_refused() {
    let mut sheet = Sheet::new();
    assert_eq!(
        write_business(&mut sheet, BusinessType::GeneralBusiness, 12, 0),
        Err(LayoutError::EmptyBlock)
    );
    assert_eq!(
        write_business(&mut sheet, BusinessType::GeneralBusiness, u32::MAX, 1),
        Err(LayoutError::RowOverflow)
    );
    assert_eq!(
        write_business(&mut sheet, BusinessType::GeneralBusiness, 0, 0),
        Err(LayoutError::EmptyBlock)
    );
    assert!(sheet.ops.is_empty());
    assert_eq!(write_business(&mut sheet, BusinessType::Unclassified, u32::MAX - 1, 1), Ok(u32::MAX));
}

#[test]
fn account_sheet_has_a_row_per_month_and_chains_the_balance() {
    let period = ReportPeriod { year: 2024, half: 1 };
    let mut sheet = Sheet::new();
    account(&mut sheet, &period);
    assert_eq!(formula(&sheet, 3, 4), "='2024년도 제1회기 예산안'!B7");
    assert_eq!(formula(&sheet, 3, 5), "=E4");
    for (i, month) in (1..=6u32).enumerate() {
        let row = 4 + i as u32;
        assert_eq!(text(&sheet, row, 1), format!("{month}월"));
        assert_eq!(formula(&sheet, row, 2), format!("='{month}월 정산서'!D2"));
        assert_eq!(formula(&sheet, row, 3), format!("='{month}월 정산서'!D3"));
        assert_eq!(formula(&sheet, row, 4), format!("={}", cell_name(row - 1, 5)));
        assert_eq!(
            formula(&sheet, row, 5),
            format!("=SUM(E{0}+C{0}-D{0})", row + 1)
        );
    }
    assert_eq!(text(&sheet, 10, 1), "계");
    assert_eq!(formula(&sheet, 10, 2), "=SUM(C4:C10)");
    assert_eq!(formula(&sheet, 10, 3), "=SUM(D4:D10)");
    assert_eq!(text(&sheet, 10, 4), "-");
    assert_eq!(formula(&sheet, 10, 5), "=F10");
}

#[test]
fn account_sheet_of_the_second_half_has_seven_months() {
    let mut sheet = Sheet::new();
    account(&mut sheet, &ReportPeriod { year: 2024, half: 2 });
    assert_eq!(text(&sheet, 4, 1), "6월");
    assert_eq!(text(&sheet, 10, 1), "12월");
    assert_eq!(formula(&sheet, 10, 2), "='12월 정산서'!D2");
    assert_eq!(text(&sheet, 11, 1), "계");
    assert_eq!(formula(&sheet, 11, 5), "=F11");
}

#[test]
fn report_has_budget_account_and_one_sheet_per_month() {
    let table = vec![
        record(3, 1, 0, 5),
        record(1, 20, 0, 30_000),
        record(1, 10, 100_000, 0),
    ];
    let document = build_report(table).unwrap();
    assert_eq!(document.period, ReportPeriod { year: 2024, half: 1 });
    assert_eq!(document.title, "2024 중앙감사위원회_재정감사");
    let names: Vec<&str> = document.sheets.iter().map(|s| s.name.as_str()).collect();
    assert_eq!(
        names,
        vec![
            "2024년도 제1회기 예산안",
            "2024년도 제1회기 정산서",
            "1월 정산서",
            "2월 정산서",
            "3월 정산서",
            "4월 정산서",
            "5월 정산서",
            "6월 정산서",
        ]
    );
    let january = &document.sheets[2];
    assert_eq!(formula(january, 3, 3), "='2024년도 제1회기 예산안'!B7");
    assert_eq!(cells(january)[&(6, 3)], CellValue::Number(100_000));
    assert_eq!(cells(january)[&(7, 4)], CellValue::Number(30_000));
    assert_eq!(formula(&document.sheets[3], 3, 3), "='1월 정산서'!F10");
    assert_eq!(formula(&document.sheets[4], 3, 3), "='2월 정산서'!F8");
    assert_eq!(formula(&document.sheets[5], 3, 3), "='3월 정산서'!F9");
    assert_eq!(formula(&document.sheets[7], 3, 3), "='5월 정산서'!F8");
}

#[test]
fn every_carryover_points_at_the_closing_balance_of_the_sheet_before() {
    let table = vec![
        record(12, 1, 1, 0),
        record(9, 2, 1, 0),
        record(9, 1, 1, 0),
        record(6, 3, 1, 0),
        record(6, 2, 1, 0),
        record(6, 1, 1, 0),
    ];
    let document = build_report(table).unwrap();
    assert_eq!(document.sheets.len(), 2 + 7);
    for k in 3..document.sheets.len() {
        let before = &document.sheets[k - 1];
        let carried = formula(&document.sheets[k], 3, 3);
        let (sheet, cell) = carried.strip_prefix("='").unwrap().split_once("'!").unwrap();
        assert_eq!(sheet, before.name);
        let at = position(cell);
        assert_eq!(at.1, 5);
        let closing = formula(before, at.0, at.1);
        assert_eq!(closing, format!("={}", cell_name(at.0 - 1, 5)));
        assert_eq!(text(before, at.0, 0), "계");
    }
}

#[test]
fn record_set_starting_in_march_gives_no_document() {
    assert_eq!(
        build_report(vec![record(4, 1, 1, 0), record(3, 1, 1, 0)]),
        Err(ReportError::PeriodBoundary)
    );
    assert_eq!(build_report(Vec::new()), Err(ReportError::PeriodBoundary));
    assert_eq!(
        build_report(vec![record(8, 1, 1, 0), record(1, 1, 1, 0)]),
        Err(ReportError::MonthOutOfRange)
    );
}

#[test]
fn assemble_needs_a_first_bucket_that_starts_a_half_year() {
    assert_eq!(assemble(&Vec::new()), Err(ReportError::PeriodBoundary));
    assert_eq!(assemble(&vec![(1u8, Vec::new())]), Err(ReportError::PeriodBoundary));
    assert_eq!(
        assemble(&vec![(3u8, vec![record(3, 1, 1, 0)])]),
        Err(ReportError::PeriodBoundary)
    );
    let document = assemble(&vec![(6u8, vec![record(6, 1, 1, 0)]), (7u8, Vec::new())]).unwrap();
    assert_eq!(document.period, ReportPeriod { year: 2024, half: 2 });
    assert_eq!(document.sheets.len(), 4);
}

#[test]
fn report_from_lines_runs_the_whole_pipeline() {
    let lines: Vec<String> = [
        "번호|거래일시|적요|출금액|입금액|잔액|메모|거래구분|거래점",
        "2|2024.01.20 10:00:00|Shop|30,000|0|570,000||CARD|Seoul|",
        "1|2024.01.15 09:00:00|ABC|0|100,000|600,000|note|TYPE|LOC",
    ]
    .iter()
    .map(|l| l.to_string())
    .collect();
    let document = report_from_lines(&lines).unwrap();
    assert_eq!(document.sheets.len(), 8);
    let mut grid = cells(&document.sheets[2]);
    grid.insert((3, 3), CellValue::Number(500_000));
    assert_eq!(value_of(&grid, (6, 5)), 600_000);
    assert_eq!(value_of(&grid, (7, 5)), 570_000);
    assert_eq!(value_of(&grid, (9, 3)), 100_000);
    assert_eq!(value_of(&grid, (9, 4)), 30_000);
    let bad: Vec<String> = vec!["1|2024.03.15 09:00:00|ABC|0|1|1|n|T|L".to_string()];
    assert_eq!(report_from_lines(&bad), Err(ReportError::PeriodBoundary));
    let worse: Vec<String> = vec!["1|2024.01.15 09:00:00|ABC|0|99,999,999,999|1|n|T|L".to_string()];
    assert_eq!(report_from_lines(&worse), Err(ReportError::FieldParse));
    assert_eq!(report_from_lines(&Vec::new()), Err(ReportError::PeriodBoundary));
}
