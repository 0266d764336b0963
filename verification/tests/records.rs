use regex::Regex;
use transaction_manager::error::ReportError;
use transaction_manager::models::data::{BusinessType, Data, DataBuilder, Date};
use transaction_manager::parse::{
    blank_pattern, extract_lines, extract_tables, extract_with, parse_amount, pipe_pattern,
    record_from_groups, regex_match,
};

fn pipe() -> Regex {
    Regex::new(pipe_pattern()).unwrap()
}

fn lines(texts: &[&str]) -> Vec<String> {
    texts.iter().map(|t| t.to_string()).collect()
}

fn groups(texts: &[Option<&str>]) -> Option<Vec<Option<String>>> {
    Some(texts.iter().map(|t| t.map(|s| s.to_string())).collect())
}

#[test]
fn pipe_line_becomes_a_record() {
    let line = "1|2024.01.15 09:00:00|ABC|0|100,000|100,000|note|TYPE|LOC";
    let data = regex_match(&pipe(), line).unwrap().unwrap();
    assert_eq!(data.date, Date { year: 2024, month: 1, day: 15 });
    assert_eq!(data.cash_in, 100_000);
    assert_eq!(data.cash_out, 0);
    assert_eq!(data.balance, 100_000);
    assert_eq!(data.business_type, BusinessType::Unclassified);
    assert_eq!(data.business_name, None);
    assert_eq!(data.remarks, None);
    assert_eq!(data.receipt_num, None);
}

#[test]
fn amounts_come_in_the_order_out_in_balance() {
    let line = "7|2024.03.02 18:30:00|Shop|30,000|0|1,470,000||CARD|Seoul|";
    let data = regex_match(&pipe(), line).unwrap().unwrap();
    assert_eq!(data.cash_out, 30_000);
    assert_eq!(data.cash_in, 0);
    assert_eq!(data.balance, 1_470_000);
    assert_eq!(data.date, Date { year: 2024, month: 3, day: 2 });
}

#[test]
fn more_fields_may_follow_the_place() {
    let line = "12|2024.06.30 23:59:59|A B C|1|2|3|x|y|z|one|two|three";
    let data = regex_match(&pipe(), line).unwrap().unwrap();
    assert_eq!((data.cash_out, data.cash_in, data.balance), (1, 2, 3));
}

#[test]
fn blank_line_is_no_match() {
    assert_eq!(regex_match(&pipe(), ""), Ok(None));
    assert_eq!(regex_match(&pipe(), "   \t  "), Ok(None));
    let blank = Regex::new(blank_pattern()).unwrap();
    assert_eq!(regex_match(&blank, "   \t  "), Ok(None));
}

#[test]
fn header_row_is_no_match() {
    let header = "번호 거래일시 적요 출금액 입금액 잔액 메모 거래구분 거래점";
    assert_eq!(regex_match(&pipe(), header), Ok(None));
    assert_eq!(regex_match(&pipe(), "번호|거래일시|적요|출금액|입금액|잔액|메모|거래구분|거래점"), Ok(None));
    let blank = Regex::new(blank_pattern()).unwrap();
    assert_eq!(regex_match(&blank, header), Ok(None));
}

#[test]
fn line_with_too_few_fields_is_no_match() {
    assert_eq!(regex_match(&pipe(), "1|2024.01.15 09:00:00|ABC|0|100,000|100,000"), Ok(None));
    assert_eq!(regex_match(&pipe(), "1|2024.01.15|ABC|0|100,000|100,000|n|T|L"), Ok(None));
    assert_eq!(regex_match(&pipe(), "1|2024.01.15 09:00:00|ABC|0|1000,00|100,000|n|T|L"), Ok(None));
}

#[test]
fn blank_separated_line_becomes_a_record() {
    let blank = Regex::new(blank_pattern()).unwrap();
    let line = "3 2024.02.29 12:00:01 Bakery 12,500 0 987,500 (lunch) CARD Branch";
    let data = regex_match(&blank, line).unwrap().unwrap();
    assert_eq!(data.date, Date { year: 2024, month: 2, day: 29 });
    assert_eq!(data.cash_out, 12_500);
    assert_eq!(data.cash_in, 0);
    assert_eq!(data.balance, 987_500);
    let short = "4 2024.02.01 08:00:00 Fee 0 10,000 997,500 TRANSFER";
    let data = regex_match(&blank, short).unwrap().unwrap();
    assert_eq!((data.cash_out, data.cash_in, data.balance), (0, 10_000, 997_500));
}

#[test]
fn amount_too_large_for_a_record_fails_the_line() {
    let line = "1|2024.01.15 09:00:00|ABC|0|4,294,967,296|100,000|note|TYPE|LOC";
    assert_eq!(regex_match(&pipe(), line), Err(ReportError::FieldParse));
    let line = "1|2024.01.15 09:00:00|ABC|0|4,294,967,295|100,000|note|TYPE|LOC";
    assert_eq!(regex_match(&pipe(), line).unwrap().unwrap().cash_in, u32::MAX);
}

#[test]
fn date_that_is_no_date_fails_the_line() {
    let line = "1|2024.13.15 09:00:00|ABC|0|100,000|100,000|note|TYPE|LOC";
    assert_eq!(regex_match(&pipe(), line), Err(ReportError::FieldParse));
    let line = "1|2024.12.32 09:00:00|ABC|0|100,000|100,000|note|TYPE|LOC";
    assert_eq!(regex_match(&pipe(), line), Err(ReportError::FieldParse));
    let line = "1|2024.00.10 09:00:00|ABC|0|100,000|100,000|note|TYPE|LOC";
    assert_eq!(regex_match(&pipe(), line), Err(ReportError::FieldParse));
}

#[test]
fn digits_of_another_script_fail_the_line() {
    let line = "1|2024.01.15 09:00:00|ABC|0|١٢٣|100,000|note|TYPE|LOC";
    assert_eq!(regex_match(&pipe(), line), Err(ReportError::FieldParse));
}

#[test]
fn pattern_with_too_few_groups_gives_an_incomplete_record() {
    let few = Regex::new("^(\\d+)\\|(\\d{4}\\.\\d{2}\\.\\d{2})").unwrap();
    assert_eq!(regex_match(&few, "1|2024.01.15|rest"), Err(ReportError::IncompleteRecord));
    assert_eq!(regex_match(&few, "nothing"), Ok(None));
}

#[test]
fn group_that_took_no_part_gives_an_incomplete_record() {
    let re = Regex::new("^(x)\\|(\\d{4}\\.\\d{2}\\.\\d{2})\\|(a)\\|(\\d+)\\|(\\d+)(?:\\|(\\d+))?$")
        .unwrap();
    assert_eq!(regex_match(&re, "x|2024.01.15|a|1|2"), Err(ReportError::IncompleteRecord));
    let data = regex_match(&re, "x|2024.01.15|a|1|2|3").unwrap().unwrap();
    assert_eq!((data.cash_out, data.cash_in, data.balance), (1, 2, 3));
}

#[test]
fn record_from_groups_reads_groups_2_4_5_6() {
    let g = groups(&[
        Some("whole"),
        Some("9"),
        Some("2024.06.01 00:00:00"),
        Some("who"),
        Some("1,000"),
        Some("2,000"),
        Some("3,000"),
    ]);
    let data = record_from_groups(&g).unwrap().unwrap();
    assert_eq!(
        data,
        Data {
            date: Date { year: 2024, month: 6, day: 1 },
            business_type: BusinessType::Unclassified,
            business_name: None,
            cash_in: 2_000,
            cash_out: 1_000,
            balance: 3_000,
            remarks: None,
            receipt_num: None,
        }
    );
}

#[test]
fn record_from_groups_without_a_match_is_no_record() {
    assert_eq!(record_from_groups(&None), Ok(None));
}

#[test]
fn unreadable_field_outranks_a_missing_one() {
    let g = groups(&[Some("w"), Some("1"), None, Some("d"), Some("x"), Some("1"), Some("2")]);
    assert_eq!(record_from_groups(&g), Err(ReportError::FieldParse));
    let g = groups(&[Some("w"), Some("1"), None, Some("d"), Some("1"), Some("1"), Some("2")]);
    assert_eq!(record_from_groups(&g), Err(ReportError::IncompleteRecord));
    let g = groups(&[Some("w")]);
    assert_eq!(record_from_groups(&g), Err(ReportError::IncompleteRecord));
}

#[test]
fn parse_amount_strips_thousands_separators() {
    assert_eq!(parse_amount("100,000"), Some(100_000));
    assert_eq!(parse_amount("0"), Some(0));
    assert_eq!(parse_amount("1,2,3"), Some(123));
    assert_eq!(parse_amount(",7,"), Some(7));
    assert_eq!(parse_amount("4,294,967,295"), Some(u32::MAX));
}

#[test]
fn parse_amount_rejects_what_is_no_number() {
    assert_eq!(parse_amount(""), None);
    assert_eq!(parse_amount(",,,"), None);
    assert_eq!(parse_amount("12.5"), None);
    assert_eq!(parse_amount("1 000"), None);
    assert_eq!(parse_amount("4,294,967,296"), None);
    assert_eq!(parse_amount("abc"), None);
}

#[test]
fn extract_tables_skips_headers_and_keeps_order() {
    let text = lines(&[
        "번호|거래일시|적요|출금액|입금액|잔액|메모|거래구분|거래점",
        "2|2024.01.20 10:00:00|Shop|30,000|0|570,000||CARD|Seoul|",
        "",
        "1|2024.01.15 09:00:00|ABC|0|100,000|600,000|note|TYPE|LOC",
        "합계 2건",
    ]);
    let table = extract_tables(&text).unwrap();
    assert_eq!(table.len(), 2);
    assert_eq!(table[0].date.day, 20);
    assert_eq!(table[0].cash_out, 30_000);
    assert_eq!(table[1].date.day, 15);
    assert_eq!(table[1].cash_in, 100_000);
}

#[test]
fn extract_tables_of_nothing_is_empty() {
    assert_eq!(extract_tables(&Vec::new()), Ok(Vec::new()));
    assert_eq!(extract_tables(&lines(&["", "header"])), Ok(Vec::new()));
}

#[test]
fn one_bad_line_fails_the_whole_batch() {
    let text = lines(&[
        "1|2024.01.15 09:00:00|ABC|0|100,000|600,000|note|TYPE|LOC",
        "2|2024.01.20 10:00:00|Shop|99,999,999,999|0|570,000||CARD|Seoul|",
        "3|2024.01.21 10:00:00|Shop|1|0|569,999||CARD|Seoul|",
    ]);
    assert_eq!(extract_tables(&text), Err(ReportError::FieldParse));
    assert_eq!(extract_with(&pipe(), &text), Err(ReportError::FieldParse));
}

#[test]
fn invalid_pattern_is_a_pattern_error() {
    let text = lines(&["1|2024.01.15 09:00:00|ABC|0|100,000|600,000|note|TYPE|LOC"]);
    assert_eq!(extract_lines("(unclosed", &text), Err(ReportError::Pattern));
    assert_eq!(extract_lines(pipe_pattern(), &text).unwrap().len(), 1);
}

#[test]
fn extract_lines_with_the_blank_pattern() {
    let text = lines(&[
        "번호 거래일시 적요 출금액 입금액 잔액 메모 거래구분 거래점",
        "2 2024.06.20 10:00:00 Shop 30,000 0 570,000 CARD Seoul",
        "1 2024.06.15 09:00:00 ABC 0 100,000 600,000 (memo) TYPE LOC (x)",
    ]);
    let table = extract_lines(blank_pattern(), &text).unwrap();
    assert_eq!(table.len(), 2);
    assert_eq!((table[0].cash_out, table[0].cash_in, table[0].balance), (30_000, 0, 570_000));
    assert_eq!((table[1].cash_out, table[1].cash_in, table[1].balance), (0, 100_000, 600_000));
}

#[test]
fn date_is_found_inside_a_text() {
    assert_eq!(Date::new("2024.01.15 09:00:00"), Some(Date { year: 2024, month: 1, day: 15 }));
    assert_eq!(Date::new("on 1999.12.31."), Some(Date { year: 1999, month: 12, day: 31 }));
    assert_eq!(Date::new("0000.01.01"), Some(Date { year: 0, month: 1, day: 1 }));
}

#[test]
fn missing_or_invalid_date_is_a_failure() {
    assert_eq!(Date::new(""), None);
    assert_eq!(Date::new("2024-01-15"), None);
    assert_eq!(Date::new("24.01.15"), None);
    assert_eq!(Date::new("2024.13.01"), None);
    assert_eq!(Date::new("2024.01.00"), None);
    assert_eq!(Date::new("2024.01.32"), None);
    assert_eq!(Date::new("٢٠٢٤.01.15"), None);
}

#[test]
fn date_from_groups_reads_groups_1_2_3() {
    let g = groups(&[Some("2024.07.09"), Some("2024"), Some("07"), Some("09")]);
    assert_eq!(Date::from_groups(&g), Some(Date { year: 2024, month: 7, day: 9 }));
    let g = groups(&[Some("x"), Some("70000"), Some("07"), Some("09")]);
    assert_eq!(Date::from_groups(&g), None);
    let g = groups(&[Some("x"), Some("2024"), None, Some("09")]);
    assert_eq!(Date::from_groups(&g), None);
    assert_eq!(Date::from_groups(&None), None);
}

#[test]
fn builder_needs_date_amounts_and_balance() {
    let date = Date { year: 2024, month: 1, day: 15 };
    assert_eq!(DataBuilder::new().build(), Err("No DATE provided"));
    assert_eq!(DataBuilder::new().date(date).build(), Err("No CASH_IN provided"));
    assert_eq!(DataBuilder::new().date(date).cash_in(1).build(), Err("No CASH_OUT provided"));
    assert_eq!(
        DataBuilder::new().date(date).cash_in(1).cash_out(2).build(),
        Err("No BALANCE provided")
    );
    assert_eq!(
        DataBuilder::new().cash_in(1).cash_out(2).balance(3).build(),
        Err("No DATE provided")
    );
}

#[test]
fn builder_defaults_the_optional_fields() {
    let date = Date { year: 2024, month: 1, day: 15 };
    let data = DataBuilder::new().date(date).cash_in(1).cash_out(2).balance(3).build().unwrap();
    assert_eq!(
        data,
        Data {
            date,
            business_type: BusinessType::Unclassified,
            business_name: None,
            cash_in: 1,
            cash_out: 2,
            balance: 3,
            remarks: None,
            receipt_num: None,
        }
    );
}

#[test]
fn builder_keeps_every_field_it_is_given() {
    let date = Date { year: 2023, month: 12, day: 31 };
    let mut builder = DataBuilder::new();
    builder
        .date(date)
        .business_type(BusinessType::PledgedBusiness)
        .business_name("개강파티")
        .cash_in(10)
        .cash_out(20)
        .balance(30)
        .remarks("note")
        .receipt_num("R-1");
    let data = builder.build().unwrap();
    assert_eq!(data.business_type, BusinessType::PledgedBusiness);
    assert_eq!(data.business_name.as_deref(), Some("개강파티"));
    assert_eq!(data.remarks.as_deref(), Some("note"));
    assert_eq!(data.receipt_num.as_deref(), Some("R-1"));
    assert_eq!((data.cash_in, data.cash_out, data.balance), (10, 20, 30));
    assert_eq!(builder.build().unwrap(), data);
}

#[test]
fn later_values_replace_earlier_ones() {
    let mut builder = DataBuilder::new();
    builder.cash_in(1).cash_in(2).date(Date { year: 1, month: 1, day: 1 });
    builder.date(Date { year: 2, month: 2, day: 2 }).cash_out(0).balance(0);
    let data = builder.build().unwrap();
    assert_eq!(data.cash_in, 2);
    assert_eq!(data.date, Date { year: 2, month: 2, day: 2 });
}

#[test]
fn business_types_have_their_labels() {
    assert_eq!(BusinessType::default(), BusinessType::Unclassified);
    assert_eq!(BusinessType::Unclassified.variant_name(), "미정");
    assert_eq!(BusinessType::GeneralBusiness.variant_name(), "일반사업");
    assert_eq!(BusinessType::PledgedBusiness.variant_name(), "공약사업");
    assert_eq!(BusinessType::OngoingBusiness.variant_name(), "상시사업");
}

#[test]
fn errors_describe_themselves() {
    let all = [
        ReportError::Pattern,
        ReportError::FieldParse,
        ReportError::IncompleteRecord,
        ReportError::PeriodBoundary,
        ReportError::MonthOutOfRange,
    ];
    for (i, a) in all.iter().enumerate() {
        assert!(!a.describe().is_empty());
        for b in &all[i + 1..] {
            assert_ne!(a.describe(), b.describe());
        }
    }
}
