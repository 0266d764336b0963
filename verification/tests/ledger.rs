use transaction_manager::error::ReportError;
use transaction_manager::ledger::separate_data;
use transaction_manager::models::data::{BusinessType, Data, Date};

fn record(month: u8, day: u8, cash_in: u32, cash_out: u32) -> Data {
    Data {
        date: Date { year: 2024, month, day },
        business_type: BusinessType::Unclassified,
        business_name: None,
        cash_in,
        cash_out,
        balance: 0,
        remarks: None,
        receipt_num: None,
    }
}

#[test]
fn first_half_has_a_bucket_for_every_month() {
    let buckets = separate_data(vec![record(1, 5, 1, 0)]).unwrap();
    let months: Vec<u8> = buckets.iter().map(|b| b.0).collect();
    assert_eq!(months, vec![1, 2, 3, 4, 5, 6]);
    assert_eq!(buckets[0].1.len(), 1);
    for bucket in &buckets[1..] {
        assert!(bucket.1.is_empty());
    }
}

#[test]
fn second_half_runs_from_june_to_december() {
    let buckets = separate_data(vec![record(12, 1, 0, 1), record(6, 30, 1, 0)]).unwrap();
    let months: Vec<u8> = buckets.iter().map(|b| b.0).collect();
    assert_eq!(months, vec![6, 7, 8, 9, 10, 11, 12]);
    assert_eq!(buckets[0].1.len(), 1);
    assert_eq!(buckets[6].1.len(), 1);
}

#[test]
fn no_record_is_dropped_or_repeated() {
    let table = vec![
        record(6, 1, 9, 0),
        record(3, 3, 8, 0),
        record(3, 2, 7, 0),
        record(5, 1, 6, 0),
        record(2, 9, 5, 0),
        record(3, 1, 4, 0),
        record(1, 31, 3, 0),
        record(1, 2, 2, 0),
        record(1, 1, 1, 0),
    ];
    let buckets = separate_data(table.clone()).unwrap();
    let total: usize = buckets.iter().map(|b| b.1.len()).sum();
    assert_eq!(total, table.len());
    let mut seen: Vec<u32> = buckets.iter().flat_map(|b| b.1.iter().map(|d| d.cash_in)).collect();
    seen.sort();
    assert_eq!(seen, vec![1, 2, 3, 4, 5, 6, 7, 8, 9]);
    for (month, records) in &buckets {
        for data in records {
            assert_eq!(data.date.month, *month);
        }
    }
    let sizes: Vec<usize> = buckets.iter().map(|b| b.1.len()).collect();
    assert_eq!(sizes, vec![3, 1, 3, 0, 1, 1]);
}

#[test]
fn buckets_hold_their_records_from_the_end_of_the_log_backwards() {
    let table = vec![record(1, 20, 3, 0), record(2, 1, 9, 0), record(1, 10, 2, 0), record(1, 5, 1, 0)];
    let buckets = separate_data(table).unwrap();
    let january: Vec<u8> = buckets[0].1.iter().map(|d| d.date.day).collect();
    assert_eq!(january, vec![5, 10, 20]);
    assert_eq!(buckets[1].1[0].date.day, 1);
}

#[test]
fn first_month_three_is_a_period_boundary_error() {
    assert_eq!(separate_data(vec![record(3, 1, 1, 0)]), Err(ReportError::PeriodBoundary));
    assert_eq!(
        separate_data(vec![record(3, 9, 1, 0), record(3, 1, 1, 0)]),
        Err(ReportError::PeriodBoundary)
    );
}

#[test]
fn the_last_record_of_the_log_decides_the_half_year() {
    assert_eq!(
        separate_data(vec![record(1, 1, 1, 0), record(2, 1, 1, 0)]),
        Err(ReportError::PeriodBoundary)
    );
    assert!(separate_data(vec![record(2, 1, 1, 0), record(1, 1, 1, 0)]).is_ok());
}

#[test]
fn every_other_first_month_is_refused_too() {
    for month in 0..=20u8 {
        let result = separate_data(vec![record(month, 1, 1, 0)]);
        if month == 1 || month == 6 {
            assert!(result.is_ok(), "month {month}");
        } else {
            assert_eq!(result, Err(ReportError::PeriodBoundary), "month {month}");
        }
    }
}

#[test]
fn empty_log_has_no_half_year() {
    assert_eq!(separate_data(Vec::new()), Err(ReportError::PeriodBoundary));
}

#[test]
fn record_outside_the_half_year_is_refused() {
    assert_eq!(
        separate_data(vec![record(7, 1, 1, 0), record(1, 1, 1, 0)]),
        Err(ReportError::MonthOutOfRange)
    );
    assert_eq!(
        separate_data(vec![record(5, 1, 1, 0), record(6, 1, 1, 0)]),
        Err(ReportError::MonthOutOfRange)
    );
    assert_eq!(
        separate_data(vec![record(0, 1, 1, 0), record(1, 1, 1, 0)]),
        Err(ReportError::MonthOutOfRange)
    );
    assert_eq!(
        separate_data(vec![record(13, 1, 1, 0), record(6, 1, 1, 0)]),
        Err(ReportError::MonthOutOfRange)
    );
}

#[test]
fn june_belongs_to_both_halves() {
    assert!(separate_data(vec![record(6, 1, 1, 0), record(1, 1, 1, 0)]).is_ok());
    assert!(separate_data(vec![record(12, 1, 1, 0), record(6, 1, 1, 0)]).is_ok());
}
