use transaction_manager::cell::cell_name;
use transaction_manager::text::{decimal_string, parse_decimal};

/// Splits a cell name into its letters and its row digits.
fn split_name(name: &str) -> (String, String) {
    let letters: String = name.chars().take_while(|c| c.is_ascii_uppercase()).collect();
    let digits: String = name.chars().skip(letters.chars().count()).collect();
    (letters, digits)
}

/// Reads column letters back: every letter is a digit from 1 to 26.
fn column_of(letters: &str) -> u64 {
    let mut value: u64 = 0;
    for c in letters.chars() {
        value = value * 26 + (c as u64 - 'A' as u64) + 1;
    }
    value - 1
}

#[test]
fn first_cell_is_a1() {
    assert_eq!(cell_name(0, 0), "A1");
}

#[test]
fn last_single_letter_column() {
    assert_eq!(cell_name(0, 25), "Z1");
}

#[test]
fn first_double_letter_column_is_aa_not_ba() {
    assert_eq!(cell_name(0, 26), "AA1");
    assert_ne!(cell_name(0, 26), "BA1");
}

#[test]
fn last_double_letter_column() {
    assert_eq!(cell_name(0, 701), "ZZ1");
}

#[test]
fn first_triple_letter_column() {
    assert_eq!(cell_name(0, 702), "AAA1");
}

#[test]
fn rows_count_from_one() {
    assert_eq!(cell_name(9, 3), "D10");
    assert_eq!(cell_name(6, 5), "F7");
    assert_eq!(cell_name(1_048_575, 16_383), "XFD1048576");
}

#[test]
fn letters_decode_to_the_column() {
    let mut col: u32 = 0;
    while col < 20_000 {
        let name = cell_name(0, col);
        let (letters, digits) = split_name(&name);
        assert_eq!(digits, "1");
        assert_eq!(column_of(&letters), col as u64, "column {col} became {name}");
        col += 1;
    }
}

#[test]
fn letter_count_grows_at_26_702_and_18278() {
    let cases: [(u32, usize); 8] =
        [(0, 1), (25, 1), (26, 2), (701, 2), (702, 3), (18_277, 3), (18_278, 4), (475_253, 4)];
    for (col, letters) in cases {
        assert_eq!(split_name(&cell_name(0, col)).0.len(), letters, "column {col}");
    }
    assert_eq!(split_name(&cell_name(0, 475_254)).0, "AAAAA");
}

#[test]
fn largest_row_and_column_have_a_name() {
    let name = cell_name(u32::MAX, u32::MAX);
    let (letters, digits) = split_name(&name);
    assert_eq!(digits, "4294967296");
    assert_eq!(column_of(&letters), u32::MAX as u64);
    assert_eq!(letters.len(), 7);
}

#[test]
fn decimal_string_writes_plain_numerals() {
    assert_eq!(decimal_string(0), "0");
    assert_eq!(decimal_string(7), "7");
    assert_eq!(decimal_string(10), "10");
    assert_eq!(decimal_string(2024), "2024");
    assert_eq!(decimal_string(u64::MAX), "18446744073709551615");
}

#[test]
fn parse_decimal_reads_what_decimal_string_writes() {
    for n in [0u32, 1, 9, 10, 99, 100, 65_535, 100_000, u32::MAX] {
        assert_eq!(parse_decimal(&decimal_string(n as u64), u32::MAX), Some(n));
    }
}

#[test]
fn parse_decimal_accepts_sign_and_leading_zeros() {
    assert_eq!(parse_decimal("007", 255), Some(7));
    assert_eq!(parse_decimal("+5", 255), Some(5));
    assert_eq!(parse_decimal("0", 0), Some(0));
}

#[test]
fn parse_decimal_rejects_what_is_no_numeral() {
    assert_eq!(parse_decimal("", 255), None);
    assert_eq!(parse_decimal("+", 255), None);
    assert_eq!(parse_decimal("-1", 255), None);
    assert_eq!(parse_decimal("12a", 255), None);
    assert_eq!(parse_decimal("1 2", 255), None);
    assert_eq!(parse_decimal("++1", 255), None);
    assert_eq!(parse_decimal("١٢", 255), None);
}

#[test]
fn parse_decimal_respects_the_bound() {
    assert_eq!(parse_decimal("255", 255), Some(255));
    assert_eq!(parse_decimal("256", 255), None);
    assert_eq!(parse_decimal("4294967295", u32::MAX), Some(u32::MAX));
    assert_eq!(parse_decimal("4294967296", u32::MAX), None);
    assert_eq!(parse_decimal("99999999999999999999999999", u32::MAX), None);
}
