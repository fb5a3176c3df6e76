use coinboard::rows::{column_width, constraint_len_calculator, filter_rows, is_displayed, PriceRow};

fn table(pairs: &[(&str, &str)]) -> Vec<PriceRow> {
    pairs.iter().map(|(symbol, price)| PriceRow::new(symbol, price)).collect()
}

fn symbols(rows: &[PriceRow]) -> Vec<String> {
    rows.iter().map(|row| row.symbol.clone()).collect()
}

#[test]
fn row_holds_both_texts() {
    let row = PriceRow::new("BTCUSDT", "64250.5");
    assert_eq!(row.symbol, "BTCUSDT");
    assert_eq!(row.price, "64250.5");
}

#[test]
fn clone_keeps_both_texts() {
    let row = PriceRow::new("ETHUSDT", "3100");
    let copy = row.clone();
    assert_eq!(copy, row);
    assert_eq!(copy.symbol, "ETHUSDT");
    assert_eq!(copy.price, "3100");
}

#[test]
fn filter_with_coin_keeps_settled_pairs_of_that_coin() {
    let all = table(&[("BTCUSDT", "1"), ("ETHUSDT", "2"), ("BTCUSDC", "3")]);
    let coin = String::from("BTC");
    let rows = filter_rows(&all, Some(&coin));
    assert_eq!(symbols(&rows), vec!["BTCUSDT"]);
    assert_eq!(rows[0].price, "1");
}

#[test]
fn filter_without_coin_keeps_every_settled_pair() {
    let all = table(&[("BTCUSDT", "1"), ("ETHUSDT", "2"), ("BTCUSDC", "3")]);
    let rows = filter_rows(&all, None);
    assert_eq!(symbols(&rows), vec!["BTCUSDT", "ETHUSDT"]);
}

#[test]
fn filter_keeps_the_providers_order() {
    let all = table(&[("ZECUSDT", "1"), ("AAVEUSDT", "2"), ("BTCEUR", "3"), ("MKRUSDT", "4")]);
    let rows = filter_rows(&all, None);
    assert_eq!(symbols(&rows), vec!["ZECUSDT", "AAVEUSDT", "MKRUSDT"]);
}

#[test]
fn filter_of_nothing_is_nothing() {
    let rows = filter_rows(&[], None);
    assert!(rows.is_empty());
}

#[test]
fn filter_can_leave_nothing() {
    let all = table(&[("BTCUSDT", "1"), ("ETHUSDT", "2")]);
    let coin = String::from("DOGE");
    assert!(filter_rows(&all, Some(&coin)).is_empty());
}

#[test]
fn symbol_must_end_with_the_settlement_asset() {
    assert!(is_displayed("BTCUSDT", None));
    assert!(is_displayed("USDT", None));
    assert!(!is_displayed("BTCUSDC", None));
    assert!(!is_displayed("USDTBTC", None));
    assert!(!is_displayed("SDT", None));
    assert!(!is_displayed("", None));
    assert!(!is_displayed("btcusdt", None));
}

#[test]
fn symbol_must_start_with_the_coin() {
    let coin = String::from("BTC");
    assert!(is_displayed("BTCUSDT", Some(&coin)));
    assert!(is_displayed("BTCDOWNUSDT", Some(&coin)));
    assert!(!is_displayed("ETHUSDT", Some(&coin)));
    assert!(!is_displayed("WBTCUSDT", Some(&coin)));
    assert!(!is_displayed("BTCEUR", Some(&coin)));
    let lower = String::from("btc");
    assert!(!is_displayed("BTCUSDT", Some(&lower)));
}

#[test]
fn coin_longer_than_the_symbol_matches_nothing() {
    let coin = String::from("BTCUSDTX");
    assert!(!is_displayed("BTCUSDT", Some(&coin)));
}

#[test]
fn coin_may_overlap_the_settlement_asset() {
    let coin = String::from("USDT");
    assert!(is_displayed("USDT", Some(&coin)));
    let whole = String::from("BTCUSDT");
    assert!(is_displayed("BTCUSDT", Some(&whole)));
}

#[test]
fn widths_are_the_widest_symbol_and_the_widest_price() {
    let rows = table(&[("BTCUSDT", "123.45"), ("ETHUSDT", "6.7")]);
    assert_eq!(constraint_len_calculator(&rows), (7, 6));
}

#[test]
fn widths_come_from_different_rows() {
    let rows = table(&[("BTCUSDT", "1"), ("SHIBUSDT", "0.00002291"), ("OPUSDT", "2.5")]);
    assert_eq!(constraint_len_calculator(&rows), (8, 10));
}

#[test]
fn widths_of_an_empty_table_are_zero() {
    assert_eq!(constraint_len_calculator(&[]), (0, 0));
}

#[test]
fn widths_of_empty_texts_are_zero() {
    let rows = table(&[("", "")]);
    assert_eq!(constraint_len_calculator(&rows), (0, 0));
}

#[test]
fn wide_characters_take_two_columns() {
    let rows = table(&[("\u{FF22}\u{FF34}\u{FF23}", "1"), ("BTC", "\u{4E00}\u{4E8C}\u{4E09}\u{56DB}")]);
    assert_eq!(constraint_len_calculator(&rows), (6, 8));
}

#[test]
fn combining_marks_take_no_column() {
    let rows = table(&[("e\u{301}", "1")]);
    assert_eq!(constraint_len_calculator(&rows), (1, 1));
}

#[test]
fn widths_keep_the_low_sixteen_bits() {
    let long = "A".repeat(65_541);
    let rows = table(&[(long.as_str(), "1"), ("BTCUSDT", "22")]);
    assert_eq!(constraint_len_calculator(&rows), (5, 2));
    let full = "A".repeat(65_535);
    let rows = table(&[(full.as_str(), "1")]);
    assert_eq!(constraint_len_calculator(&rows), (65_535, 1));
    let over = "A".repeat(65_536);
    let rows = table(&[("BTC", over.as_str())]);
    assert_eq!(constraint_len_calculator(&rows), (3, 0));
}

#[test]
fn column_width_is_the_greatest_width() {
    assert_eq!(column_width(&[7, 3, 9, 2]), 9);
    assert_eq!(column_width(&[5]), 5);
    assert_eq!(column_width(&[4, 4]), 4);
    assert_eq!(column_width(&[0, 0, 0]), 0);
}

#[test]
fn column_width_of_no_cells_is_zero() {
    assert_eq!(column_width(&[]), 0);
}

#[test]
fn column_width_keeps_the_low_sixteen_bits() {
    assert_eq!(column_width(&[65_535]), 65_535);
    assert_eq!(column_width(&[65_536]), 0);
    assert_eq!(column_width(&[12, 65_537, 40]), 1);
    assert_eq!(column_width(&[131_072 + 9]), 9);
}
