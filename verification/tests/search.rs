use coinboard::action::Action;
use coinboard::app::{App, Effect, Mode};
use coinboard::rows::PriceRow;
use coinboard::search::normalize;

fn board() -> App {
    App::new(&[PriceRow::new("BTCUSDT", "1"), PriceRow::new("ETHUSDT", "2")])
}

#[test]
fn normalize_trims_and_raises_case() {
    assert_eq!(normalize("  btc "), "BTC");
}

#[test]
fn normalize_of_nothing_is_nothing() {
    assert_eq!(normalize(""), "");
    assert_eq!(normalize("   "), "");
    assert_eq!(normalize("\t\n"), "");
}

#[test]
fn normalize_keeps_inner_space() {
    assert_eq!(normalize(" b t c "), "B T C");
}

#[test]
fn normalize_leaves_upper_case_alone() {
    assert_eq!(normalize("ETH"), "ETH");
    assert_eq!(normalize("1inch"), "1INCH");
}

#[test]
fn normalize_trims_unicode_space_and_raises_unicode_letters() {
    assert_eq!(normalize("\u{2003}\u{e9}\u{a0}"), "\u{c9}");
    assert_eq!(normalize("stra\u{df}e"), "STRASSE");
}

#[test]
fn commit_searches_for_the_normalized_line() {
    let mut app = board();
    assert_eq!(app.update(Action::SearchFocus), Effect::OpenSearch);
    assert_eq!(app.mode(), Mode::SearchEdit);
    let action = app.commit_search("  btc ");
    assert_eq!(action, Action::SearchCoin(String::from("BTC")));
    assert_eq!(app.mode(), Mode::Normal);
    assert_eq!(app.search_coin(), None);
    assert_eq!(app.update(action), Effect::Fetch);
    assert_eq!(app.search_coin(), Some(&String::from("BTC")));
}

#[test]
fn commit_of_an_empty_line_clears_the_filter() {
    let mut app = board();
    app.update(Action::SearchCoin(String::from("ETH")));
    assert_eq!(app.search_coin(), Some(&String::from("ETH")));
    app.update(Action::SearchFocus);
    let action = app.commit_search("");
    assert_eq!(action, Action::SearchCoin(String::new()));
    assert_eq!(app.update(action), Effect::Fetch);
    assert_eq!(app.search_coin(), None);
}

#[test]
fn commit_of_blanks_clears_the_filter() {
    let mut app = board();
    app.update(Action::SearchCoin(String::from("ETH")));
    app.update(Action::SearchFocus);
    let action = app.commit_search("   ");
    app.update(action);
    assert_eq!(app.search_coin(), None);
}

#[test]
fn commit_in_normal_mode_stays_in_normal_mode() {
    let mut app = board();
    let action = app.commit_search("sol");
    assert_eq!(action, Action::SearchCoin(String::from("SOL")));
    assert_eq!(app.mode(), Mode::Normal);
}
