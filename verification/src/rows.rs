//! Price rows, the filter that selects them, and the column widths derived
//! from them.

use unicode_width::UnicodeWidthStr;
use vstd::prelude::*;

verus! {

/// One quoted pair: its symbol and its price as the provider printed it.
#[derive(Debug, PartialEq, Eq)]
pub struct PriceRow {
    pub symbol: String,
    pub price: String,
}

/// What a `PriceRow` stands for: two texts.
pub struct PriceRowView {
    pub symbol: Seq<char>,
    pub price: Seq<char>,
}

impl View for PriceRow {
    type V = PriceRowView;

    open spec fn view(&self) -> PriceRowView {
        PriceRowView { symbol: self.symbol@, price: self.price@ }
    }
}

impl Clone for PriceRow {
    fn clone(&self) -> (copy: Self)
        ensures
            copy@ == self@,
    {
        PriceRow { symbol: self.symbol.clone(), price: self.price.clone() }
    }
}

impl PriceRow {
    /// A row from two borrowed texts.
    pub fn new(symbol: &str, price: &str) -> (row: PriceRow)
        ensures
            row@ == (PriceRowView { symbol: symbol@, price: price@ }),
    {
        PriceRow { symbol: symbol.to_owned(), price: price.to_owned() }
    }
}

/// The rows of a table, each taken by its view.
pub open spec fn views(rows: Seq<PriceRow>) -> Seq<PriceRowView> {
    rows.map_values(|row: PriceRow| row@)
}

/// The symbols of a table, in order.
pub open spec fn symbols(rows: Seq<PriceRowView>) -> Seq<Seq<char>> {
    rows.map_values(|row: PriceRowView| row.symbol)
}

/// The price texts of a table, in order.
pub open spec fn prices(rows: Seq<PriceRowView>) -> Seq<Seq<char>> {
    rows.map_values(|row: PriceRowView| row.price)
}

/// The quote asset in which every displayed pair is settled.
pub open spec fn settlement() -> Seq<char> {
    seq!['U', 'S', 'D', 'T']
}

/// The view of an optional coin filter.
pub open spec fn coin_view(coin: Option<&String>) -> Option<Seq<char>> {
    match coin {
        Some(text) => Some(text@),
        None => None,
    }
}

/// Whether a pair with this symbol is displayed under the filter `coin`: the
/// symbol ends with the settlement asset and, with a filter, starts with it.
pub open spec fn keeps(symbol: Seq<char>, coin: Option<Seq<char>>) -> bool {
    &&& settlement().is_suffix_of(symbol)
    &&& coin matches Some(prefix) ==> prefix.is_prefix_of(symbol)
}

/// The rows of `all` that are displayed under the filter `coin`, in the order
/// in which the provider gave them.
pub open spec fn select_rows(all: Seq<PriceRowView>, coin: Option<Seq<char>>) -> Seq<PriceRowView> {
    all.filter(|row: PriceRowView| keeps(row.symbol, coin))
}

/// A selection holds no more rows than the table it is taken from.
pub proof fn lemma_select_rows_len(all: Seq<PriceRowView>, coin: Option<Seq<char>>)
    ensures
        select_rows(all, coin).len() <= all.len(),
{
    all.lemma_filter_len(|row: PriceRowView| keeps(row.symbol, coin));
}

/// Calls `str::starts_with` with a string pattern: true exactly when the
/// characters of `prefix` are the first characters of `text`.
#[verifier::external_body]
fn has_prefix(text: &str, prefix: &str) -> (found: bool)
    ensures
        found == prefix@.is_prefix_of(text@),
{
    text.starts_with(prefix)
}

/// Calls `str::ends_with` with a string pattern: true exactly when the
/// characters of `suffix` are the last characters of `text`.
#[verifier::external_body]
fn has_suffix(text: &str, suffix: &str) -> (found: bool)
    ensures
        found == suffix@.is_suffix_of(text@),
{
    text.ends_with(suffix)
}

/// Decides `keeps` for one symbol.
pub fn is_displayed(symbol: &str, coin: Option<&String>) -> (kept: bool)
    ensures
        kept == keeps(symbol@, coin_view(coin)),
{
    proof {
        reveal_strlit("USDT");
    }
    match coin {
        Some(prefix) => has_prefix(symbol, prefix.as_str()) && has_suffix(symbol, "USDT"),
        None => has_suffix(symbol, "USDT"),
    }
}

/// Keeps the rows of `all` that are displayed under the filter `coin`.
pub fn filter_rows(all: &[PriceRow], coin: Option<&String>) -> (rows: Vec<PriceRow>)
    ensures
        views(rows@) == select_rows(views(all@), coin_view(coin)),
{
    let ghost wanted = |row: PriceRowView| keeps(row.symbol, coin_view(coin));
    let mut rows: Vec<PriceRow> = Vec::new();
    proof {
        reveal(Seq::filter);
    }
    for i in 0..all.len()
        invariant
            wanted == (|row: PriceRowView| keeps(row.symbol, coin_view(coin))),
            views(rows@) == views(all@).take(i as int).filter(wanted),
    {
        proof {
            let seen = views(all@).take(i as int);
            assert(views(all@).take(i + 1) =~= seen.push(all@[i as int]@));
            seen.lemma_filter_push(all@[i as int]@, wanted);
        }
        if is_displayed(all[i].symbol.as_str(), coin) {
            rows.push(all[i].clone());
        }
    }
    assert(views(all@).take(all.len() as int) =~= views(all@));
    rows
}

/// The number of terminal columns that `text` occupies, as
/// `unicode_width::UnicodeWidthStr::width` counts them.
pub uninterp spec fn display_width(text: Seq<char>) -> usize;

/// Calls `unicode_width::UnicodeWidthStr::width` on `text`. The crate folds
/// over the characters of the text with tables of its own and reads nothing
/// else, so the result is named after the text alone; nothing more is claimed
/// of it.
#[verifier::external_body]
fn text_width(text: &str) -> (width: usize)
    ensures
        width == display_width(text@),
{
    UnicodeWidthStr::width(text)
}

/// The display width of each text, in order.
pub open spec fn measured(texts: Seq<Seq<char>>) -> Seq<usize> {
    texts.map_values(|text: Seq<char>| display_width(text))
}

/// The greatest of `widths`, zero when there are none.
pub open spec fn greatest(widths: Seq<usize>) -> usize
    decreases widths.len(),
{
    if widths.len() == 0 {
        0
    } else if widths.last() > greatest(widths.drop_last()) {
        widths.last()
    } else {
        greatest(widths.drop_last())
    }
}

/// `greatest` bounds every one of `widths` and, unless there are none, is one
/// of them.
pub proof fn lemma_greatest_is_greatest(widths: Seq<usize>)
    ensures
        forall|i: int| 0 <= i < widths.len() ==> widths[i] <= greatest(widths),
        widths.len() == 0 ==> greatest(widths) == 0,
        widths.len() > 0 ==> exists|i: int| 0 <= i < widths.len() && widths[i] == greatest(widths),
    decreases widths.len(),
{
    if widths.len() > 0 {
        let rest = widths.drop_last();
        lemma_greatest_is_greatest(rest);
        assert forall|i: int| 0 <= i < widths.len() implies widths[i] <= greatest(widths) by {
            if i < rest.len() {
                assert(widths[i] == rest[i]);
            }
        }
        if widths.last() > greatest(rest) || rest.len() == 0 {
            assert(widths[widths.len() - 1] == greatest(widths));
        } else {
            let k = choose|i: int| 0 <= i < rest.len() && rest[i] == greatest(rest);
            assert(widths[k] == greatest(widths));
        }
    }
}

/// A width as a column count of sixteen bits: its low sixteen bits.
pub open spec fn narrowed(width: usize) -> u16 {
    (width % 0x1_0000) as u16
}

/// The column widths of a table: the widest symbol and the widest price text,
/// each narrowed to sixteen bits.
pub open spec fn column_widths(rows: Seq<PriceRowView>) -> (u16, u16) {
    (
        narrowed(greatest(measured(symbols(rows)))),
        narrowed(greatest(measured(prices(rows)))),
    )
}

/// The width of a column whose cells have these display widths.
pub fn column_width(widths: &[usize]) -> (columns: u16)
    ensures
        columns == narrowed(greatest(widths@)),
{
    let mut most: usize = 0;
    for i in 0..widths.len()
        invariant
            most == greatest(widths@.take(i as int)),
    {
        assert(widths@.take(i + 1).drop_last() =~= widths@.take(i as int));
        if widths[i] > most {
            most = widths[i];
        }
    }
    assert(widths@.take(widths.len() as int) =~= widths@);
    (most % 0x1_0000) as u16
}

/// Measures the two columns of `items`.
pub fn constraint_len_calculator(items: &[PriceRow]) -> (lens: (u16, u16))
    ensures
        lens == column_widths(views(items@)),
{
    let ghost rows = views(items@);
    let mut symbol_widths: Vec<usize> = Vec::new();
    let mut price_widths: Vec<usize> = Vec::new();
    for i in 0..items.len()
        invariant
            rows == views(items@),
            symbol_widths@ == measured(symbols(rows)).take(i as int),
            price_widths@ == measured(prices(rows)).take(i as int),
    {
        symbol_widths.push(text_width(items[i].symbol.as_str()));
        price_widths.push(text_width(items[i].price.as_str()));
    }
    proof {
        assert(symbol_widths@ =~= measured(symbols(rows)));
        assert(price_widths@ =~= measured(prices(rows)));
    }
    (column_width(symbol_widths.as_slice()), column_width(price_widths.as_slice()))
}

} // verus!
