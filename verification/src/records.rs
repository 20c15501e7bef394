//! The records that the market-data service answers with.

use crate::price::{Price, PriceView};
use vstd::hash_map::StringHashMap;
use vstd::prelude::*;

verus! {

/// A coin as the list of all coins names it.
#[derive(Debug, PartialEq, Eq)]
pub struct Coin {
    pub id: String,
    pub name: String,
    pub symbol: String,
    pub rank: u32,
}

/// What a [`Coin`] stands for.
pub struct CoinView {
    pub id: Seq<char>,
    pub name: Seq<char>,
    pub symbol: Seq<char>,
    pub rank: nat,
}

impl View for Coin {
    type V = CoinView;

    open spec fn view(&self) -> CoinView {
        CoinView { id: self.id@, name: self.name@, symbol: self.symbol@, rank: self.rank as nat }
    }
}

impl Coin {
    /// A coin from its fields.
    pub fn new(id: String, name: String, symbol: String, rank: u32) -> (coin: Coin)
        ensures
            coin@ == (CoinView { id: id@, name: name@, symbol: symbol@, rank: rank as nat }),
    {
        Coin { id, name, symbol, rank }
    }
}

/// A coin with its description.
#[derive(Debug, PartialEq, Eq)]
pub struct CoinDetail {
    pub id: String,
    pub name: String,
    pub symbol: String,
    pub description: String,
    pub rank: u32,
}

/// What a [`CoinDetail`] stands for.
pub struct CoinDetailView {
    pub id: Seq<char>,
    pub name: Seq<char>,
    pub symbol: Seq<char>,
    pub description: Seq<char>,
    pub rank: nat,
}

impl View for CoinDetail {
    type V = CoinDetailView;

    open spec fn view(&self) -> CoinDetailView {
        CoinDetailView {
            id: self.id@,
            name: self.name@,
            symbol: self.symbol@,
            description: self.description@,
            rank: self.rank as nat,
        }
    }
}

impl CoinDetail {
    /// A coin's details from their fields.
    pub fn new(id: String, name: String, symbol: String, description: String, rank: u32) -> (detail:
        CoinDetail)
        ensures
            detail@ == (CoinDetailView {
                id: id@,
                name: name@,
                symbol: symbol@,
                description: description@,
                rank: rank as nat,
            }),
    {
        CoinDetail { id, name, symbol, description, rank }
    }
}

/// A coin's price in one currency.
#[derive(Debug, PartialEq, Eq)]
pub struct MarketQuote {
    pub price: Price,
}

/// What a [`MarketQuote`] stands for.
pub struct MarketQuoteView {
    pub price: PriceView,
}

impl View for MarketQuote {
    type V = MarketQuoteView;

    open spec fn view(&self) -> MarketQuoteView {
        MarketQuoteView { price: self.price@ }
    }
}

impl MarketQuote {
    /// A quote of the given price.
    pub fn new(price: Price) -> (quote: MarketQuote)
        ensures
            quote@ == (MarketQuoteView { price: price@ }),
    {
        MarketQuote { price }
    }
}

/// A coin with its quotes, each filed under a currency code.
pub struct TickerResponse {
    pub id: String,
    pub name: String,
    pub symbol: String,
    pub rank: u32,
    pub quotes: StringHashMap<MarketQuote>,
}

/// What a [`TickerResponse`] stands for.
pub struct TickerView {
    pub id: Seq<char>,
    pub name: Seq<char>,
    pub symbol: Seq<char>,
    pub rank: nat,
    pub quotes: Map<Seq<char>, MarketQuoteView>,
}

impl View for TickerResponse {
    type V = TickerView;

    open spec fn view(&self) -> TickerView {
        TickerView {
            id: self.id@,
            name: self.name@,
            symbol: self.symbol@,
            rank: self.rank as nat,
            quotes: self.quotes@.map_values(|quote: MarketQuote| quote@),
        }
    }
}

impl TickerResponse {
    /// A ticker without quotes.
    pub fn new(id: String, name: String, symbol: String, rank: u32) -> (ticker: TickerResponse)
        ensures
            ticker@ == (TickerView {
                id: id@,
                name: name@,
                symbol: symbol@,
                rank: rank as nat,
                quotes: Map::empty(),
            }),
    {
        let ticker = TickerResponse { id, name, symbol, rank, quotes: StringHashMap::new() };
        assert(ticker@.quotes =~= Map::empty());
        ticker
    }

    /// Files a quote under a currency code. A quote that was filed under the
    /// same code before is replaced.
    pub fn insert_quote(&mut self, code: String, quote: MarketQuote)
        ensures
            final(self)@ == (TickerView {
                quotes: old(self)@.quotes.insert(code@, quote@),
                ..old(self)@
            }),
    {
        self.quotes.insert(code, quote);
        assert(self@.quotes =~= old(self)@.quotes.insert(code@, quote@));
    }

    /// The quote filed under exactly this currency code, if there is one.
    pub fn quote(&self, code: &str) -> (found: Option<&MarketQuote>)
        ensures
            self@.quotes.contains_key(code@) <==> found is Some,
            found matches Some(quote) ==> quote@ == self@.quotes[code@],
    {
        self.quotes.get(code)
    }
}

} // verus!
