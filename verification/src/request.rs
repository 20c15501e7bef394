//! The commands of the client and the requests they put to the service.

use vstd::prelude::*;
use vstd::string::StringExecFns;

verus! {

/// What the user asks of the client.
#[derive(Debug, PartialEq, Eq)]
pub enum Commands {
    /// The list of all coins.
    ListCoins,
    /// The details of one coin.
    CoinDetails { coin_id: String },
    /// The price of one coin in a currency.
    CoinPrice { coin_id: String, target_currency: String },
    /// The prices of two coins in a currency, and which is the higher.
    CompareCoins { coin1_id: String, coin2_id: String, target_currency: String },
}

/// What a [`Commands`] value stands for.
pub enum CommandsView {
    ListCoins,
    CoinDetails { coin_id: Seq<char> },
    CoinPrice { coin_id: Seq<char>, target_currency: Seq<char> },
    CompareCoins { coin1_id: Seq<char>, coin2_id: Seq<char>, target_currency: Seq<char> },
}

impl View for Commands {
    type V = CommandsView;

    open spec fn view(&self) -> CommandsView {
        match self {
            Commands::ListCoins => CommandsView::ListCoins,
            Commands::CoinDetails { coin_id } => CommandsView::CoinDetails { coin_id: coin_id@ },
            Commands::CoinPrice { coin_id, target_currency } => CommandsView::CoinPrice {
                coin_id: coin_id@,
                target_currency: target_currency@,
            },
            Commands::CompareCoins {
                coin1_id,
                coin2_id,
                target_currency,
            } => CommandsView::CompareCoins {
                coin1_id: coin1_id@,
                coin2_id: coin2_id@,
                target_currency: target_currency@,
            },
        }
    }
}

/// One question to the service. Each is answered by a record of one shape:
/// a list of coins, the details of a coin, or a ticker.
#[derive(Debug, PartialEq, Eq)]
pub enum Request {
    /// All coins.
    Coins,
    /// The details of the coin `coin_id`.
    CoinDetail { coin_id: String },
    /// The ticker of the coin `coin_id`.
    Ticker { coin_id: String },
}

/// What a [`Request`] stands for.
pub enum RequestView {
    Coins,
    CoinDetail { coin_id: Seq<char> },
    Ticker { coin_id: Seq<char> },
}

impl View for Request {
    type V = RequestView;

    open spec fn view(&self) -> RequestView {
        match self {
            Request::Coins => RequestView::Coins,
            Request::CoinDetail { coin_id } => RequestView::CoinDetail { coin_id: coin_id@ },
            Request::Ticker { coin_id } => RequestView::Ticker { coin_id: coin_id@ },
        }
    }
}

/// The address that answers a request. A coin's identifier is put into the
/// address as it is.
pub open spec fn request_url(request: RequestView) -> Seq<char> {
    match request {
        RequestView::Coins => "https://api.coinpaprika.com/v1/coins"@,
        RequestView::CoinDetail { coin_id } => "https://api.coinpaprika.com/v1/coins/"@ + coin_id,
        RequestView::Ticker { coin_id } => "https://api.coinpaprika.com/v1/tickers/"@ + coin_id,
    }
}

impl Request {
    /// The address to fetch for this request.
    pub fn url(&self) -> (url: String)
        ensures
            url@ == request_url(self@),
    {
        match self {
            Request::Coins => String::from_str("https://api.coinpaprika.com/v1/coins"),
            Request::CoinDetail { coin_id } => {
                let mut url = String::from_str("https://api.coinpaprika.com/v1/coins/");
                url.append(coin_id.as_str());
                url
            },
            Request::Ticker { coin_id } => {
                let mut url = String::from_str("https://api.coinpaprika.com/v1/tickers/");
                url.append(coin_id.as_str());
                url
            },
        }
    }
}

} // verus!
