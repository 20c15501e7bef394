//! One run of a command, as a dialogue. The library performs no request:
//! [`start`] and [`advance`] say what to do next, and whoever runs the
//! command fetches what a step asks for and hands back what came.

use crate::error::{not_found_text, CliError, CliErrorView};
use crate::price::{Price, PriceView};
use crate::records::{Coin, CoinDetail, CoinDetailView, CoinView, TickerResponse, TickerView};
use crate::report::{
    coin_views, comparison_report, comparison_report_text, comparison_result, detail_report,
    find_price,
    get_coin_details, list_coins, list_report, price_heading, price_line, price_report,
    price_report_text, quoted_price,
};
use crate::request::{Commands, CommandsView, Request, RequestView};
use crate::text::{currency_code, uppercased};
use vstd::prelude::*;

verus! {

/// What came of a request.
pub enum Reply {
    /// A list of coins.
    Coins(Vec<Coin>),
    /// The details of a coin.
    Detail(CoinDetail),
    /// A ticker.
    Ticker(TickerResponse),
    /// The request did not complete, or the service refused it.
    TransportFailed,
    /// The answer did not have the shape of the record that was asked for.
    DecodeFailed,
}

/// What a [`Reply`] stands for.
pub enum ReplyView {
    Coins(Seq<CoinView>),
    Detail(CoinDetailView),
    Ticker(TickerView),
    TransportFailed,
    DecodeFailed,
}

impl View for Reply {
    type V = ReplyView;

    open spec fn view(&self) -> ReplyView {
        match self {
            Reply::Coins(coins) => ReplyView::Coins(coin_views(coins@)),
            Reply::Detail(detail) => ReplyView::Detail(detail@),
            Reply::Ticker(ticker) => ReplyView::Ticker(ticker@),
            Reply::TransportFailed => ReplyView::TransportFailed,
            Reply::DecodeFailed => ReplyView::DecodeFailed,
        }
    }
}

/// A command under way: what it waits for, and what it needs of the command
/// and of earlier replies once the reply has come. `code` is the currency
/// code under which quotes are looked up.
#[derive(Debug, PartialEq, Eq)]
pub enum Session {
    /// The list of all coins waits for the coins.
    Listing,
    /// The details of a coin wait for them.
    Detailing,
    /// The price of a coin waits for the coin's ticker.
    Pricing { code: String },
    /// A comparison waits for the first coin's ticker.
    ComparingFirst { coin1_id: String, coin2_id: String, code: String },
    /// A comparison has the first coin's price and waits for the second
    /// coin's ticker.
    ComparingSecond { coin1_id: String, coin2_id: String, code: String, coin1_price: Price },
}

/// What a [`Session`] stands for.
pub enum SessionView {
    Listing,
    Detailing,
    Pricing { code: Seq<char> },
    ComparingFirst { coin1_id: Seq<char>, coin2_id: Seq<char>, code: Seq<char> },
    ComparingSecond {
        coin1_id: Seq<char>,
        coin2_id: Seq<char>,
        code: Seq<char>,
        coin1_price: PriceView,
    },
}

impl View for Session {
    type V = SessionView;

    open spec fn view(&self) -> SessionView {
        match self {
            Session::Listing => SessionView::Listing,
            Session::Detailing => SessionView::Detailing,
            Session::Pricing { code } => SessionView::Pricing { code: code@ },
            Session::ComparingFirst { coin1_id, coin2_id, code } => SessionView::ComparingFirst {
                coin1_id: coin1_id@,
                coin2_id: coin2_id@,
                code: code@,
            },
            Session::ComparingSecond {
                coin1_id,
                coin2_id,
                code,
                coin1_price,
            } => SessionView::ComparingSecond {
                coin1_id: coin1_id@,
                coin2_id: coin2_id@,
                code: code@,
                coin1_price: coin1_price@,
            },
        }
    }
}

/// What to do next in the run of a command.
#[derive(Debug, PartialEq, Eq)]
pub enum Step {
    /// Put the request to the service, and go on from `session` with the reply.
    Fetch { session: Session, request: Request },
    /// Show the output; the command has succeeded.
    Finish { output: String },
    /// Show nothing; the command has failed with the error.
    Fail { error: CliError },
}

/// What a [`Step`] stands for.
pub enum StepView {
    Fetch { session: SessionView, request: RequestView },
    Finish { output: Seq<char> },
    Fail { error: CliErrorView },
}

impl View for Step {
    type V = StepView;

    open spec fn view(&self) -> StepView {
        match self {
            Step::Fetch { session, request } => StepView::Fetch {
                session: session@,
                request: request@,
            },
            Step::Finish { output } => StepView::Finish { output: output@ },
            Step::Fail { error } => StepView::Fail { error: error@ },
        }
    }
}

/// The first step of a command: each begins with a request. A currency is
/// upper-cased here, once, into the code under which quotes are looked up.
pub open spec fn first_step(command: CommandsView) -> StepView {
    match command {
        CommandsView::ListCoins => StepView::Fetch {
            session: SessionView::Listing,
            request: RequestView::Coins,
        },
        CommandsView::CoinDetails { coin_id } => StepView::Fetch {
            session: SessionView::Detailing,
            request: RequestView::CoinDetail { coin_id },
        },
        CommandsView::CoinPrice { coin_id, target_currency } => StepView::Fetch {
            session: SessionView::Pricing { code: uppercased(target_currency) },
            request: RequestView::Ticker { coin_id },
        },
        CommandsView::CompareCoins { coin1_id, coin2_id, target_currency } => StepView::Fetch {
            session: SessionView::ComparingFirst {
                coin1_id,
                coin2_id,
                code: uppercased(target_currency),
            },
            request: RequestView::Ticker { coin_id: coin1_id },
        },
    }
}

/// The step with which a comparison goes on from a ticker: the request for
/// the second coin's ticker once the first coin's price is found, the report
/// once the second coin's is, and the error where the ticker holds no quote
/// under the code.
pub open spec fn next_step_of_comparison(session: SessionView, ticker: TickerView) -> StepView
    recommends
        session is ComparingFirst || session is ComparingSecond,
{
    match session {
        SessionView::ComparingFirst { coin1_id, coin2_id, code } => match quoted_price(
            coin1_id,
            ticker,
            code,
        ) {
            Ok(coin1_price) => StepView::Fetch {
                session: SessionView::ComparingSecond { coin1_id, coin2_id, code, coin1_price },
                request: RequestView::Ticker { coin_id: coin2_id },
            },
            Err(error) => StepView::Fail { error },
        },
        SessionView::ComparingSecond { coin1_id, coin2_id, code, coin1_price } => match quoted_price(
            coin2_id,
            ticker,
            code,
        ) {
            Ok(coin2_price) => StepView::Finish {
                output: comparison_report(coin1_id, coin2_id, code, coin1_price, coin2_price),
            },
            Err(error) => StepView::Fail { error },
        },
        _ => StepView::Fail { error: CliErrorView::Decode },
    }
}

/// The step that follows a reply. A request that failed fails the command
/// with the same failure. A record of another shape than the session waits
/// for counts as an answer of the wrong shape. Else the record is what the
/// session waited for, and the command reports on it or goes on.
pub open spec fn next_step(session: SessionView, reply: ReplyView) -> StepView {
    match reply {
        ReplyView::TransportFailed => StepView::Fail { error: CliErrorView::Transport },
        ReplyView::DecodeFailed => StepView::Fail { error: CliErrorView::Decode },
        ReplyView::Coins(coins) => match session {
            SessionView::Listing => StepView::Finish { output: list_report(coins) },
            _ => StepView::Fail { error: CliErrorView::Decode },
        },
        ReplyView::Detail(detail) => match session {
            SessionView::Detailing => StepView::Finish { output: detail_report(detail) },
            _ => StepView::Fail { error: CliErrorView::Decode },
        },
        ReplyView::Ticker(ticker) => match session {
            SessionView::Pricing { code } => StepView::Finish {
                output: price_report(ticker, code),
            },
            SessionView::ComparingFirst { .. } => next_step_of_comparison(session, ticker),
            SessionView::ComparingSecond { .. } => next_step_of_comparison(session, ticker),
            _ => StepView::Fail { error: CliErrorView::Decode },
        },
    }
}

/// Begins the run of a command.
pub fn start(command: Commands) -> (step: Step)
    ensures
        step@ == first_step(command@),
{
    match command {
        Commands::ListCoins => Step::Fetch { session: Session::Listing, request: Request::Coins },
        Commands::CoinDetails { coin_id } => Step::Fetch {
            session: Session::Detailing,
            request: Request::CoinDetail { coin_id },
        },
        Commands::CoinPrice { coin_id, target_currency } => {
            let code = currency_code(target_currency.as_str());
            Step::Fetch { session: Session::Pricing { code }, request: Request::Ticker { coin_id } }
        },
        Commands::CompareCoins { coin1_id, coin2_id, target_currency } => {
            let code = currency_code(target_currency.as_str());
            let request = Request::Ticker { coin_id: coin1_id.clone() };
            Step::Fetch { session: Session::ComparingFirst { coin1_id, coin2_id, code }, request }
        },
    }
}

/// Goes on with a comparison from the ticker it waited for.
fn advance_comparison(session: Session, ticker: &TickerResponse) -> (step: Step)
    requires
        session is ComparingFirst || session is ComparingSecond,
    ensures
        step@ == next_step_of_comparison(session@, ticker@),
{
    match session {
        Session::ComparingFirst { coin1_id, coin2_id, code } => {
            match find_price(coin1_id.as_str(), ticker, code.as_str()) {
                Ok(coin1_price) => {
                    let request = Request::Ticker { coin_id: coin2_id.clone() };
                    Step::Fetch {
                        session: Session::ComparingSecond { coin1_id, coin2_id, code, coin1_price },
                        request,
                    }
                },
                Err(error) => Step::Fail { error },
            }
        },
        Session::ComparingSecond { coin1_id, coin2_id, code, coin1_price } => {
            match find_price(coin2_id.as_str(), ticker, code.as_str()) {
                Ok(coin2_price) => Step::Finish {
                    output: comparison_report_text(
                        coin1_id.as_str(),
                        coin2_id.as_str(),
                        code.as_str(),
                        &coin1_price,
                        &coin2_price,
                    ),
                },
                Err(error) => Step::Fail { error },
            }
        },
        _ => Step::Fail { error: CliError::Decode },
    }
}

/// Goes on with a command from the reply to its last request.
pub fn advance(session: Session, reply: Reply) -> (step: Step)
    ensures
        step@ == next_step(session@, reply@),
{
    match reply {
        Reply::TransportFailed => Step::Fail { error: CliError::Transport },
        Reply::DecodeFailed => Step::Fail { error: CliError::Decode },
        Reply::Coins(coins) => match session {
            Session::Listing => Step::Finish { output: list_coins(&coins) },
            _ => Step::Fail { error: CliError::Decode },
        },
        Reply::Detail(detail) => match session {
            Session::Detailing => Step::Finish { output: get_coin_details(&detail) },
            _ => Step::Fail { error: CliError::Decode },
        },
        Reply::Ticker(ticker) => match session {
            Session::Pricing { code } => Step::Finish {
                output: price_report_text(&ticker, code.as_str()),
            },
            Session::ComparingFirst { .. } => advance_comparison(session, &ticker),
            Session::ComparingSecond { .. } => advance_comparison(session, &ticker),
            _ => Step::Fail { error: CliError::Decode },
        },
    }
}

/// A request that failed fails the command, whatever it waited for: with a
/// decode failure where the answer had the wrong shape, with a transport
/// failure where none came. The failing step carries no output.
pub proof fn failed_request_fails_command(session: SessionView)
    ensures
        next_step(session, ReplyView::DecodeFailed) == (StepView::Fail {
            error: CliErrorView::Decode,
        }),
        next_step(session, ReplyView::TransportFailed) == (StepView::Fail {
            error: CliErrorView::Transport,
        }),
{
}

/// The list of all coins asks for the coins and reports on them as they came.
pub proof fn list_command_reports_coins(coins: Seq<CoinView>)
    ensures
        first_step(CommandsView::ListCoins) == (StepView::Fetch {
            session: SessionView::Listing,
            request: RequestView::Coins,
        }),
        next_step(SessionView::Listing, ReplyView::Coins(coins)) == (StepView::Finish {
            output: list_report(coins),
        }),
{
}

/// The price of a coin succeeds on every ticker. It looks the quote up under
/// the upper-cased currency: where the ticker holds one under that code the
/// output gives its price, and where it holds none the output says so.
pub proof fn price_command_succeeds(
    coin_id: Seq<char>,
    target_currency: Seq<char>,
    ticker: TickerView,
)
    ensures
        first_step(CommandsView::CoinPrice { coin_id, target_currency }) == (StepView::Fetch {
            session: SessionView::Pricing { code: uppercased(target_currency) },
            request: RequestView::Ticker { coin_id },
        }),
        next_step(
            SessionView::Pricing { code: uppercased(target_currency) },
            ReplyView::Ticker(ticker),
        ) == (StepView::Finish { output: price_report(ticker, uppercased(target_currency)) }),
        ticker.quotes.contains_key(uppercased(target_currency)) ==> price_report(
            ticker,
            uppercased(target_currency),
        ) == price_heading(ticker, uppercased(target_currency)) + price_line(
            ticker,
            uppercased(target_currency),
        ),
        !ticker.quotes.contains_key(uppercased(target_currency)) ==> price_report(
            ticker,
            uppercased(target_currency),
        ) == price_heading(ticker, uppercased(target_currency)) + not_found_text(
            ticker.name,
            uppercased(target_currency),
        ) + "\n"@,
{
}

/// The step with which a comparison ends when the first coin's ticker is
/// `first` and, if it comes to ask for it, the second coin's is `second`.
pub open spec fn comparison_outcome(
    coin1_id: Seq<char>,
    coin2_id: Seq<char>,
    target_currency: Seq<char>,
    first: TickerView,
    second: TickerView,
) -> StepView {
    let waiting = SessionView::ComparingFirst {
        coin1_id,
        coin2_id,
        code: uppercased(target_currency),
    };
    match next_step(waiting, ReplyView::Ticker(first)) {
        StepView::Fetch { session, request } => next_step(session, ReplyView::Ticker(second)),
        last => last,
    }
}

/// A comparison needs both prices. Where the first coin's ticker holds no
/// quote under the code, the command fails on it and never asks for the
/// second; where only the second coin's holds none, it fails on that. Either
/// way the last step is a failure, which carries no output. Where both hold
/// one, the command succeeds with the comparison of the two prices.
pub proof fn comparison_needs_both_prices(
    coin1_id: Seq<char>,
    coin2_id: Seq<char>,
    target_currency: Seq<char>,
    first: TickerView,
    second: TickerView,
)
    ensures
        first_step(CommandsView::CompareCoins { coin1_id, coin2_id, target_currency }) == (
        StepView::Fetch {
            session: SessionView::ComparingFirst {
                coin1_id,
                coin2_id,
                code: uppercased(target_currency),
            },
            request: RequestView::Ticker { coin_id: coin1_id },
        }),
        !first.quotes.contains_key(uppercased(target_currency)) ==> next_step(
            SessionView::ComparingFirst { coin1_id, coin2_id, code: uppercased(target_currency) },
            ReplyView::Ticker(first),
        ) == (StepView::Fail {
            error: CliErrorView::PriceNotFound {
                coin_id: coin1_id,
                currency: uppercased(target_currency),
            },
        }),
        !first.quotes.contains_key(uppercased(target_currency)) ==> comparison_outcome(
            coin1_id,
            coin2_id,
            target_currency,
            first,
            second,
        ) == (StepView::Fail {
            error: CliErrorView::PriceNotFound {
                coin_id: coin1_id,
                currency: uppercased(target_currency),
            },
        }),
        first.quotes.contains_key(uppercased(target_currency)) && !second.quotes.contains_key(
            uppercased(target_currency),
        ) ==> comparison_outcome(coin1_id, coin2_id, target_currency, first, second) == (
        StepView::Fail {
            error: CliErrorView::PriceNotFound {
                coin_id: coin2_id,
                currency: uppercased(target_currency),
            },
        }),
        first.quotes.contains_key(uppercased(target_currency)) && second.quotes.contains_key(
            uppercased(target_currency),
        ) ==> comparison_outcome(coin1_id, coin2_id, target_currency, first, second) == (
        StepView::Finish {
            output: comparison_report(
                coin1_id,
                coin2_id,
                uppercased(target_currency),
                first.quotes[uppercased(target_currency)].price,
                second.quotes[uppercased(target_currency)].price,
            ),
        }),
{
}

/// What a last step stands for as the result of the command: the output of
/// a success, or the error of a failure.
pub open spec fn step_result(step: StepView) -> Result<Seq<char>, CliErrorView>
    recommends
        !(step is Fetch),
{
    match step {
        StepView::Finish { output } => Ok(output),
        StepView::Fail { error } => Err(error),
        StepView::Fetch { .. } => Err(CliErrorView::Transport),
    }
}

/// A comparison run as a dialogue ends as the comparison of the two tickers
/// does: with the same output, or with the same error.
pub proof fn comparison_dialogue_ends_as_comparison(
    coin1_id: Seq<char>,
    coin2_id: Seq<char>,
    target_currency: Seq<char>,
    first: TickerView,
    second: TickerView,
)
    ensures
        !(comparison_outcome(coin1_id, coin2_id, target_currency, first, second) is Fetch),
        step_result(comparison_outcome(coin1_id, coin2_id, target_currency, first, second))
            == comparison_result(coin1_id, coin2_id, uppercased(target_currency), first, second),
{
}

} // verus!
