//! The text that each command shows, from the records it received.

use crate::error::{not_found_message, not_found_text, CliError, CliErrorView};
use crate::price::{
    compare_prices, is_nan, scaled_value, standing, Price, PriceView, Standing,
};
use crate::records::{Coin, CoinDetail, CoinDetailView, CoinView, TickerResponse, TickerView};
use crate::text::{
    currency_code, decimal, decimal_text, line_ends, line_ends_of_decimal, line_ends_of_joined,
    line_ends_of_plain, uppercased,
};
use vstd::prelude::*;
use vstd::string::StringExecFns;

verus! {

/// The line that rules off a heading, above and below it.
pub const RULE: &'static str = "=======================================";

/// What a list of coins stands for.
pub open spec fn coin_views(coins: Seq<Coin>) -> Seq<CoinView> {
    coins.map_values(|coin: Coin| coin@)
}

/// The heading of the list of all coins.
pub open spec fn list_heading() -> Seq<char> {
    RULE@ + "\n          Listing All Coins            \n"@ + RULE@ + "\n\n"@
}

/// The line that lists one coin.
pub open spec fn coin_line(coin: CoinView) -> Seq<char> {
    coin.name + " ("@ + coin.symbol + ") - Rank: "@ + decimal(coin.rank) + "\n"@
}

/// The lines that list the coins: one for each, in the order of the coins.
pub open spec fn coin_lines(coins: Seq<CoinView>) -> Seq<Seq<char>> {
    coins.map_values(|coin: CoinView| coin_line(coin))
}

/// What the list of all coins shows: the heading, then the coins' lines.
pub open spec fn list_report(coins: Seq<CoinView>) -> Seq<char> {
    list_heading() + coin_lines(coins).flatten()
}

/// Writes the line that lists one coin.
pub fn coin_line_text(coin: &Coin) -> (line: String)
    ensures
        line@ == coin_line(coin@),
{
    let mut line = coin.name.clone();
    line.append(" (");
    line.append(coin.symbol.as_str());
    line.append(") - Rank: ");
    line.append(decimal_text(coin.rank).as_str());
    line.append("\n");
    line
}

/// Writes what the list of all coins shows for the coins received.
pub fn list_coins(response: &Vec<Coin>) -> (output: String)
    ensures
        output@ == list_report(coin_views(response@)),
{
    let mut output = String::from_str(RULE);
    output.append("\n          Listing All Coins            \n");
    output.append(RULE);
    output.append("\n\n");
    let ghost coins = coin_views(response@);
    let mut i: usize = 0;
    proof {
        assert(coin_lines(coins.take(0)) =~= Seq::<Seq<char>>::empty());
        assert(output@ =~= list_report(coins.take(0)));
    }
    while i < response.len()
        invariant
            i <= response.len(),
            coins == coin_views(response@),
            output@ == list_report(coins.take(i as int)),
        decreases response.len() - i,
    {
        let line = coin_line_text(&response[i]);
        output.append(line.as_str());
        proof {
            let before = coin_lines(coins.take(i as int));
            assert(coin_lines(coins.take(i + 1)) =~= before.push(coin_line(coins[i as int])));
            before.lemma_flatten_push(coin_line(coins[i as int]));
            assert(output@ =~= list_report(coins.take(i + 1)));
        }
        i += 1;
    }
    proof {
        assert(coins.take(i as int) =~= coins);
    }
    output
}

/// What the details of a coin show: the heading, then every field of the
/// record, each on a line of its own under its label.
pub open spec fn detail_report(detail: CoinDetailView) -> Seq<char> {
    "\n"@ + RULE@ + "\n        Coin Details for "@ + detail.name + " ("@ + detail.symbol
        + ")        \n"@ + RULE@ + "\n\nID: "@ + detail.id + "\nName: "@ + detail.name
        + "\nSymbol: "@ + detail.symbol + "\nDescription: "@ + detail.description + "\nRank: "@
        + decimal(detail.rank) + "\n"@
}

/// Writes what the details of a coin show.
pub fn get_coin_details(response: &CoinDetail) -> (output: String)
    ensures
        output@ == detail_report(response@),
{
    let mut output = String::from_str("\n");
    output.append(RULE);
    output.append("\n        Coin Details for ");
    output.append(response.name.as_str());
    output.append(" (");
    output.append(response.symbol.as_str());
    output.append(")        \n");
    output.append(RULE);
    output.append("\n\nID: ");
    output.append(response.id.as_str());
    output.append("\nName: ");
    output.append(response.name.as_str());
    output.append("\nSymbol: ");
    output.append(response.symbol.as_str());
    output.append("\nDescription: ");
    output.append(response.description.as_str());
    output.append("\nRank: ");
    output.append(decimal_text(response.rank).as_str());
    output.append("\n");
    output
}

/// The heading of a coin's price in the currency `code`.
pub open spec fn price_heading(ticker: TickerView, code: Seq<char>) -> Seq<char> {
    "\n"@ + RULE@ + "\n       Price for "@ + ticker.name + " ("@ + ticker.symbol + ") in "@ + code
        + "        \n"@ + RULE@ + "\n\n"@
}

/// The line that gives a coin's price in the currency `code`.
pub open spec fn price_line(ticker: TickerView, code: Seq<char>) -> Seq<char>
    recommends
        ticker.quotes.contains_key(code),
{
    "1 "@ + ticker.name + " ("@ + ticker.symbol + ") = "@ + ticker.quotes[code].price.shown + " "@
        + code + "\n"@
}

/// What the price of a coin shows, for the code under which the quote is
/// looked up: the heading, then the price where the ticker holds a quote under
/// exactly that code, and else the sentence that none was found.
pub open spec fn price_report(ticker: TickerView, code: Seq<char>) -> Seq<char> {
    if ticker.quotes.contains_key(code) {
        price_heading(ticker, code) + price_line(ticker, code)
    } else {
        price_heading(ticker, code) + not_found_text(ticker.name, code) + "\n"@
    }
}

/// Writes what the price of a coin shows, for the code under which the quote
/// is looked up.
pub fn price_report_text(response: &TickerResponse, code: &str) -> (output: String)
    ensures
        output@ == price_report(response@, code@),
{
    let mut output = String::from_str("\n");
    output.append(RULE);
    output.append("\n       Price for ");
    output.append(response.name.as_str());
    output.append(" (");
    output.append(response.symbol.as_str());
    output.append(") in ");
    output.append(code);
    output.append("        \n");
    output.append(RULE);
    output.append("\n\n");
    match response.quote(code) {
        Some(quote) => {
            let mut line = String::from_str("1 ");
            line.append(response.name.as_str());
            line.append(" (");
            line.append(response.symbol.as_str());
            line.append(") = ");
            line.append(quote.price.shown.as_str());
            line.append(" ");
            line.append(code);
            line.append("\n");
            output.append(line.as_str());
        },
        None => {
            output.append(not_found_message(response.name.as_str(), code).as_str());
            output.append("\n");
        },
    }
    output
}

/// Writes what the price of a coin shows in the currency that the user
/// named: the quote is looked up under the upper-cased name.
pub fn get_coin_price(response: &TickerResponse, target_currency: &str) -> (output: String)
    ensures
        output@ == price_report(response@, uppercased(target_currency@)),
{
    let code = currency_code(target_currency);
    price_report_text(response, code.as_str())
}

/// The price of the coin `coin_id` under the code `code`, or the error that
/// its ticker holds none.
pub open spec fn quoted_price(coin_id: Seq<char>, ticker: TickerView, code: Seq<char>) -> Result<
    PriceView,
    CliErrorView,
> {
    if ticker.quotes.contains_key(code) {
        Ok(ticker.quotes[code].price)
    } else {
        Err(CliErrorView::PriceNotFound { coin_id, currency: code })
    }
}

/// What a result of looking up a price stands for.
pub open spec fn price_result_view(result: Result<Price, CliError>) -> Result<
    PriceView,
    CliErrorView,
> {
    match result {
        Ok(price) => Ok(price@),
        Err(error) => Err(error@),
    }
}

/// Looks up the price of the coin `coin_id` under exactly the code `code`.
pub fn find_price(coin_id: &str, response: &TickerResponse, code: &str) -> (result: Result<
    Price,
    CliError,
>)
    ensures
        price_result_view(result) == quoted_price(coin_id@, response@, code@),
{
    match response.quote(code) {
        Some(quote) => Ok(quote.price.clone()),
        None => Err(
            CliError::PriceNotFound {
                coin_id: String::from_str(coin_id),
                currency: String::from_str(code),
            },
        ),
    }
}

/// Looks up the price of the coin `coin_id` in the currency that the user
/// named: the quote is looked up under the upper-cased name.
pub fn get_coin_price_value(coin_id: &str, response: &TickerResponse, target_currency: &str) -> (result:
    Result<Price, CliError>)
    ensures
        price_result_view(result) == quoted_price(
            coin_id@,
            response@,
            uppercased(target_currency@),
        ),
{
    let code = currency_code(target_currency);
    find_price(coin_id, response, code.as_str())
}

/// The heading of a comparison of two coins in the currency `code`.
pub open spec fn comparison_heading(coin1_id: Seq<char>, coin2_id: Seq<char>, code: Seq<char>) -> Seq<
    char,
> {
    "\n"@ + RULE@ + "\n  Comparing "@ + coin1_id + " and "@ + coin2_id + " in "@ + code
        + " Currency  \n"@ + RULE@ + "\n\n"@
}

/// The line that gives one coin's price in a comparison.
pub open spec fn compared_price_line(coin_id: Seq<char>, price: PriceView, code: Seq<char>) -> Seq<
    char,
> {
    coin_id + " price: "@ + price.shown + " "@ + code + "\n"@
}

/// The line that says that `higher` is worth more than `lower`.
pub open spec fn more_valuable_line(higher: Seq<char>, lower: Seq<char>, code: Seq<char>) -> Seq<
    char,
> {
    higher + " is more valuable than "@ + lower + " in "@ + code + "\n"@
}

/// The line that says that two coins are worth the same.
pub open spec fn same_value_line(coin1_id: Seq<char>, coin2_id: Seq<char>, code: Seq<char>) -> Seq<
    char,
> {
    "Both "@ + coin1_id + " and "@ + coin2_id + " have the same value in "@ + code + "\n"@
}

/// The line that closes a comparison: which coin is worth more, or that
/// neither is.
pub open spec fn verdict_line(
    coin1_id: Seq<char>,
    coin2_id: Seq<char>,
    code: Seq<char>,
    outcome: Standing,
) -> Seq<char> {
    match outcome {
        Standing::FirstHigher => more_valuable_line(coin1_id, coin2_id, code),
        Standing::SecondHigher => more_valuable_line(coin2_id, coin1_id, code),
        Standing::Level => same_value_line(coin1_id, coin2_id, code),
    }
}

/// What a comparison of two coins shows: the heading, each coin's price,
/// and one closing line.
pub open spec fn comparison_report(
    coin1_id: Seq<char>,
    coin2_id: Seq<char>,
    code: Seq<char>,
    coin1_price: PriceView,
    coin2_price: PriceView,
) -> Seq<char> {
    comparison_heading(coin1_id, coin2_id, code) + compared_price_line(coin1_id, coin1_price, code)
        + compared_price_line(coin2_id, coin2_price, code) + verdict_line(
        coin1_id,
        coin2_id,
        code,
        standing(coin1_price.bits, coin2_price.bits),
    )
}

/// Writes the line that gives one coin's price in a comparison.
fn compared_price_line_text(coin_id: &str, price: &Price, code: &str) -> (line: String)
    ensures
        line@ == compared_price_line(coin_id@, price@, code@),
{
    let mut line = String::from_str(coin_id);
    line.append(" price: ");
    line.append(price.shown.as_str());
    line.append(" ");
    line.append(code);
    line.append("\n");
    line
}

/// Writes the line that closes a comparison.
fn verdict_line_text(coin1_id: &str, coin2_id: &str, code: &str, outcome: Standing) -> (line: String)
    ensures
        line@ == verdict_line(coin1_id@, coin2_id@, code@, outcome),
{
    match outcome {
        Standing::FirstHigher => {
            let mut line = String::from_str(coin1_id);
            line.append(" is more valuable than ");
            line.append(coin2_id);
            line.append(" in ");
            line.append(code);
            line.append("\n");
            line
        },
        Standing::SecondHigher => {
            let mut line = String::from_str(coin2_id);
            line.append(" is more valuable than ");
            line.append(coin1_id);
            line.append(" in ");
            line.append(code);
            line.append("\n");
            line
        },
        Standing::Level => {
            let mut line = String::from_str("Both ");
            line.append(coin1_id);
            line.append(" and ");
            line.append(coin2_id);
            line.append(" have the same value in ");
            line.append(code);
            line.append("\n");
            line
        },
    }
}

/// Writes what a comparison of two coins shows, for the code under which
/// their quotes were looked up.
pub fn comparison_report_text(
    coin1_id: &str,
    coin2_id: &str,
    code: &str,
    coin1_price: &Price,
    coin2_price: &Price,
) -> (output: String)
    ensures
        output@ == comparison_report(coin1_id@, coin2_id@, code@, coin1_price@, coin2_price@),
{
    let mut output = String::from_str("\n");
    output.append(RULE);
    output.append("\n  Comparing ");
    output.append(coin1_id);
    output.append(" and ");
    output.append(coin2_id);
    output.append(" in ");
    output.append(code);
    output.append(" Currency  \n");
    output.append(RULE);
    output.append("\n\n");
    output.append(compared_price_line_text(coin1_id, coin1_price, code).as_str());
    output.append(compared_price_line_text(coin2_id, coin2_price, code).as_str());
    let outcome = compare_prices(coin1_price, coin2_price);
    output.append(verdict_line_text(coin1_id, coin2_id, code, outcome).as_str());
    output
}

/// What a result of a command stands for: the text it shows, or its error.
pub open spec fn output_result_view(result: Result<String, CliError>) -> Result<
    Seq<char>,
    CliErrorView,
> {
    match result {
        Ok(output) => Ok(output@),
        Err(error) => Err(error@),
    }
}

/// What comes of a comparison of two coins from the ticker of each, for the
/// code under which quotes are looked up. The first coin's price is looked
/// up first: where its ticker holds none, that is the error, whatever the
/// second coin's ticker holds. Then the second coin's is looked up in the
/// same way. Only with both prices is there any text.
pub open spec fn comparison_result(
    coin1_id: Seq<char>,
    coin2_id: Seq<char>,
    code: Seq<char>,
    coin1_ticker: TickerView,
    coin2_ticker: TickerView,
) -> Result<Seq<char>, CliErrorView> {
    match quoted_price(coin1_id, coin1_ticker, code) {
        Err(error) => Err(error),
        Ok(coin1_price) => match quoted_price(coin2_id, coin2_ticker, code) {
            Err(error) => Err(error),
            Ok(coin2_price) => Ok(
                comparison_report(coin1_id, coin2_id, code, coin1_price, coin2_price),
            ),
        },
    }
}

/// Compares two coins from the ticker of each, for the code under which
/// quotes are looked up.
pub fn compare_tickers(
    coin1_id: &str,
    coin2_id: &str,
    code: &str,
    coin1_ticker: &TickerResponse,
    coin2_ticker: &TickerResponse,
) -> (result: Result<String, CliError>)
    ensures
        output_result_view(result) == comparison_result(
            coin1_id@,
            coin2_id@,
            code@,
            coin1_ticker@,
            coin2_ticker@,
        ),
{
    let coin1_price = match find_price(coin1_id, coin1_ticker, code) {
        Ok(price) => price,
        Err(error) => {
            return Err(error);
        },
    };
    let coin2_price = match find_price(coin2_id, coin2_ticker, code) {
        Ok(price) => price,
        Err(error) => {
            return Err(error);
        },
    };
    Ok(comparison_report_text(coin1_id, coin2_id, code, &coin1_price, &coin2_price))
}

/// Compares two coins in the currency that the user named, from the ticker
/// of each: the quotes are looked up under the upper-cased name.
pub fn compare_coin_prices(
    coin1_id: &str,
    coin2_id: &str,
    target_currency: &str,
    coin1_ticker: &TickerResponse,
    coin2_ticker: &TickerResponse,
) -> (result: Result<String, CliError>)
    ensures
        output_result_view(result) == comparison_result(
            coin1_id@,
            coin2_id@,
            uppercased(target_currency@),
            coin1_ticker@,
            coin2_ticker@,
        ),
{
    let code = currency_code(target_currency);
    compare_tickers(coin1_id, coin2_id, code.as_str(), coin1_ticker, coin2_ticker)
}

/// The list shows one line for each coin, in the order of the coins, and
/// nothing else below its heading.
pub proof fn list_has_one_line_per_coin(coins: Seq<CoinView>)
    ensures
        coin_lines(coins).len() == coins.len(),
        forall|i: int| 0 <= i < coins.len() ==> coin_lines(coins)[i] == coin_line(#[trigger] coins[i]),
        list_report(coins) == list_heading() + coin_lines(coins).flatten(),
{
}

/// One coin more at the end of the list adds its line at the end of what is
/// shown, and changes nothing before it.
pub proof fn list_grows_by_one_line(coins: Seq<CoinView>, coin: CoinView)
    ensures
        list_report(coins.push(coin)) == list_report(coins) + coin_line(coin),
{
    assert(coin_lines(coins.push(coin)) =~= coin_lines(coins).push(coin_line(coin)));
    coin_lines(coins).lemma_flatten_push(coin_line(coin));
    assert(list_report(coins.push(coin)) =~= list_report(coins) + coin_line(coin));
}

/// Between two numbers a comparison is strict. It closes with exactly one
/// line: the coin whose price is the greater number is named as the more
/// valuable, and only where the two numbers are equal are the coins said to
/// have the same value.
pub proof fn comparison_names_the_greater_price(
    coin1_id: Seq<char>,
    coin2_id: Seq<char>,
    code: Seq<char>,
    coin1_price: PriceView,
    coin2_price: PriceView,
)
    requires
        !is_nan(coin1_price.bits),
        !is_nan(coin2_price.bits),
    ensures
        comparison_report(coin1_id, coin2_id, code, coin1_price, coin2_price) == comparison_heading(
            coin1_id,
            coin2_id,
            code,
        ) + compared_price_line(coin1_id, coin1_price, code) + compared_price_line(
            coin2_id,
            coin2_price,
            code,
        ) + (if scaled_value(coin1_price.bits) > scaled_value(coin2_price.bits) {
            more_valuable_line(coin1_id, coin2_id, code)
        } else if scaled_value(coin1_price.bits) < scaled_value(coin2_price.bits) {
            more_valuable_line(coin2_id, coin1_id, code)
        } else {
            same_value_line(coin1_id, coin2_id, code)
        }),
{
}

/// Where a price is no number, neither coin is named as the more valuable.
pub proof fn comparison_with_no_number(
    coin1_id: Seq<char>,
    coin2_id: Seq<char>,
    code: Seq<char>,
    coin1_price: PriceView,
    coin2_price: PriceView,
)
    requires
        is_nan(coin1_price.bits) || is_nan(coin2_price.bits),
    ensures
        comparison_report(coin1_id, coin2_id, code, coin1_price, coin2_price) == comparison_heading(
            coin1_id,
            coin2_id,
            code,
        ) + compared_price_line(coin1_id, coin1_price, code) + compared_price_line(
            coin2_id,
            coin2_price,
            code,
        ) + same_value_line(coin1_id, coin2_id, code),
{
}

/// The line of a coin whose name and symbol hold no line end is one line:
/// its only line end is its last character.
pub proof fn coin_line_is_one_line(coin: CoinView)
    requires
        line_ends(coin.name) == 0,
        line_ends(coin.symbol) == 0,
    ensures
        line_ends(coin_line(coin)) == 1,
        coin_line(coin).last() == '\n',
{
    reveal_strlit(" (");
    reveal_strlit(") - Rank: ");
    reveal_strlit("\n");
    let a = coin.name;
    let b = a + " ("@;
    let c = b + coin.symbol;
    let d = c + ") - Rank: "@;
    let e = d + decimal(coin.rank);
    line_ends_of_plain(" ("@);
    line_ends_of_plain(") - Rank: "@);
    line_ends_of_decimal(coin.rank);
    line_ends_of_joined(a, " ("@);
    line_ends_of_joined(b, coin.symbol);
    line_ends_of_joined(c, ") - Rank: "@);
    line_ends_of_joined(d, decimal(coin.rank));
    line_ends_of_joined(e, "\n"@);
    assert(line_ends("\n"@) == 1) by {
        assert("\n"@.drop_last() =~= Seq::<char>::empty());
        assert(line_ends("\n"@.drop_last()) == 0);
    }
}

/// Where no coin's name or symbol holds a line end, what is shown below the
/// heading holds exactly as many lines as there are coins.
pub proof fn list_has_one_line_end_per_coin(coins: Seq<CoinView>)
    requires
        forall|i: int|
            0 <= i < coins.len() ==> line_ends((#[trigger] coins[i]).name) == 0 && line_ends(
                coins[i].symbol,
            ) == 0,
    ensures
        line_ends(coin_lines(coins).flatten()) == coins.len(),
    decreases coins.len(),
{
    if coins.len() == 0 {
        assert(coin_lines(coins).flatten() =~= Seq::<char>::empty());
    } else {
        let front = coins.drop_last();
        let coin = coins.last();
        assert(coins =~= front.push(coin));
        list_has_one_line_end_per_coin(front);
        coin_line_is_one_line(coin);
        assert(coin_lines(coins) =~= coin_lines(front).push(coin_line(coin)));
        coin_lines(front).lemma_flatten_push(coin_line(coin));
        line_ends_of_joined(coin_lines(front).flatten(), coin_line(coin));
    }
}

/// A comparison fails where either ticker holds no quote under the code, and
/// then shows nothing: no price, not even the first coin's where only the
/// second is missing, and no closing line. The error names the first coin
/// whose price is missing. With both prices it succeeds with its report.
pub proof fn comparison_shows_nothing_without_both_prices(
    coin1_id: Seq<char>,
    coin2_id: Seq<char>,
    code: Seq<char>,
    coin1_ticker: TickerView,
    coin2_ticker: TickerView,
)
    ensures
        comparison_result(coin1_id, coin2_id, code, coin1_ticker, coin2_ticker) is Ok <==> (
        coin1_ticker.quotes.contains_key(code) && coin2_ticker.quotes.contains_key(code)),
        !coin1_ticker.quotes.contains_key(code) ==> comparison_result(
            coin1_id,
            coin2_id,
            code,
            coin1_ticker,
            coin2_ticker,
        ) == Err::<Seq<char>, CliErrorView>(
            CliErrorView::PriceNotFound { coin_id: coin1_id, currency: code },
        ),
        coin1_ticker.quotes.contains_key(code) && !coin2_ticker.quotes.contains_key(code)
            ==> comparison_result(coin1_id, coin2_id, code, coin1_ticker, coin2_ticker) == Err::<
            Seq<char>,
            CliErrorView,
        >(CliErrorView::PriceNotFound { coin_id: coin2_id, currency: code }),
        coin1_ticker.quotes.contains_key(code) && coin2_ticker.quotes.contains_key(code)
            ==> comparison_result(coin1_id, coin2_id, code, coin1_ticker, coin2_ticker) == Ok::<
            Seq<char>,
            CliErrorView,
        >(
            comparison_report(
                coin1_id,
                coin2_id,
                code,
                coin1_ticker.quotes[code].price,
                coin2_ticker.quotes[code].price,
            ),
        ),
{
}

} // verus!
