use crypto_cli::error::CliError;
use crypto_cli::price::Price;
use crypto_cli::records::{Coin, CoinDetail, MarketQuote, TickerResponse};
use crypto_cli::report::{
    coin_line_text, compare_coin_prices, compare_tickers, comparison_report_text, find_price,
    get_coin_details, get_coin_price, get_coin_price_value, list_coins, price_report_text,
};

fn price(number: f64) -> Price {
    Price::new(number.to_bits(), number.to_string())
}

fn coin(id: &str, name: &str, symbol: &str, rank: u32) -> Coin {
    Coin::new(String::from(id), String::from(name), String::from(symbol), rank)
}

fn ticker(id: &str, name: &str, symbol: &str, rank: u32, quotes: &[(&str, f64)]) -> TickerResponse {
    let mut ticker =
        TickerResponse::new(String::from(id), String::from(name), String::from(symbol), rank);
    for (code, number) in quotes {
        ticker.insert_quote(String::from(*code), MarketQuote::new(price(*number)));
    }
    ticker
}

const LIST_HEADING: &str = "=======================================\n          Listing All Coins            \n=======================================\n\n";

#[test]
fn coin_line_gives_name_symbol_and_rank() {
    assert_eq!(coin_line_text(&coin("btc-bitcoin", "Bitcoin", "BTC", 1)), "Bitcoin (BTC) - Rank: 1\n");
    assert_eq!(coin_line_text(&coin("x", "", "", 0)), " () - Rank: 0\n");
}

#[test]
fn list_of_no_coins_is_the_heading() {
    assert_eq!(list_coins(&Vec::new()), LIST_HEADING);
}

#[test]
fn list_shows_one_line_per_coin_in_order() {
    let coins = vec![
        coin("btc-bitcoin", "Bitcoin", "BTC", 1),
        coin("eth-ethereum", "Ethereum", "ETH", 2),
        coin("doge-dogecoin", "Dogecoin", "DOGE", 1234),
    ];
    let output = list_coins(&coins);
    let expected = format!(
        "{}Bitcoin (BTC) - Rank: 1\nEthereum (ETH) - Rank: 2\nDogecoin (DOGE) - Rank: 1234\n",
        LIST_HEADING
    );
    assert_eq!(output, expected);
    assert_eq!(output[LIST_HEADING.len()..].lines().count(), coins.len());
}

#[test]
fn list_keeps_the_order_received() {
    let coins = vec![coin("b", "Second", "B", 2), coin("a", "First", "A", 1)];
    let output = list_coins(&coins);
    let lines: Vec<&str> = output[LIST_HEADING.len()..].lines().collect();
    assert_eq!(lines, vec!["Second (B) - Rank: 2", "First (A) - Rank: 1"]);
}

#[test]
fn list_grows_by_the_line_of_the_last_coin() {
    let mut coins = vec![coin("btc-bitcoin", "Bitcoin", "BTC", 1)];
    let shorter = list_coins(&coins);
    coins.push(coin("eth-ethereum", "Ethereum", "ETH", 2));
    let longer = list_coins(&coins);
    assert_eq!(longer, format!("{}{}", shorter, coin_line_text(&coins[1])));
}

#[test]
fn list_shows_a_repeated_coin_each_time() {
    let coins = vec![coin("a", "Same", "S", 7), coin("a", "Same", "S", 7)];
    assert_eq!(
        list_coins(&coins),
        format!("{}Same (S) - Rank: 7\nSame (S) - Rank: 7\n", LIST_HEADING)
    );
}

#[test]
fn details_show_every_field() {
    let detail = CoinDetail::new(
        String::from("btc-bitcoin"),
        String::from("Bitcoin"),
        String::from("BTC"),
        String::from("Digital cash."),
        1,
    );
    assert_eq!(
        get_coin_details(&detail),
        "\n=======================================\n        Coin Details for Bitcoin (BTC)        \n=======================================\n\nID: btc-bitcoin\nName: Bitcoin\nSymbol: BTC\nDescription: Digital cash.\nRank: 1\n"
    );
}

#[test]
fn details_show_the_id_beside_a_different_name() {
    let detail = CoinDetail::new(
        String::from("btc-bitcoin"),
        String::from("Bitcoin"),
        String::from("BTC"),
        String::from("Digital gold"),
        1,
    );
    let output = get_coin_details(&detail);
    assert!(output.contains("\nID: btc-bitcoin\n"));
    assert_eq!(output.matches("btc-bitcoin").count(), 1);
    assert!(output.ends_with(
        "\n\nID: btc-bitcoin\nName: Bitcoin\nSymbol: BTC\nDescription: Digital gold\nRank: 1\n"
    ));
}

#[test]
fn details_keep_line_ends_of_the_description() {
    let detail = CoinDetail::new(
        String::from("x-coin"),
        String::from("X"),
        String::from("XC"),
        String::from("one\ntwo"),
        4000000000,
    );
    let output = get_coin_details(&detail);
    assert!(output
        .ends_with("\n\nID: x-coin\nName: X\nSymbol: XC\nDescription: one\ntwo\nRank: 4000000000\n"));
}

#[test]
fn price_report_gives_the_price_under_the_code() {
    let bitcoin = ticker("btc-bitcoin", "Bitcoin", "BTC", 1, &[("USD", 50000.0), ("EUR", 46000.5)]);
    assert_eq!(
        price_report_text(&bitcoin, "USD"),
        "\n=======================================\n       Price for Bitcoin (BTC) in USD        \n=======================================\n\n1 Bitcoin (BTC) = 50000 USD\n"
    );
    assert!(price_report_text(&bitcoin, "EUR").ends_with("\n\n1 Bitcoin (BTC) = 46000.5 EUR\n"));
}

#[test]
fn price_report_says_when_no_quote_is_filed() {
    let bitcoin = ticker("btc-bitcoin", "Bitcoin", "BTC", 1, &[("USD", 50000.0)]);
    assert_eq!(
        price_report_text(&bitcoin, "XYZ"),
        "\n=======================================\n       Price for Bitcoin (BTC) in XYZ        \n=======================================\n\nCould not find price information for Bitcoin in XYZ\n"
    );
}

#[test]
fn price_report_looks_up_the_exact_code() {
    let bitcoin = ticker("btc-bitcoin", "Bitcoin", "BTC", 1, &[("USD", 50000.0)]);
    assert!(price_report_text(&bitcoin, "usd")
        .ends_with("Could not find price information for Bitcoin in usd\n"));
}

#[test]
fn coin_price_in_lower_case_currency_contains_the_price() {
    let bitcoin = ticker("btc-bitcoin", "Bitcoin", "BTC", 1, &[("USD", 50000.0)]);
    let output = get_coin_price(&bitcoin, "usd");
    assert!(output.contains("50000"));
    assert!(output.ends_with("1 Bitcoin (BTC) = 50000 USD\n"));
    assert!(output.contains("Price for Bitcoin (BTC) in USD"));
}

#[test]
fn coin_price_matches_the_currency_in_any_case() {
    let bitcoin = ticker("btc-bitcoin", "Bitcoin", "BTC", 1, &[("USDT", 49999.25)]);
    for currency in ["usdt", "USDT", "UsDt", "usdT"] {
        assert_eq!(get_coin_price(&bitcoin, currency), price_report_text(&bitcoin, "USDT"));
    }
}

#[test]
fn coin_price_without_quote_says_not_found() {
    let bitcoin = ticker("btc-bitcoin", "Bitcoin", "BTC", 1, &[("USD", 50000.0)]);
    let output = get_coin_price(&bitcoin, "doge");
    assert!(output.ends_with("\n\nCould not find price information for Bitcoin in DOGE\n"));
    assert!(!output.contains("50000"));
}

#[test]
fn coin_price_misses_a_lower_case_key() {
    let odd = ticker("odd-coin", "Odd", "ODD", 9, &[("usd", 1.0)]);
    assert!(get_coin_price(&odd, "usd").ends_with("Could not find price information for Odd in USD\n"));
}

#[test]
fn find_price_returns_the_filed_price() {
    let bitcoin = ticker("btc-bitcoin", "Bitcoin", "BTC", 1, &[("USD", 50000.0)]);
    assert_eq!(find_price("btc-bitcoin", &bitcoin, "USD"), Ok(price(50000.0)));
}

#[test]
fn find_price_fails_under_another_code() {
    let bitcoin = ticker("btc-bitcoin", "Bitcoin", "BTC", 1, &[("USD", 50000.0)]);
    assert_eq!(
        find_price("btc-bitcoin", &bitcoin, "usd"),
        Err(CliError::PriceNotFound {
            coin_id: String::from("btc-bitcoin"),
            currency: String::from("usd"),
        })
    );
}

#[test]
fn price_value_is_found_in_any_case() {
    let ether = ticker("eth-ethereum", "Ethereum", "ETH", 2, &[("USD", 3000.0)]);
    assert_eq!(get_coin_price_value("eth-ethereum", &ether, "usd"), Ok(price(3000.0)));
    assert_eq!(get_coin_price_value("eth-ethereum", &ether, "USD"), Ok(price(3000.0)));
}

#[test]
fn price_value_missing_names_the_coin_id() {
    let ether = ticker("eth-ethereum", "Ethereum", "ETH", 2, &[("USD", 3000.0)]);
    let result = get_coin_price_value("eth-ethereum", &ether, "btc");
    assert_eq!(
        result,
        Err(CliError::PriceNotFound {
            coin_id: String::from("eth-ethereum"),
            currency: String::from("BTC"),
        })
    );
    assert_eq!(
        result.unwrap_err().message(),
        "Could not find price information for eth-ethereum in BTC"
    );
}

fn compared(first: f64, second: f64) -> String {
    let a = ticker("a-coin", "A", "AC", 1, &[("EUR", first)]);
    let b = ticker("b-coin", "B", "BC", 2, &[("EUR", second)]);
    compare_coin_prices("a-coin", "b-coin", "eur", &a, &b).unwrap()
}

#[test]
fn comparison_of_bitcoin_and_ether_names_bitcoin() {
    let bitcoin = ticker("btc-bitcoin", "Bitcoin", "BTC", 1, &[("USD", 50000.0)]);
    let ether = ticker("eth-ethereum", "Ethereum", "ETH", 2, &[("USD", 3000.0)]);
    let output = compare_coin_prices("btc-bitcoin", "eth-ethereum", "usd", &bitcoin, &ether);
    assert_eq!(
        output,
        Ok(String::from(
            "\n=======================================\n  Comparing btc-bitcoin and eth-ethereum in USD Currency  \n=======================================\n\nbtc-bitcoin price: 50000 USD\neth-ethereum price: 3000 USD\nbtc-bitcoin is more valuable than eth-ethereum in USD\n"
        ))
    );
}

#[test]
fn comparison_names_the_second_coin_when_it_is_higher() {
    let bitcoin = ticker("btc-bitcoin", "Bitcoin", "BTC", 1, &[("USD", 50000.0)]);
    let ether = ticker("eth-ethereum", "Ethereum", "ETH", 2, &[("USD", 3000.0)]);
    let output =
        compare_coin_prices("eth-ethereum", "btc-bitcoin", "usd", &ether, &bitcoin).unwrap();
    assert!(output.ends_with(
        "eth-ethereum price: 3000 USD\nbtc-bitcoin price: 50000 USD\nbtc-bitcoin is more valuable than eth-ethereum in USD\n"
    ));
    assert!(!output.contains("same value"));
}

#[test]
fn comparison_of_equal_prices_says_same_value_once() {
    let output = compared(1.25, 1.25);
    assert!(output.ends_with(
        "a-coin price: 1.25 EUR\nb-coin price: 1.25 EUR\nBoth a-coin and b-coin have the same value in EUR\n"
    ));
    assert_eq!(output.matches("have the same value").count(), 1);
    assert!(!output.contains("more valuable"));
}

#[test]
fn comparison_of_unequal_prices_says_more_valuable_once() {
    let output = compared(1.25, 1.5);
    assert_eq!(output.matches("is more valuable than").count(), 1);
    assert!(output.ends_with("b-coin is more valuable than a-coin in EUR\n"));
}

#[test]
fn comparison_of_the_two_zeros_says_same_value() {
    let output = compared(0.0, -0.0);
    assert!(output.ends_with(
        "a-coin price: 0 EUR\nb-coin price: -0 EUR\nBoth a-coin and b-coin have the same value in EUR\n"
    ));
}

#[test]
fn comparison_with_no_number_says_same_value() {
    let output = compared(f64::NAN, 1.0);
    assert!(output.ends_with("Both a-coin and b-coin have the same value in EUR\n"));
}

#[test]
fn comparison_without_the_first_price_is_an_error() {
    let bitcoin = ticker("btc-bitcoin", "Bitcoin", "BTC", 1, &[("EUR", 46000.0)]);
    let ether = ticker("eth-ethereum", "Ethereum", "ETH", 2, &[("USD", 3000.0)]);
    assert_eq!(
        compare_coin_prices("btc-bitcoin", "eth-ethereum", "usd", &bitcoin, &ether),
        Err(CliError::PriceNotFound {
            coin_id: String::from("btc-bitcoin"),
            currency: String::from("USD"),
        })
    );
}

#[test]
fn comparison_without_the_second_price_is_an_error() {
    let bitcoin = ticker("btc-bitcoin", "Bitcoin", "BTC", 1, &[("USD", 50000.0)]);
    let ether = ticker("eth-ethereum", "Ethereum", "ETH", 2, &[]);
    assert_eq!(
        compare_coin_prices("btc-bitcoin", "eth-ethereum", "usd", &bitcoin, &ether),
        Err(CliError::PriceNotFound {
            coin_id: String::from("eth-ethereum"),
            currency: String::from("USD"),
        })
    );
}

#[test]
fn comparison_without_either_price_names_the_first_coin() {
    let bitcoin = ticker("btc-bitcoin", "Bitcoin", "BTC", 1, &[]);
    let ether = ticker("eth-ethereum", "Ethereum", "ETH", 2, &[]);
    assert_eq!(
        compare_coin_prices("btc-bitcoin", "eth-ethereum", "Usd", &bitcoin, &ether),
        Err(CliError::PriceNotFound {
            coin_id: String::from("btc-bitcoin"),
            currency: String::from("USD"),
        })
    );
}

#[test]
fn compare_tickers_looks_up_the_exact_code() {
    let a = ticker("a-coin", "A", "AC", 1, &[("USD", 2.0)]);
    let b = ticker("b-coin", "B", "BC", 2, &[("USD", 1.0)]);
    assert_eq!(
        compare_tickers("a-coin", "b-coin", "USD", &a, &b),
        Ok(comparison_report_text("a-coin", "b-coin", "USD", &price(2.0), &price(1.0)))
    );
    assert_eq!(
        compare_tickers("a-coin", "b-coin", "usd", &a, &b),
        Err(CliError::PriceNotFound {
            coin_id: String::from("a-coin"),
            currency: String::from("usd"),
        })
    );
}

#[test]
fn comparison_report_uses_the_code_as_given() {
    let output = comparison_report_text("a", "b", "usd", &price(2.0), &price(1.0));
    assert_eq!(
        output,
        "\n=======================================\n  Comparing a and b in usd Currency  \n=======================================\n\na price: 2 usd\nb price: 1 usd\na is more valuable than b in usd\n"
    );
}

#[test]
fn comparison_orders_by_number_not_by_text() {
    let big = Price::new(1e21f64.to_bits(), 1e21f64.to_string());
    let small = Price::new(9.0f64.to_bits(), 9.0f64.to_string());
    let output = comparison_report_text("big", "small", "USD", &big, &small);
    assert!(output.contains("big price: 1000000000000000000000 USD\n"));
    assert!(output.ends_with("big is more valuable than small in USD\n"));
}
