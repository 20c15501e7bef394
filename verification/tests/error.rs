use crypto_cli::error::{not_found_message, CliError};

#[test]
fn not_found_message_names_subject_and_code() {
    assert_eq!(
        not_found_message("btc-bitcoin", "XYZ"),
        "Could not find price information for btc-bitcoin in XYZ"
    );
}

#[test]
fn price_not_found_reports_coin_and_currency() {
    let error = CliError::PriceNotFound {
        coin_id: String::from("eth-ethereum"),
        currency: String::from("DOGE"),
    };
    assert_eq!(error.message(), "Could not find price information for eth-ethereum in DOGE");
}

#[test]
fn transport_and_decode_have_their_own_texts() {
    assert_eq!(CliError::Transport.message(), "The request could not be completed");
    assert_eq!(CliError::Decode.message(), "The response did not have the expected shape");
}
