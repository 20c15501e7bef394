//! The ways in which a command fails.

use vstd::prelude::*;
use vstd::string::StringExecFns;

verus! {

/// Why a command stopped without its report.
#[derive(Debug, PartialEq, Eq)]
pub enum CliError {
    /// The request did not complete, or the service refused it.
    Transport,
    /// The answer did not have the shape of the record that was asked for.
    Decode,
    /// The ticker of `coin_id` holds no quote under the code `currency`.
    PriceNotFound { coin_id: String, currency: String },
}

/// What a [`CliError`] stands for.
pub enum CliErrorView {
    Transport,
    Decode,
    PriceNotFound { coin_id: Seq<char>, currency: Seq<char> },
}

impl View for CliError {
    type V = CliErrorView;

    open spec fn view(&self) -> CliErrorView {
        match self {
            CliError::Transport => CliErrorView::Transport,
            CliError::Decode => CliErrorView::Decode,
            CliError::PriceNotFound { coin_id, currency } => CliErrorView::PriceNotFound {
                coin_id: coin_id@,
                currency: currency@,
            },
        }
    }
}

/// The sentence that says that `subject` has no price in the currency `code`.
pub open spec fn not_found_text(subject: Seq<char>, code: Seq<char>) -> Seq<char> {
    "Could not find price information for "@ + subject + " in "@ + code
}

/// Writes the sentence that says that `subject` has no price in the
/// currency `code`.
pub fn not_found_message(subject: &str, code: &str) -> (text: String)
    ensures
        text@ == not_found_text(subject@, code@),
{
    let mut text = String::from_str("Could not find price information for ");
    text.append(subject);
    text.append(" in ");
    text.append(code);
    text
}

/// The text by which an error is reported.
pub open spec fn error_text(error: CliErrorView) -> Seq<char> {
    match error {
        CliErrorView::Transport => "The request could not be completed"@,
        CliErrorView::Decode => "The response did not have the expected shape"@,
        CliErrorView::PriceNotFound { coin_id, currency } => not_found_text(coin_id, currency),
    }
}

impl CliError {
    /// The text by which this error is reported.
    pub fn message(&self) -> (text: String)
        ensures
            text@ == error_text(self@),
    {
        match self {
            CliError::Transport => String::from_str("The request could not be completed"),
            CliError::Decode => String::from_str("The response did not have the expected shape"),
            CliError::PriceNotFound { coin_id, currency } => not_found_message(
                coin_id.as_str(),
                currency.as_str(),
            ),
        }
    }
}

} // verus!
