use vstd::prelude::*;
use vstd::string::StringExecFns;

verus! {

/// Why a request to the exchange-rate service did not produce a result.
///
/// Every failure mode of the service has a variant of its own, so that a
/// caller can tell a throttled request from a bad credential without reading
/// the message.
#[derive(Debug, PartialEq, Clone)]
pub enum ConverterError {
    /// The service rejected the currency pair.
    Invalid { base: String, target: String },
    /// The service is throttling this client.
    RateLimited,
    /// The service failed internally.
    ServerError,
    /// The service rejected the credential.
    Unauthorized,
    /// The transport failed, or the service answered with a status that has
    /// no variant of its own. Holds the sentence that describes the failure.
    Network(String),
    /// The response body could not be understood. Holds the parser's detail.
    Parse(String),
}

pub open spec fn fetch_prefix() -> Seq<char> {
    "Error while fetching currency data from API: "@
}

pub open spec fn parse_prefix() -> Seq<char> {
    "Error while parsing currency data from API: "@
}

pub open spec fn invalid_text() -> Seq<char> {
    "The request was invalid. Please check that your inputs were correct and are supported: "@
}

pub open spec fn pair_arrow() -> Seq<char> {
    " -> "@
}

pub open spec fn rate_limited_text() -> Seq<char> {
    "You have reached the rate limit for the API. Please try again later."@
}

pub open spec fn server_error_text() -> Seq<char> {
    "There was an error on the API server side. Please try again later."@
}

pub open spec fn unauthorized_text() -> Seq<char> {
    "The API key is invalid. Please check that the CURRENCY_API_KEY environment variable is set correctly."@
}

impl ConverterError {
    /// The text shown to the user for this failure.
    pub open spec fn message_text(self) -> Seq<char> {
        match self {
            ConverterError::Invalid { base, target } => fetch_prefix() + invalid_text() + base@
                + pair_arrow() + target@,
            ConverterError::RateLimited => fetch_prefix() + rate_limited_text(),
            ConverterError::ServerError => fetch_prefix() + server_error_text(),
            ConverterError::Unauthorized => fetch_prefix() + unauthorized_text(),
            ConverterError::Network(sentence) => fetch_prefix() + sentence@,
            ConverterError::Parse(detail) => parse_prefix() + detail@,
        }
    }

    /// Renders the failure for the user.
    pub fn message(&self) -> (text: String)
        ensures
            text@ == self.message_text(),
    {
        match self {
            ConverterError::Invalid { base, target } => {
                let mut text = String::from_str("Error while fetching currency data from API: ");
                text.append(
                    "The request was invalid. Please check that your inputs were correct and are supported: ",
                );
                text.append(base.as_str());
                text.append(" -> ");
                text.append(target.as_str());
                text
            },
            ConverterError::RateLimited => {
                let mut text = String::from_str("Error while fetching currency data from API: ");
                text.append("You have reached the rate limit for the API. Please try again later.");
                text
            },
            ConverterError::ServerError => {
                let mut text = String::from_str("Error while fetching currency data from API: ");
                text.append("There was an error on the API server side. Please try again later.");
                text
            },
            ConverterError::Unauthorized => {
                let mut text = String::from_str("Error while fetching currency data from API: ");
                text.append(
                    "The API key is invalid. Please check that the CURRENCY_API_KEY environment variable is set correctly.",
                );
                text
            },
            ConverterError::Network(sentence) => {
                let mut text = String::from_str("Error while fetching currency data from API: ");
                text.append(sentence.as_str());
                text
            },
            ConverterError::Parse(detail) => {
                let mut text = String::from_str("Error while parsing currency data from API: ");
                text.append(detail.as_str());
                text
            },
        }
    }
}

} // verus!
