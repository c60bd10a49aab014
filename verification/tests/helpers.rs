use currency_converter::helpers::ConverterError;
use currency_converter::sources::CurrencyList;

#[test]
fn invalid_pair_message() {
    let error = ConverterError::Invalid {
        base: "USD".to_string(),
        target: "XXX".to_string(),
    };
    assert_eq!(
        error.message(),
        "Error while fetching currency data from API: The request was invalid. Please check that your inputs were correct and are supported: USD -> XXX"
    );
}

#[test]
fn rate_limited_message() {
    assert_eq!(
        ConverterError::RateLimited.message(),
        "Error while fetching currency data from API: You have reached the rate limit for the API. Please try again later."
    );
}

#[test]
fn server_error_message() {
    assert_eq!(
        ConverterError::ServerError.message(),
        "Error while fetching currency data from API: There was an error on the API server side. Please try again later."
    );
}

#[test]
fn unauthorized_message() {
    assert_eq!(
        ConverterError::Unauthorized.message(),
        "Error while fetching currency data from API: The API key is invalid. Please check that the CURRENCY_API_KEY environment variable is set correctly."
    );
}

#[test]
fn network_message() {
    let error = ConverterError::Network(
        "There was a network error while fetching data from the API: timed out".to_string(),
    );
    assert_eq!(
        error.message(),
        "Error while fetching currency data from API: There was a network error while fetching data from the API: timed out"
    );
}

#[test]
fn parse_message() {
    let error = ConverterError::Parse("expected value at line 1 column 1".to_string());
    assert_eq!(
        error.message(),
        "Error while parsing currency data from API: expected value at line 1 column 1"
    );
}

#[test]
fn failures_are_told_apart() {
    assert_ne!(ConverterError::RateLimited, ConverterError::ServerError);
    assert_ne!(ConverterError::Unauthorized, ConverterError::ServerError);
    assert_ne!(
        ConverterError::Network("x".to_string()),
        ConverterError::Parse("x".to_string())
    );
}

#[test]
fn currency_list_is_rendered_on_one_line() {
    let list = CurrencyList {
        currencies: vec!["EUR".to_string(), "GBP".to_string(), "USD".to_string()],
    };
    assert_eq!(list.render(), "Available currencies: EUR, GBP, USD\n");
}

#[test]
fn short_currency_lists_are_rendered() {
    let one = CurrencyList {
        currencies: vec!["EUR".to_string()],
    };
    assert_eq!(one.render(), "Available currencies: EUR\n");
    let none = CurrencyList {
        currencies: Vec::new(),
    };
    assert_eq!(none.render(), "Available currencies: \n");
}
