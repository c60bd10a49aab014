use crate::converter::Converter;
use crate::helpers::ConverterError;
use crate::sources::json::{
    as_object, error_text, json_document, json_error_text, json_keys, json_member, json_object,
    keys_of, member, parse_document,
};
use crate::sources::CurrencyList;
use crate::text::{append_decimal, decimal};
use vstd::prelude::*;
use vstd::string::StringExecFns;

verus! {

/// What the service says about a response as a whole.
#[derive(Debug, PartialEq, Clone)]
pub struct Meta {
    pub last_updated_at: String,
    /// The base currency of the request. The service does not send it; it is
    /// filled in when the response is received.
    pub base: Option<String>,
}

/// One quoted currency of a response.
#[derive(Debug, PartialEq, Clone)]
pub struct Currency<R> {
    pub code: String,
    pub value: R,
}

/// A response of the service to a request for rates: the quoted currencies,
/// each under the key it was sent with, in the order in which the response is
/// read.
#[derive(Debug, PartialEq, Clone)]
pub struct CurrencyApi<R> {
    pub meta: Meta,
    pub data: Vec<(String, Currency<R>)>,
}

impl<R: Copy> CurrencyApi<R> {
    /// The response with `base` noted as the request's base currency.
    pub fn with_base(self, base: &str) -> (noted: Self)
        ensures
            noted.meta.base matches Some(code) && code@ == base@,
            noted.meta.last_updated_at == self.meta.last_updated_at,
            noted.data == self.data,
    {
        CurrencyApi {
            meta: Meta {
                last_updated_at: self.meta.last_updated_at,
                base: Some(String::from_str(base)),
            },
            data: self.data,
        }
    }

    /// Whether a converter can be read off the response: the base currency
    /// has been noted and at least one currency is quoted.
    pub open spec fn is_complete(self) -> bool {
        self.meta.base is Some && self.data@.len() > 0
    }

    /// Decides `is_complete`.
    pub fn check_complete(&self) -> (complete: bool)
        ensures
            complete == self.is_complete(),
    {
        self.meta.base.is_some() && self.data.len() > 0
    }

    /// The converter that the response stands for: from the noted base to the
    /// first quoted currency, named by its key, at that currency's value.
    pub fn into_converter(self) -> (converter: Converter<R>)
        requires
            self.is_complete(),
        ensures
            converter.base == self.meta.base->0,
            converter.target@ == self.data@[0].0@,
            converter.rate == self.data@[0].1.value,
    {
        let target = self.data[0].0.clone();
        let rate = self.data[0].1.value;
        Converter::new(self.meta.base.unwrap(), target, rate)
    }
}

/// What `http::StatusCode`'s `Display` writes for a status in 100..=999: the
/// number, a space, and the reason phrase that is registered for it or a
/// placeholder.
pub uninterp spec fn status_line(status: u16) -> Seq<char>;

/// `http::StatusCode::from_u16` followed by the status code's `to_string`,
/// reached as `reqwest::StatusCode`. A number is a status code exactly when it
/// lies in 100..=999; the text of one is known here only by its name.
#[verifier::external_body]
fn status_display(status: u16) -> (text: Option<String>)
    ensures
        text is Some <==> 100 <= status <= 999,
        text matches Some(line) ==> line@ == status_line(status),
{
    match reqwest::StatusCode::from_u16(status) {
        Ok(code) => Some(code.to_string()),
        Err(_) => None,
    }
}

/// How a status is written in a message: as the status line where the number
/// is a status code, and as the bare number where it is not.
pub open spec fn status_text(status: u16) -> Seq<char> {
    if 100 <= status <= 999 {
        status_line(status)
    } else {
        decimal(status as nat)
    }
}

pub open spec fn unexpected_status_text() -> Seq<char> {
    "There was a network error while fetching data from the API, status code: "@
}

pub open spec fn transport_failure_text() -> Seq<char> {
    "There was a network error while fetching data from the API: "@
}

pub open spec fn rate_url_text() -> Seq<char> {
    "https://api.currencyapi.com/v3/latest?apikey="@
}

pub open spec fn list_url_text() -> Seq<char> {
    "https://api.currencyapi.com/v3/currencies?apikey="@
}

/// The failure that stands for a status without a variant of its own.
pub fn unexpected_status(status: u16) -> (error: ConverterError)
    ensures
        error matches ConverterError::Network(sentence) && sentence@ == unexpected_status_text()
            + status_text(status),
{
    let mut sentence = String::from_str(
        "There was a network error while fetching data from the API, status code: ",
    );
    match status_display(status) {
        Some(line) => {
            sentence.append(line.as_str());
        },
        None => {
            append_decimal(&mut sentence, status);
        },
    }
    ConverterError::Network(sentence)
}

/// The failure that stands for a request that never got an answer; `detail`
/// is the transport's own account of it.
pub fn transport_failure(detail: &str) -> (error: ConverterError)
    ensures
        error matches ConverterError::Network(sentence) && sentence@ == transport_failure_text()
            + detail@,
{
    let mut sentence = String::from_str(
        "There was a network error while fetching data from the API: ",
    );
    sentence.append(detail);
    ConverterError::Network(sentence)
}

/// The address to request the rate from `base` to `target` at.
pub fn rate_url(api_key: &str, base: &str, target: &str) -> (url: String)
    ensures
        url@ == rate_url_text() + api_key@ + "&currencies="@ + target@ + "&base_currency="@
            + base@,
{
    let mut url = String::from_str("https://api.currencyapi.com/v3/latest?apikey=");
    url.append(api_key);
    url.append("&currencies=");
    url.append(target);
    url.append("&base_currency=");
    url.append(base);
    url
}

/// The address to request the supported currencies at.
pub fn list_url(api_key: &str) -> (url: String)
    ensures
        url@ == list_url_text() + api_key@,
{
    let mut url = String::from_str("https://api.currencyapi.com/v3/currencies?apikey=");
    url.append(api_key);
    url
}

/// Judges the status of an answer to a request for the rate from `base` to
/// `target`: 200 lets the answer through, and every other status is the
/// failure that it stands for.
pub fn check_rate_status(status: u16, base: &str, target: &str) -> (verdict: Result<
    (),
    ConverterError,
>)
    ensures
        verdict is Ok <==> status == 200,
        status == 422 ==> (verdict matches Err(ConverterError::Invalid { base: b, target: t })
            && b@ == base@ && t@ == target@),
        status == 429 ==> verdict == Err::<(), ConverterError>(ConverterError::RateLimited),
        status == 500 ==> verdict == Err::<(), ConverterError>(ConverterError::ServerError),
        status == 401 ==> verdict == Err::<(), ConverterError>(ConverterError::Unauthorized),
        status != 200 && status != 422 && status != 429 && status != 500 && status != 401 ==> (
        verdict matches Err(ConverterError::Network(sentence)) && sentence@
            == unexpected_status_text() + status_text(status)),
{
    if status == 200 {
        Ok(())
    } else if status == 422 {
        Err(
            ConverterError::Invalid {
                base: String::from_str(base),
                target: String::from_str(target),
            },
        )
    } else {
        check_list_status(status)
    }
}

/// Judges the status of an answer to a request for the supported currencies.
/// No status means an invalid pair here, so 422 is unexpected like any other.
pub fn check_list_status(status: u16) -> (verdict: Result<(), ConverterError>)
    ensures
        verdict is Ok <==> status == 200,
        status == 429 ==> verdict == Err::<(), ConverterError>(ConverterError::RateLimited),
        status == 500 ==> verdict == Err::<(), ConverterError>(ConverterError::ServerError),
        status == 401 ==> verdict == Err::<(), ConverterError>(ConverterError::Unauthorized),
        status != 200 && status != 429 && status != 500 && status != 401 ==> (verdict matches Err(
            ConverterError::Network(sentence),
        ) && sentence@ == unexpected_status_text() + status_text(status)),
{
    if status == 200 {
        Ok(())
    } else if status == 429 {
        Err(ConverterError::RateLimited)
    } else if status == 500 {
        Err(ConverterError::ServerError)
    } else if status == 401 {
        Err(ConverterError::Unauthorized)
    } else {
        Err(unexpected_status(status))
    }
}

/// Turns the body of an answer that passed the status check into a
/// converter. A body that could not be read, of which `detail` is the
/// reader's account, is a parse failure; one that was read has the request's
/// base noted and is taken at its first quoted currency.
pub fn rate_from_body<R: Copy>(body: Result<CurrencyApi<R>, String>, base: &str) -> (outcome:
    Result<Converter<R>, ConverterError>)
    requires
        body matches Ok(response) ==> response.data@.len() > 0,
    ensures
        match body {
            Ok(response) => outcome matches Ok(converter) && converter.base@ == base@
                && converter.target@ == response.data@[0].0@ && converter.rate
                == response.data@[0].1.value,
            Err(detail) => outcome == Err::<Converter<R>, ConverterError>(
                ConverterError::Parse(detail),
            ),
        },
{
    match body {
        Ok(response) => Ok(response.with_base(base).into_converter()),
        Err(detail) => Err(ConverterError::Parse(detail)),
    }
}

pub open spec fn unexpected_format_text() -> Seq<char> {
    "The API response was not in the expected format."@
}

/// The codes that the body of an answer to a request for the supported
/// currencies lists, or the detail of why it lists none: the body must be a
/// JSON document whose member `data` is an object, and the codes are that
/// object's keys.
pub open spec fn listed_codes(body: Seq<char>) -> Result<Seq<Seq<char>>, Seq<char>> {
    match json_document(body) {
        Ok(document) => match json_object(json_member(document, "data"@)) {
            Some(members) => Ok(json_keys(members)),
            None => Err(unexpected_format_text()),
        },
        Err(error) => Err(json_error_text(error)),
    }
}

/// Makes the list of supported currencies from the keys found under `data`;
/// where `data` was not an object there are none, and that is a parse
/// failure.
pub fn currency_list_from(keys: Option<Vec<String>>) -> (outcome: Result<
    CurrencyList,
    ConverterError,
>)
    ensures
        match keys {
            Some(codes) => outcome == Ok::<CurrencyList, ConverterError>(
                CurrencyList { currencies: codes },
            ),
            None => outcome matches Err(ConverterError::Parse(detail)) && detail@
                == unexpected_format_text(),
        },
{
    match keys {
        Some(codes) => Ok(CurrencyList { currencies: codes }),
        None => Err(
            ConverterError::Parse(
                String::from_str("The API response was not in the expected format."),
            ),
        ),
    }
}

/// Reads the supported currencies off the body of an answer that passed the
/// status check.
pub fn currency_list_from_body(body: &str) -> (outcome: Result<CurrencyList, ConverterError>)
    ensures
        match listed_codes(body@) {
            Ok(codes) => outcome matches Ok(list) && list.codes() == codes,
            Err(text) => outcome matches Err(ConverterError::Parse(detail)) && detail@ == text,
        },
{
    match parse_document(body) {
        Ok(document) => {
            let keys = match as_object(member(&document, "data")) {
                Some(members) => Some(keys_of(members)),
                None => None,
            };
            let outcome = currency_list_from(keys);
            proof {
                if outcome is Ok {
                    assert(outcome->Ok_0.codes() =~= listed_codes(body@)->Ok_0);
                }
            }
            outcome
        },
        Err(error) => Err(ConverterError::Parse(error_text(&error))),
    }
}

} // verus!
