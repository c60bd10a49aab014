use currency_converter::cache::{Cache, RateEntry};
use currency_converter::commands::{
    convert, convert_at, list, next_step, parse_cache_duration, parse_code, parse_precision,
    render_answer, settle, Event, RateSource, Session, Step,
};
use currency_converter::converter::Converter;
use currency_converter::helpers::ConverterError;
use currency_converter::sources::{ConverterDataSource, CurrencyList};

struct FixedSource {
    answer: Result<f64, ConverterError>,
    asked: Vec<(String, String)>,
}

impl FixedSource {
    fn returning(rate: f64) -> Self {
        FixedSource {
            answer: Ok(rate),
            asked: Vec::new(),
        }
    }

    fn failing(error: ConverterError) -> Self {
        FixedSource {
            answer: Err(error),
            asked: Vec::new(),
        }
    }
}

impl ConverterDataSource<f64> for FixedSource {
    fn load(&mut self, base: &str, target: &str) -> Result<Converter<f64>, ConverterError> {
        self.asked.push((base.to_string(), target.to_string()));
        match &self.answer {
            Ok(rate) => Ok(Converter::new(base.to_string(), target.to_string(), *rate)),
            Err(error) => Err(error.clone()),
        }
    }

    fn list(&mut self) -> Result<CurrencyList, ConverterError> {
        match &self.answer {
            Ok(_) => Ok(CurrencyList {
                currencies: vec!["EUR".to_string(), "USD".to_string()],
            }),
            Err(error) => Err(error.clone()),
        }
    }
}

fn usd_eur(rate: f64) -> Converter<f64> {
    Converter::new("USD".to_string(), "EUR".to_string(), rate)
}

#[test]
fn empty_cache_fetches_and_stores() {
    let mut cache = Cache::new();
    let mut source = FixedSource::returning(0.85);
    let outcome = convert_at(&mut cache, &mut source, "usd", "eur", 300, 5_000);
    let (converter, origin) = outcome.unwrap();
    assert_eq!(origin, RateSource::Fetch);
    assert_eq!(converter, usd_eur(0.85));
    assert_eq!(converter.convert(100.0), 85.0);
    assert_eq!(source.asked, vec![("USD".to_string(), "EUR".to_string())]);
    let rows = cache.entries();
    assert_eq!(rows.len(), 1);
    assert_eq!(rows[0].base, "USD");
    assert_eq!(rows[0].target, "EUR");
    assert_eq!(rows[0].entry, RateEntry::new(0.85, 5_000));
}

#[test]
fn fresh_entry_is_served_without_asking_the_source() {
    let mut cache = Cache::new();
    cache.set_at(&usd_eur(0.9), 4_990);
    let mut source = FixedSource::returning(0.85);
    let outcome = convert_at(&mut cache, &mut source, "usd", "eur", 300, 5_000);
    let (converter, origin) = outcome.unwrap();
    assert_eq!(origin, RateSource::Cache);
    assert_eq!(converter, usd_eur(0.9));
    assert_eq!(converter.convert(100.0), 100.0 * 0.9);
    assert!(source.asked.is_empty());
    assert_eq!(cache.entries()[0].entry, RateEntry::new(0.9, 4_990));
}

#[test]
fn stale_entry_is_ignored_and_replaced() {
    let mut cache = Cache::new();
    cache.set_at(&usd_eur(0.9), 4_600);
    let mut source = FixedSource::returning(0.85);
    let outcome = convert_at(&mut cache, &mut source, "USD", "EUR", 300, 5_000);
    let (converter, origin) = outcome.unwrap();
    assert_eq!(origin, RateSource::Fetch);
    assert_eq!(converter, usd_eur(0.85));
    assert_eq!(source.asked.len(), 1);
    let rows = cache.entries();
    assert_eq!(rows.len(), 1);
    assert_eq!(rows[0].entry, RateEntry::new(0.85, 5_000));
}

#[test]
fn entry_exactly_max_age_old_is_fetched_again() {
    let mut cache = Cache::new();
    cache.set_at(&usd_eur(0.9), 4_700);
    let mut source = FixedSource::returning(0.85);
    let (_, origin) = convert_at(&mut cache, &mut source, "usd", "eur", 300, 5_000).unwrap();
    assert_eq!(origin, RateSource::Fetch);
}

#[test]
fn rate_limited_fetch_is_passed_on_and_store_untouched() {
    let mut cache = Cache::new();
    cache.set_at(&usd_eur(0.9), 4_600);
    cache.set_at(&Converter::new("USD".to_string(), "GBP".to_string(), 0.75), 4_999);
    let mut before = cache.entries();
    let mut source = FixedSource::failing(ConverterError::RateLimited);
    let outcome = convert_at(&mut cache, &mut source, "usd", "eur", 300, 5_000);
    assert_eq!(outcome, Err(ConverterError::RateLimited));
    assert_eq!(source.asked.len(), 1);
    let mut after = cache.entries();
    before.sort_by(|a, b| a.target.cmp(&b.target));
    after.sort_by(|a, b| a.target.cmp(&b.target));
    assert_eq!(before, after);
}

#[test]
fn stale_entry_is_not_a_fallback_when_the_fetch_fails() {
    let mut cache = Cache::new();
    cache.set_at(&usd_eur(0.9), 4_600);
    let mut source = FixedSource::failing(ConverterError::ServerError);
    let outcome = convert_at(&mut cache, &mut source, "usd", "eur", 300, 5_000);
    assert_eq!(outcome, Err(ConverterError::ServerError));
}

#[test]
fn each_failure_is_passed_on_unchanged() {
    let failures = vec![
        ConverterError::Invalid {
            base: "USD".to_string(),
            target: "XXX".to_string(),
        },
        ConverterError::RateLimited,
        ConverterError::ServerError,
        ConverterError::Unauthorized,
        ConverterError::Network("no route".to_string()),
        ConverterError::Parse("expected value at line 1 column 1".to_string()),
    ];
    for failure in failures {
        let mut cache: Cache<f64> = Cache::new();
        let mut source = FixedSource::failing(failure.clone());
        let outcome = convert_at(&mut cache, &mut source, "usd", "xxx", 300, 5_000);
        assert_eq!(outcome, Err(failure));
        assert!(cache.entries().is_empty());
    }
}

#[test]
fn convert_with_the_wall_clock() {
    let mut cache = Cache::new();
    let mut source = FixedSource::returning(0.85);
    let (first, origin) = convert(&mut cache, &mut source, "usd", "eur", 300).unwrap();
    assert_eq!(origin, RateSource::Fetch);
    assert_eq!(first, usd_eur(0.85));
    let (second, origin) = convert(&mut cache, &mut source, "Usd", "eUr", 300).unwrap();
    assert_eq!(origin, RateSource::Cache);
    assert_eq!(second, usd_eur(0.85));
    assert_eq!(source.asked.len(), 1);
    let (_, origin) = convert(&mut cache, &mut source, "usd", "eur", 0).unwrap();
    assert_eq!(origin, RateSource::Fetch);
    assert_eq!(source.asked.len(), 2);
}

#[test]
fn convert_with_the_wall_clock_passes_failures_on() {
    let mut cache: Cache<f64> = Cache::new();
    let mut source = FixedSource::failing(ConverterError::Unauthorized);
    let outcome = convert(&mut cache, &mut source, "usd", "eur", 300);
    assert_eq!(outcome, Err(ConverterError::Unauthorized));
    assert!(cache.entries().is_empty());
}

#[test]
fn codes_are_upper_cased_before_the_lookup() {
    let mut cache = Cache::new();
    cache.set_at(&usd_eur(0.9), 4_990);
    let mut source = FixedSource::returning(0.85);
    let (converter, origin) =
        convert_at(&mut cache, &mut source, "uSd", "Eur", 300, 5_000).unwrap();
    assert_eq!(origin, RateSource::Cache);
    assert_eq!(converter.base, "USD");
    assert_eq!(converter.target, "EUR");
}

#[test]
fn settle_records_a_fetched_rate() {
    let mut cache = Cache::new();
    let outcome = settle(&mut cache, Ok(usd_eur(0.85)), 7_000);
    assert_eq!(outcome, Ok((usd_eur(0.85), RateSource::Fetch)));
    assert_eq!(cache.entries()[0].entry, RateEntry::new(0.85, 7_000));
}

#[test]
fn settle_passes_a_failure_on() {
    let mut cache: Cache<f64> = Cache::new();
    let outcome = settle(&mut cache, Err(ConverterError::RateLimited), 7_000);
    assert_eq!(outcome, Err(ConverterError::RateLimited));
    assert!(cache.entries().is_empty());
}

#[test]
fn list_renders_what_the_source_lists() {
    let mut source = FixedSource::returning(1.0);
    assert_eq!(
        list(&mut source),
        Ok("Available currencies: EUR, USD\n".to_string())
    );
    let mut source = FixedSource::failing(ConverterError::ServerError);
    assert_eq!(list(&mut source), Err(ConverterError::ServerError));
}

#[test]
fn cache_duration_is_read_off_a_line() {
    assert_eq!(parse_cache_duration("60\n"), 60);
    assert_eq!(parse_cache_duration("  0 \r\n"), 0);
    assert_eq!(parse_cache_duration("+7"), 7);
    assert_eq!(parse_cache_duration("007"), 7);
    assert_eq!(parse_cache_duration("18446744073709551615"), u64::MAX);
}

#[test]
fn cache_duration_falls_back_to_the_default() {
    assert_eq!(parse_cache_duration(""), 300);
    assert_eq!(parse_cache_duration("\n"), 300);
    assert_eq!(parse_cache_duration("abc"), 300);
    assert_eq!(parse_cache_duration("-1"), 300);
    assert_eq!(parse_cache_duration("+"), 300);
    assert_eq!(parse_cache_duration("1 2"), 300);
    assert_eq!(parse_cache_duration("1_000"), 300);
    assert_eq!(parse_cache_duration("12.5"), 300);
    assert_eq!(parse_cache_duration("18446744073709551616"), 300);
}

#[test]
fn precision_is_read_off_a_line() {
    assert_eq!(parse_precision("4\n"), 4);
    assert_eq!(parse_precision(" 0 "), 0);
    assert_eq!(parse_precision(""), 2);
    assert_eq!(parse_precision("two"), 2);
    assert_eq!(parse_precision("-3"), 2);
}

#[test]
fn code_is_trimmed_and_upper_cased() {
    assert_eq!(parse_code(" usd \n"), "USD");
    assert_eq!(parse_code("Eur"), "EUR");
    assert_eq!(parse_code("\t\n"), "");
}

#[test]
fn single_conversion_steps() {
    assert_eq!(next_step(Session::Once, Event::Converted), Step::Persist);
    assert_eq!(
        next_step(Session::Once, Event::Saved),
        Step::Quit { failed: false }
    );
    assert_eq!(
        next_step(Session::Once, Event::SaveFailed),
        Step::Quit { failed: true }
    );
    assert_eq!(
        next_step(Session::Once, Event::ConversionFailed),
        Step::Quit { failed: true }
    );
    assert_eq!(
        next_step(Session::Once, Event::AmountRejected),
        Step::Quit { failed: true }
    );
}

#[test]
fn interactive_steps() {
    assert_eq!(next_step(Session::Interactive, Event::Converted), Step::Persist);
    assert_eq!(next_step(Session::Interactive, Event::Saved), Step::Prompt);
    assert_eq!(
        next_step(Session::Interactive, Event::SaveFailed),
        Step::Quit { failed: true }
    );
    assert_eq!(
        next_step(Session::Interactive, Event::ConversionFailed),
        Step::Prompt
    );
    assert_eq!(
        next_step(Session::Interactive, Event::AmountRejected),
        Step::Prompt
    );
}

#[test]
fn render_answer_renders_a_list() {
    let answer = Ok(CurrencyList {
        currencies: vec!["EUR".to_string(), "USD".to_string()],
    });
    assert_eq!(
        render_answer(answer),
        Ok("Available currencies: EUR, USD\n".to_string())
    );
}

#[test]
fn render_answer_passes_a_failure_on() {
    assert_eq!(
        render_answer(Err(ConverterError::RateLimited)),
        Err(ConverterError::RateLimited)
    );
    assert_eq!(
        render_answer(Err(ConverterError::Parse("bad".to_string()))),
        Err(ConverterError::Parse("bad".to_string()))
    );
}
