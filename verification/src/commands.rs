use crate::cache::{fresh_rate, with_rate, Cache, PairKey, RateEntry};
use crate::clock::unix_now;
use crate::converter::Converter;
use crate::helpers::ConverterError;
use crate::sources::{ConverterDataSource, CurrencyList};
use crate::text::{
    parse_u64, parse_usize, to_uppercase, trim, trimmed, uppercase, written_number,
};
use vstd::prelude::*;

verus! {

/// Where a conversion's rate came from.
#[derive(Debug, PartialEq, Eq, Clone, Copy)]
pub enum RateSource {
    /// The store held a fresh rate for the pair.
    Cache,
    /// The rate was fetched from the data source and recorded in the store.
    Fetch,
}

/// How a conversion may end, given the store before and after it.
///
/// `base` and `target` are the codes as requested, before normalisation. The
/// store was consulted at `looked_at`; a fetched rate was recorded at
/// `stored_at`.
///
/// * If the store serves a fresh rate for the upper-cased pair, that rate is
///   the result, tagged as cached, and the store does not change.
/// * Otherwise the result is either a fetched converter, which the store then
///   holds under the converter's own pair, or the failure of the fetch, and
///   then the store does not change.
pub open spec fn conversion_outcome<R: Copy>(
    before: Map<PairKey, RateEntry<R>>,
    after: Map<PairKey, RateEntry<R>>,
    base: Seq<char>,
    target: Seq<char>,
    duration: u64,
    looked_at: u64,
    stored_at: u64,
    outcome: Result<(Converter<R>, RateSource), ConverterError>,
) -> bool {
    match fresh_rate(before, uppercase(base), uppercase(target), looked_at, duration) {
        Some(rate) => {
            &&& outcome matches Ok((converter, source))
            &&& source == RateSource::Cache
            &&& converter.base@ == uppercase(base)
            &&& converter.target@ == uppercase(target)
            &&& converter.rate == rate
            &&& after == before
        },
        None => match outcome {
            Ok((converter, source)) => {
                &&& source == RateSource::Fetch
                &&& after == with_rate(
                    before,
                    converter.base@,
                    converter.target@,
                    converter.rate,
                    stored_at,
                )
            },
            Err(_) => after == before,
        },
    }
}

/// Concludes a conversion that had to go to the data source: a fetched rate
/// is recorded in the store as of `now` and returned tagged as fetched; a
/// failure is passed on as it came, and the store is left alone.
pub fn settle<R: Copy>(
    cache: &mut Cache<R>,
    fetched: Result<Converter<R>, ConverterError>,
    now: u64,
) -> (outcome: Result<(Converter<R>, RateSource), ConverterError>)
    ensures
        match fetched {
            Ok(converter) => {
                &&& outcome == Ok::<(Converter<R>, RateSource), ConverterError>(
                    (converter, RateSource::Fetch),
                )
                &&& final(cache)@ == with_rate(
                    old(cache)@,
                    converter.base@,
                    converter.target@,
                    converter.rate,
                    now,
                )
            },
            Err(error) => {
                &&& outcome == Err::<(Converter<R>, RateSource), ConverterError>(error)
                &&& final(cache)@ == old(cache)@
            },
        },
{
    match fetched {
        Ok(converter) => {
            cache.set_at(&converter, now);
            Ok((converter, RateSource::Fetch))
        },
        Err(error) => Err(error),
    }
}

/// Converts against a clock reading that the caller supplies: serves the
/// pair from the store if it holds a fresh rate, and otherwise asks `source`
/// once and records what it returns. On a hit `source` is not touched.
pub fn convert_at<R: Copy, S: ConverterDataSource<R>>(
    cache: &mut Cache<R>,
    source: &mut S,
    base: &str,
    target: &str,
    duration: u64,
    now: u64,
) -> (outcome: Result<(Converter<R>, RateSource), ConverterError>)
    ensures
        conversion_outcome(old(cache)@, final(cache)@, base@, target@, duration, now, now, outcome),
        outcome matches Ok((_, RateSource::Cache)) ==> *final(source) == *old(source),
{
    let base = to_uppercase(base);
    let target = to_uppercase(target);
    match cache.get_at(base.as_str(), target.as_str(), duration, now) {
        Some(converter) => Ok((converter, RateSource::Cache)),
        None => {
            let fetched = source.load(base.as_str(), target.as_str());
            settle(cache, fetched, now)
        },
    }
}

/// Converts against the wall clock, which is read once for the lookup and,
/// if a rate had to be fetched, once more when it is recorded.
pub fn convert<R: Copy, S: ConverterDataSource<R>>(
    cache: &mut Cache<R>,
    source: &mut S,
    base: &str,
    target: &str,
    duration: u64,
) -> (outcome: Result<(Converter<R>, RateSource), ConverterError>)
    ensures
        exists|looked_at: u64, stored_at: u64| #[trigger]
            conversion_outcome(
                old(cache)@,
                final(cache)@,
                base@,
                target@,
                duration,
                looked_at,
                stored_at,
                outcome,
            ),
        outcome is Err ==> final(cache)@ == old(cache)@,
        outcome matches Ok((_, RateSource::Cache)) ==> *final(source) == *old(source),
{
    let base_code = to_uppercase(base);
    let target_code = to_uppercase(target);
    let looked_at = unix_now();
    match cache.get_at(base_code.as_str(), target_code.as_str(), duration, looked_at) {
        Some(converter) => {
            let outcome = Ok((converter, RateSource::Cache));
            assert(conversion_outcome(
                old(cache)@,
                cache@,
                base@,
                target@,
                duration,
                looked_at,
                looked_at,
                outcome,
            ));
            outcome
        },
        None => {
            let fetched = source.load(base_code.as_str(), target_code.as_str());
            let stored_at = unix_now();
            let outcome = settle(cache, fetched, stored_at);
            assert(conversion_outcome(
                old(cache)@,
                cache@,
                base@,
                target@,
                duration,
                looked_at,
                stored_at,
                outcome,
            ));
            outcome
        },
    }
}

/// Makes of a data source's answer what the user is shown: a list is
/// rendered, and a failure is passed on as it came.
pub fn render_answer(answer: Result<CurrencyList, ConverterError>) -> (outcome: Result<
    String,
    ConverterError,
>)
    ensures
        match answer {
            Ok(listed) => outcome matches Ok(text) && text@ == listed.rendered(),
            Err(error) => outcome == Err::<String, ConverterError>(error),
        },
{
    match answer {
        Ok(listed) => Ok(listed.render()),
        Err(error) => Err(error),
    }
}

/// Asks `source` once for the currencies it supports and renders the answer
/// for the user. A failure is passed on as it came.
pub fn list<R, S: ConverterDataSource<R>>(source: &mut S) -> (outcome: Result<
    String,
    ConverterError,
>)
    ensures
        outcome matches Ok(text) ==> exists|listed: CurrencyList| text@ == #[trigger] listed.rendered(),
{
    render_answer(source.list())
}

/// How the program was started.
#[derive(Debug, PartialEq, Eq, Clone, Copy)]
pub enum Session {
    /// One conversion, given on the command line.
    Once,
    /// Conversions asked for one after another until the program is stopped.
    Interactive,
}

/// What has just happened in a session.
#[derive(Debug, PartialEq, Eq, Clone, Copy)]
pub enum Event {
    /// The amount that the user typed is not a number.
    AmountRejected,
    /// A conversion came to a result.
    Converted,
    /// A conversion failed at the data source.
    ConversionFailed,
    /// The store was written to durable storage.
    Saved,
    /// The store could not be written to durable storage.
    SaveFailed,
}

/// What a session does next.
#[derive(Debug, PartialEq, Eq, Clone, Copy)]
pub enum Step {
    /// Ask for the next conversion.
    Prompt,
    /// Show the result and write the store to durable storage.
    Persist,
    /// Stop, reporting success or failure in the exit status.
    Quit { failed: bool },
}

/// The step that follows `event`.
///
/// A result is always shown and the store saved. A store that cannot be saved
/// ends any session in failure. Everything else ends a single conversion, in
/// failure unless it is the save that succeeded, and sends an interactive
/// session back to the prompt.
pub open spec fn step_after(session: Session, event: Event) -> Step {
    match event {
        Event::Converted => Step::Persist,
        Event::SaveFailed => Step::Quit { failed: true },
        Event::Saved => match session {
            Session::Once => Step::Quit { failed: false },
            Session::Interactive => Step::Prompt,
        },
        Event::AmountRejected | Event::ConversionFailed => match session {
            Session::Once => Step::Quit { failed: true },
            Session::Interactive => Step::Prompt,
        },
    }
}

/// Decides what a session does after `event`.
pub fn next_step(session: Session, event: Event) -> (step: Step)
    ensures
        step == step_after(session, event),
{
    match (session, event) {
        (_, Event::Converted) => Step::Persist,
        (_, Event::SaveFailed) => Step::Quit { failed: true },
        (Session::Once, Event::Saved) => Step::Quit { failed: false },
        (Session::Once, _) => Step::Quit { failed: true },
        (Session::Interactive, _) => Step::Prompt,
    }
}

/// The age, in seconds, below which a stored rate is served when the user
/// names none.
pub const DEFAULT_CACHE_DURATION: u64 = 300;

/// The number of decimals shown when the user names none.
pub const DEFAULT_PRECISION: usize = 2;

/// Reads the allowed age off a line of input: the number that the line
/// writes once the white space round it is dropped, and the default where it
/// writes none.
pub fn parse_cache_duration(line: &str) -> (duration: u64)
    ensures
        duration == match written_number(trimmed(line@), u64::MAX as nat) {
            Some(n) => n as u64,
            None => DEFAULT_CACHE_DURATION,
        },
{
    match parse_u64(trim(line)) {
        Some(duration) => duration,
        None => DEFAULT_CACHE_DURATION,
    }
}

/// Reads the number of decimals off a line of input, in the same way.
pub fn parse_precision(line: &str) -> (precision: usize)
    ensures
        precision == match written_number(trimmed(line@), usize::MAX as nat) {
            Some(n) => n as usize,
            None => DEFAULT_PRECISION,
        },
{
    match parse_usize(trim(line)) {
        Some(precision) => precision,
        None => DEFAULT_PRECISION,
    }
}

/// Reads a currency code off a line of input: the line without the white
/// space round it, in upper case.
pub fn parse_code(line: &str) -> (code: String)
    ensures
        code@ == uppercase(trimmed(line@)),
{
    to_uppercase(trim(line))
}

} // verus!
