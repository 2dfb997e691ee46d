//! One day's rate: out of the cache where it is there, else from the rate
//! service and then into the cache.
//!
//! The library decides and its caller acts. A `Lookup` says what to do
//! next; the caller does it and reports what came of it.

use crate::date::{iso_date_text, Date};
use crate::json::{find_rate, rate_in_answer, Json};
use crate::rate::Rate;
use vstd::prelude::*;

verus! {

/// How long the rate service is waited for, in seconds.
pub const REQUEST_TIMEOUT_SECONDS: u64 = 10;

/// Where the rate service is asked. The date follows.
pub open spec fn exchange_url() -> Seq<char> {
    "https://api.exchangeratesapi.io/"@
}

/// The name of the file that caches the rate of two currencies on the
/// date with the given text.
pub open spec fn cache_file_text(
    currency_from: Seq<char>,
    currency_to: Seq<char>,
    formatted_date: Seq<char>,
) -> Seq<char> {
    currency_from + "_"@ + currency_to + "_"@ + formatted_date + ".cached"@
}

/// The address at which the rates of the date with the given text are
/// asked for.
pub open spec fn request_url_text(formatted_date: Seq<char>) -> Seq<char> {
    exchange_url() + formatted_date
}

/// The currencies to ask rates for: both, with a comma between them.
pub open spec fn symbols_text(currency_from: Seq<char>, currency_to: Seq<char>) -> Seq<char> {
    currency_from + ","@ + currency_to
}

/// The name of the file that caches the rate of two currencies on a date,
/// given the date as text.
pub fn cache_file_name(currency_from: &str, currency_to: &str, formatted_date: &str) -> (name:
    String)
    ensures
        name@ == cache_file_text(currency_from@, currency_to@, formatted_date@),
{
    let mut name = currency_from.to_owned();
    name.append("_");
    name.append(currency_to);
    name.append("_");
    name.append(formatted_date);
    name.append(".cached");
    name
}

/// The address at which the rates of a date are asked for, given the date
/// as text.
pub fn request_url(formatted_date: &str) -> (url: String)
    ensures
        url@ == request_url_text(formatted_date@),
{
    let mut url = "https://api.exchangeratesapi.io/".to_owned();
    url.append(formatted_date);
    url
}

/// The currencies to ask rates for.
pub fn request_symbols(currency_from: &str, currency_to: &str) -> (symbols: String)
    ensures
        symbols@ == symbols_text(currency_from@, currency_to@),
{
    let mut symbols = currency_from.to_owned();
    symbols.append(",");
    symbols.append(currency_to);
    symbols
}

/// Why a lookup gave no rate.
#[derive(Clone, Copy, Debug, PartialEq, Eq, Structural)]
pub enum LookupFailure {
    /// The cache holds an entry for the day that cannot be read as a rate.
    CacheCorrupt,
    /// The rate service could not be reached or did not answer in time.
    NetworkFailure,
    /// The answer of the rate service holds no rate for the currency.
    MalformedResponse,
    /// The rate could not be put into the cache.
    CacheWriteFailed,
    /// The lookup was told of something that it had not asked for.
    OutOfStep,
}

/// How far a lookup has come.
#[derive(Clone, Copy, Debug, PartialEq, Eq, Structural)]
pub enum Phase {
    Start,
    ReadingCache,
    Fetching,
    /// The service gave this rate, which is on its way into the cache.
    Storing(Rate),
    Finished,
}

/// What the caller reports to a lookup.
#[derive(Debug)]
pub enum LookupEvent {
    /// The lookup is to begin.
    Begin,
    /// The cache holds nothing for the day.
    CacheMissing,
    /// The cache holds this rate for the day.
    CacheHit(Rate),
    /// The cache holds something for the day that is no rate.
    CacheCorrupt,
    /// The rate service gave this answer.
    Response(Json),
    /// The rate service gave no answer.
    NetworkFailure,
    /// The rate is in the cache.
    Stored,
    /// The rate could not be put into the cache.
    StoreFailed,
}

/// What a lookup asks its caller to do.
#[derive(Debug)]
pub enum LookupAction {
    /// Read the cache file of this name.
    ReadCache { file: String },
    /// Ask the rate service at `url` for the rates of `symbols` with `base`
    /// as their base, and wait no longer than the time given.
    Fetch { url: String, symbols: String, base: String, timeout_seconds: u64 },
    /// Write the rate to the cache file of this name.
    Store { file: String, value: Rate },
    /// The lookup is over, with this result.
    Finish(Result<Rate, LookupFailure>),
}

/// An action in contracts.
pub enum ActionView {
    ReadCache { file: Seq<char> },
    Fetch { url: Seq<char>, symbols: Seq<char>, base: Seq<char>, timeout_seconds: u64 },
    Store { file: Seq<char>, value: Rate },
    Finish(Result<Rate, LookupFailure>),
}

impl View for LookupAction {
    type V = ActionView;

    open spec fn view(&self) -> ActionView {
        match *self {
            LookupAction::ReadCache { file } => ActionView::ReadCache { file: file@ },
            LookupAction::Fetch { url, symbols, base, timeout_seconds } => ActionView::Fetch {
                url: url@,
                symbols: symbols@,
                base: base@,
                timeout_seconds,
            },
            LookupAction::Store { file, value } => ActionView::Store { file: file@, value },
            LookupAction::Finish(result) => ActionView::Finish(result),
        }
    }
}

/// A lookup in contracts: what it looks up, and how far it has come.
pub struct LookupView {
    pub currency_from: Seq<char>,
    pub currency_to: Seq<char>,
    pub day: int,
    pub phase: Phase,
}

/// What a lookup in a given state does when it is told of an event: the
/// phase that it enters, and what it asks for.
///
/// A rate that the cache holds is the result, and the service is not
/// asked. An entry that is no rate ends the lookup: it is not taken for a
/// missing one. A rate from the service goes into the cache before it is
/// the result.
pub open spec fn transition(lookup: LookupView, event: LookupEvent) -> (Phase, ActionView) {
    let file = cache_file_text(
        lookup.currency_from,
        lookup.currency_to,
        iso_date_text(lookup.day),
    );
    match (lookup.phase, event) {
        (Phase::Start, LookupEvent::Begin) => (Phase::ReadingCache, ActionView::ReadCache { file }),
        (Phase::ReadingCache, LookupEvent::CacheHit(value)) => (
            Phase::Finished,
            ActionView::Finish(Ok(value)),
        ),
        (Phase::ReadingCache, LookupEvent::CacheCorrupt) => (
            Phase::Finished,
            ActionView::Finish(Err(LookupFailure::CacheCorrupt)),
        ),
        (Phase::ReadingCache, LookupEvent::CacheMissing) => (
            Phase::Fetching,
            ActionView::Fetch {
                url: request_url_text(iso_date_text(lookup.day)),
                symbols: symbols_text(lookup.currency_from, lookup.currency_to),
                base: lookup.currency_from,
                timeout_seconds: REQUEST_TIMEOUT_SECONDS,
            },
        ),
        (Phase::Fetching, LookupEvent::Response(answer)) => match rate_in_answer(
            answer,
            lookup.currency_to,
        ) {
            Some(value) => (Phase::Storing(value), ActionView::Store { file, value }),
            None => (Phase::Finished, ActionView::Finish(Err(LookupFailure::MalformedResponse))),
        },
        (Phase::Fetching, LookupEvent::NetworkFailure) => (
            Phase::Finished,
            ActionView::Finish(Err(LookupFailure::NetworkFailure)),
        ),
        (Phase::Storing(value), LookupEvent::Stored) => (
            Phase::Finished,
            ActionView::Finish(Ok(value)),
        ),
        (Phase::Storing(_), LookupEvent::StoreFailed) => (
            Phase::Finished,
            ActionView::Finish(Err(LookupFailure::CacheWriteFailed)),
        ),
        _ => (Phase::Finished, ActionView::Finish(Err(LookupFailure::OutOfStep))),
    }
}

/// The lookup of the rate of two currencies on one date.
#[derive(Debug)]
pub struct Lookup {
    currency_from: String,
    currency_to: String,
    date: Date,
    phase: Phase,
}

impl View for Lookup {
    type V = LookupView;

    closed spec fn view(&self) -> LookupView {
        LookupView {
            currency_from: self.currency_from@,
            currency_to: self.currency_to@,
            day: self.date@,
            phase: self.phase,
        }
    }
}

impl Lookup {
    /// A lookup that has not begun.
    pub fn new(currency_from: &str, currency_to: &str, date: &Date) -> (lookup: Lookup)
        ensures
            lookup@ == (LookupView {
                currency_from: currency_from@,
                currency_to: currency_to@,
                day: date@,
                phase: Phase::Start,
            }),
    {
        Lookup {
            currency_from: currency_from.to_owned(),
            currency_to: currency_to.to_owned(),
            date: *date,
            phase: Phase::Start,
        }
    }

    /// How far the lookup has come.
    pub fn phase(&self) -> (phase: Phase)
        ensures
            phase == self@.phase,
    {
        self.phase
    }

    /// Tells the lookup of an event and gives what it asks for next.
    pub fn step(&mut self, event: LookupEvent) -> (action: LookupAction)
        ensures
            final(self)@ == (LookupView { phase: transition(old(self)@, event).0, ..old(self)@ }),
            action@ == transition(old(self)@, event).1,
    {
        let (phase, action) = match (self.phase, event) {
            (Phase::Start, LookupEvent::Begin) => (
                Phase::ReadingCache,
                LookupAction::ReadCache { file: self.cache_file() },
            ),
            (Phase::ReadingCache, LookupEvent::CacheHit(value)) => (
                Phase::Finished,
                LookupAction::Finish(Ok(value)),
            ),
            (Phase::ReadingCache, LookupEvent::CacheCorrupt) => (
                Phase::Finished,
                LookupAction::Finish(Err(LookupFailure::CacheCorrupt)),
            ),
            (Phase::ReadingCache, LookupEvent::CacheMissing) => (
                Phase::Fetching,
                LookupAction::Fetch {
                    url: request_url(self.date.iso_text().as_str()),
                    symbols: request_symbols(
                        self.currency_from.as_str(),
                        self.currency_to.as_str(),
                    ),
                    base: self.currency_from.clone(),
                    timeout_seconds: REQUEST_TIMEOUT_SECONDS,
                },
            ),
            (Phase::Fetching, LookupEvent::Response(answer)) => match find_rate(
                &answer,
                self.currency_to.as_str(),
            ) {
                Some(value) => (
                    Phase::Storing(value),
                    LookupAction::Store { file: self.cache_file(), value },
                ),
                None => (
                    Phase::Finished,
                    LookupAction::Finish(Err(LookupFailure::MalformedResponse)),
                ),
            },
            (Phase::Fetching, LookupEvent::NetworkFailure) => (
                Phase::Finished,
                LookupAction::Finish(Err(LookupFailure::NetworkFailure)),
            ),
            (Phase::Storing(value), LookupEvent::Stored) => (
                Phase::Finished,
                LookupAction::Finish(Ok(value)),
            ),
            (Phase::Storing(_), LookupEvent::StoreFailed) => (
                Phase::Finished,
                LookupAction::Finish(Err(LookupFailure::CacheWriteFailed)),
            ),
            _ => (Phase::Finished, LookupAction::Finish(Err(LookupFailure::OutOfStep))),
        };
        self.phase = phase;
        action
    }

    fn cache_file(&self) -> (name: String)
        ensures
            name@ == cache_file_text(
                self@.currency_from,
                self@.currency_to,
                iso_date_text(self@.day),
            ),
    {
        cache_file_name(
            self.currency_from.as_str(),
            self.currency_to.as_str(),
            self.date.iso_text().as_str(),
        )
    }
}

} // verus!
