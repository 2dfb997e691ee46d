//! What goes into an overview of exchange rates, and what comes out.

use crate::date::Date;
use crate::rate::Rate;
use vstd::prelude::*;

verus! {

/// What to look up: two currencies and a range of dates, both ends
/// included.
#[derive(Clone, Debug)]
pub struct Opt {
    pub currency_from: String,
    pub currency_to: String,
    pub date_from: Date,
    pub date_to: Date,
}

/// A rate together with the date that it was retrieved for.
#[derive(Clone, Copy, Debug, PartialEq, Eq)]
pub struct RateSample {
    pub value: Rate,
    pub date: Date,
}

/// A rate sample in contracts: the rate, and the day number of its date.
pub struct SampleView {
    pub value: Rate,
    pub day: int,
}

impl View for RateSample {
    type V = SampleView;

    open spec fn view(&self) -> SampleView {
        SampleView { value: self.value, day: self.date@ }
    }
}

/// The views of a row of rate samples, in the same order.
pub open spec fn sample_views(samples: Seq<RateSample>) -> Seq<SampleView> {
    samples.map_values(|sample: RateSample| sample@)
}

/// The overview of a range of dates.
///
/// `rates` holds every rate that was retrieved, in the order of the dates.
/// The mean rate is their sum, added up in that order, divided by their
/// number. The library does no arithmetic on rates and leaves the mean to
/// its caller.
#[derive(Clone, Debug, PartialEq, Eq)]
pub struct ExchangeValue {
    pub rates: Vec<RateSample>,
    pub min_rate: RateSample,
    pub max_rate: RateSample,
    /// Says how many rates are missing, where any is.
    pub notice: Option<String>,
}

/// An overview in contracts.
pub struct ExchangeValueView {
    pub rates: Seq<SampleView>,
    pub min_rate: SampleView,
    pub max_rate: SampleView,
    pub notice: Option<Seq<char>>,
}

impl View for ExchangeValue {
    type V = ExchangeValueView;

    open spec fn view(&self) -> ExchangeValueView {
        ExchangeValueView {
            rates: sample_views(self.rates@),
            min_rate: self.min_rate@,
            max_rate: self.max_rate@,
            notice: match self.notice {
                Some(text) => Some(text@),
                None => None,
            },
        }
    }
}

/// What is wrong with a request.
#[derive(Clone, Copy, Debug, PartialEq, Eq, Structural)]
pub enum InputFault {
    /// Both currencies are the same, whatever their case.
    SameCurrency,
    /// The range ends before it starts.
    DateOrder,
}

/// Why there is no overview.
#[derive(Clone, Copy, Debug, PartialEq, Eq, Structural)]
pub enum ExchangeError {
    /// The request cannot be served as it stands.
    InvalidInput(InputFault),
    /// The range holds no business day, or no rate could be retrieved.
    NoData,
    /// More rates are missing than the failure budget allows.
    ExcessiveFailureRate,
}

impl ExchangeError {
    /// The line that tells a user of the error.
    pub open spec fn message_text(self) -> Seq<char> {
        match self {
            ExchangeError::InvalidInput(InputFault::SameCurrency) => {
                "You have to pick two different currencies"@
            },
            ExchangeError::InvalidInput(InputFault::DateOrder) => {
                "date_from must precede or be equal to date_to"@
            },
            ExchangeError::NoData => {
                "Could not retrieve even 1 rate. Perhaps pick a date range with more working days."@
            },
            ExchangeError::ExcessiveFailureRate => {
                "Failure rate exceeded acceptable threshold (0.05)"@
            },
        }
    }

    /// The line that tells a user of the error.
    pub fn message(&self) -> (text: String)
        ensures
            text@ == self.message_text(),
    {
        match self {
            ExchangeError::InvalidInput(InputFault::SameCurrency) => {
                "You have to pick two different currencies".to_owned()
            },
            ExchangeError::InvalidInput(InputFault::DateOrder) => {
                "date_from must precede or be equal to date_to".to_owned()
            },
            ExchangeError::NoData => {
                "Could not retrieve even 1 rate. Perhaps pick a date range with more working days.".to_owned()
            },
            ExchangeError::ExcessiveFailureRate => {
                "Failure rate exceeded acceptable threshold (0.05)".to_owned()
            },
        }
    }
}

/// An outcome with the overview replaced by its view.
pub open spec fn outcome_view(outcome: Result<ExchangeValue, ExchangeError>) -> Result<
    ExchangeValueView,
    ExchangeError,
> {
    match outcome {
        Ok(value) => Ok(value@),
        Err(error) => Err(error),
    }
}

} // verus!
