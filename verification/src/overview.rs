//! The overview of a range of dates: which days are asked for, how the
//! answers are counted, and when the whole is given up.

use crate::date::{is_business_day, is_day_number, iso_date_text, Date};
use crate::rate::Rate;
use crate::types::{
    outcome_view, sample_views, ExchangeError, ExchangeValue, ExchangeValueView, InputFault, Opt,
    RateSample, SampleView,
};
use crate::utils::{decimal_string, decimal_text};
use vstd::prelude::*;

verus! {

/// Of a hundred business days, the number whose rate may be missing. With
/// more missing there is no overview.
pub const ACCEPTABLE_RETRIEVAL_FAILURE_PERCENT: u64 = 5;

/// A text with every letter in lower case.
pub uninterp spec fn lowercase(text: Seq<char>) -> Seq<char>;

/// Calls `str::to_lowercase`. Claims only that the result depends on the
/// text alone.
#[verifier::external_body]
fn lowercase_of(text: &str) -> (lower: String)
    ensures
        lower@ == lowercase(text@),
{
    text.to_lowercase()
}

/// Whether two currency codes name the same currency: they do when they
/// differ at most in the case of their letters.
pub open spec fn same_currency(first: Seq<char>, second: Seq<char>) -> bool {
    lowercase(first) == lowercase(second)
}

/// What is wrong with a request, if anything, given its two currencies in
/// lower case and the day numbers of its two dates. The same currency
/// twice is looked for first.
pub open spec fn request_fault(
    lower_from: Seq<char>,
    lower_to: Seq<char>,
    date_from: int,
    date_to: int,
) -> Option<InputFault> {
    if lower_from == lower_to {
        Some(InputFault::SameCurrency)
    } else if date_to < date_from {
        Some(InputFault::DateOrder)
    } else {
        None
    }
}

/// Finds what is wrong with a request, given its two currencies in lower
/// case and its two dates.
pub fn check_request(lower_from: &str, lower_to: &str, date_from: &Date, date_to: &Date) -> (fault:
    Option<InputFault>)
    ensures
        fault == request_fault(lower_from@, lower_to@, date_from@, date_to@),
{
    if lower_from.to_owned() == lower_to.to_owned() {
        Some(InputFault::SameCurrency)
    } else if !date_from.is_on_or_before(date_to) {
        Some(InputFault::DateOrder)
    } else {
        None
    }
}

/// The day numbers of the business days from `from` to `to`, both
/// included, in ascending order.
pub open spec fn business_days(from: int, to: int) -> Seq<int>
    decreases to - from + 1,
{
    if to < from {
        Seq::empty()
    } else if is_business_day(to) {
        business_days(from, to - 1).push(to)
    } else {
        business_days(from, to - 1)
    }
}

/// The samples that were retrieved: for each day in turn, the rate that
/// came back for it, where one did.
pub open spec fn retrieved(days: Seq<int>, answers: Seq<Option<Rate>>) -> Seq<SampleView>
    decreases days.len(),
{
    if days.len() == 0 || answers.len() == 0 {
        Seq::empty()
    } else {
        let before = retrieved(days.drop_last(), answers.drop_last());
        match answers.last() {
            Some(value) => before.push(SampleView { value, day: days.last() }),
            None => before,
        }
    }
}

/// The sample with the least rate. A later sample replaces an earlier one
/// only if its rate is strictly less, so among equal rates the earliest
/// stays.
pub open spec fn earliest_min(samples: Seq<SampleView>) -> SampleView
    recommends
        samples.len() > 0,
    decreases samples.len(),
{
    if samples.len() <= 1 {
        samples[0]
    } else {
        let before = earliest_min(samples.drop_last());
        if samples.last().value.less(before.value) {
            samples.last()
        } else {
            before
        }
    }
}

/// The sample with the greatest rate. A later sample replaces an earlier
/// one only if its rate is strictly greater, so among equal rates the
/// earliest stays.
pub open spec fn earliest_max(samples: Seq<SampleView>) -> SampleView
    recommends
        samples.len() > 0,
    decreases samples.len(),
{
    if samples.len() <= 1 {
        samples[0]
    } else {
        let before = earliest_max(samples.drop_last());
        if before.value.less(samples.last().value) {
            samples.last()
        } else {
            before
        }
    }
}

/// Whether too many rates are missing: more than five in a hundred of the
/// business days. One missing in twenty is exactly five in a hundred, and
/// not too many.
pub open spec fn exceeds_failure_budget(expected: nat, retrieved: nat) -> bool {
    100 * (expected - retrieved) > ACCEPTABLE_RETRIEVAL_FAILURE_PERCENT * expected
}

/// The notice for an overview in which `missing` of `expected` rates are
/// missing.
pub open spec fn notice_text(missing: nat, expected: nat) -> Seq<char> {
    "we failed to retrieve "@ + decimal_text(missing) + " of "@ + decimal_text(expected)
        + " rates"@
}

/// What becomes of a range with `expected` business days of which
/// `samples` were retrieved.
pub open spec fn summary(expected: nat, samples: Seq<SampleView>) -> Result<
    ExchangeValueView,
    ExchangeError,
> {
    if expected == 0 || samples.len() == 0 {
        Err(ExchangeError::NoData)
    } else if exceeds_failure_budget(expected, samples.len()) {
        Err(ExchangeError::ExcessiveFailureRate)
    } else {
        Ok(
            ExchangeValueView {
                rates: samples,
                min_rate: earliest_min(samples),
                max_rate: earliest_max(samples),
                notice: if samples.len() == expected {
                    None
                } else {
                    Some(notice_text((expected - samples.len()) as nat, expected))
                },
            },
        )
    }
}

/// The line that reports a day whose rate could not be retrieved: the
/// date, then the reason.
pub open spec fn failure_line_text(day: int, reason: Seq<char>) -> Seq<char> {
    iso_date_text(day) + " -> Failed to retrieve rates: "@ + reason
}

/// Writes the line that reports a day whose rate could not be retrieved.
pub fn failure_line(date: &Date, reason: &str) -> (line: String)
    ensures
        line@ == failure_line_text(date@, reason@),
{
    let mut line = date.iso_text();
    line.append(" -> Failed to retrieve rates: ");
    line.append(reason);
    line
}

/// Writes the notice for an overview with missing rates.
pub fn notice_string(missing: u64, expected: u64) -> (text: String)
    ensures
        text@ == notice_text(missing as nat, expected as nat),
{
    let mut text = "we failed to retrieve ".to_owned();
    text.append(decimal_string(missing).as_str());
    text.append(" of ");
    text.append(decimal_string(expected).as_str());
    text.append(" rates");
    text
}

/// The count of a range while its days are gone through: how many business
/// days there were, and the samples retrieved on them.
pub struct Tally {
    expected_days: u64,
    rates: Vec<RateSample>,
    extremes: Option<(RateSample, RateSample)>,
}

impl Tally {
    #[verifier::type_invariant]
    spec fn well_formed(self) -> bool {
        &&& self.rates@.len() <= self.expected_days
        &&& match self.extremes {
            Some((least, greatest)) => {
                &&& self.rates@.len() > 0
                &&& least@ == earliest_min(sample_views(self.rates@))
                &&& greatest@ == earliest_max(sample_views(self.rates@))
            },
            None => self.rates@.len() == 0,
        }
    }

    /// The number of business days counted so far.
    pub closed spec fn expected_days(self) -> nat {
        self.expected_days as nat
    }

    /// The samples retrieved so far, in the order in which they came.
    pub closed spec fn samples(self) -> Seq<SampleView> {
        sample_views(self.rates@)
    }

    /// The count before the first day.
    pub fn new() -> (tally: Tally)
        ensures
            tally.expected_days() == 0,
            tally.samples() == Seq::<SampleView>::empty(),
    {
        let tally = Tally { expected_days: 0, rates: Vec::new(), extremes: None };
        assert(tally.samples() =~= Seq::<SampleView>::empty());
        tally
    }

    /// Counts one more business day, and with it the rate that was
    /// retrieved for it, if one was.
    pub fn record(self, date: Date, answer: Option<Rate>) -> (next: Tally)
        requires
            self.expected_days() < u64::MAX,
        ensures
            next.expected_days() == self.expected_days() + 1,
            next.samples() == match answer {
                Some(value) => self.samples().push(SampleView { value, day: date@ }),
                None => self.samples(),
            },
    {
        proof {
            use_type_invariant(&self);
        }
        let ghost before = sample_views(self.rates@);
        let Tally { expected_days, mut rates, extremes } = self;
        match answer {
            None => Tally { expected_days: expected_days + 1, rates, extremes },
            Some(value) => {
                let sample = RateSample { value, date };
                let extremes = match extremes {
                    None => (sample, sample),
                    Some((least, greatest)) => (
                        if value.is_less_than(&least.value) {
                            sample
                        } else {
                            least
                        },
                        if value.is_greater_than(&greatest.value) {
                            sample
                        } else {
                            greatest
                        },
                    ),
                };
                rates.push(sample);
                proof {
                    let after = sample_views(rates@);
                    assert(after =~= before.push(sample@));
                    assert(after.drop_last() =~= before);
                    assert(after.last() == sample@);
                }
                Tally { expected_days: expected_days + 1, rates, extremes: Some(extremes) }
            },
        }
    }

    /// Ends the count: the overview, or the reason why there is none.
    pub fn finish(self) -> (outcome: Result<ExchangeValue, ExchangeError>)
        ensures
            outcome_view(outcome) == summary(self.expected_days(), self.samples()),
    {
        proof {
            use_type_invariant(&self);
        }
        let Tally { expected_days, rates, extremes } = self;
        let retrieved_days: u64 = rates.len() as u64;
        match extremes {
            None => Err(ExchangeError::NoData),
            Some((min_rate, max_rate)) => {
                let missing: u64 = expected_days - retrieved_days;
                if 100 * (missing as u128) > (ACCEPTABLE_RETRIEVAL_FAILURE_PERCENT as u128) * (
                expected_days as u128) {
                    Err(ExchangeError::ExcessiveFailureRate)
                } else {
                    let notice = if missing == 0 {
                        None
                    } else {
                        Some(notice_string(missing, expected_days))
                    };
                    Ok(ExchangeValue { rates, min_rate, max_rate, notice })
                }
            },
        }
    }
}

/// The days for which rates are asked: the business days of the range,
/// or none where the request is refused as it stands.
pub open spec fn asked_days(
    currency_from: Seq<char>,
    currency_to: Seq<char>,
    date_from: int,
    date_to: int,
) -> Seq<int> {
    if same_currency(currency_from, currency_to) || date_to < date_from {
        Seq::empty()
    } else {
        business_days(date_from, date_to)
    }
}

/// What becomes of a request, given what came back for each of its asked
/// days in turn (`None` for a day whose rate could not be retrieved).
pub open spec fn overview(
    currency_from: Seq<char>,
    currency_to: Seq<char>,
    date_from: int,
    date_to: int,
    answers: Seq<Option<Rate>>,
) -> Result<ExchangeValueView, ExchangeError> {
    if same_currency(currency_from, currency_to) {
        Err(ExchangeError::InvalidInput(InputFault::SameCurrency))
    } else if date_to < date_from {
        Err(ExchangeError::InvalidInput(InputFault::DateOrder))
    } else {
        let days = business_days(date_from, date_to);
        summary(days.len(), retrieved(days, answers))
    }
}

/// The rate in a provider's reply, if it holds one.
pub open spec fn rate_of(reply: Result<Rate, String>) -> Option<Rate> {
    match reply {
        Ok(value) => Some(value),
        Err(_) => None,
    }
}

/// Whether `answer` is what the provider gave when it was asked for the
/// two currencies and the day with number `day`.
pub open spec fn provider_gave<F>(
    provider: F,
    currency_from: Seq<char>,
    currency_to: Seq<char>,
    day: int,
    answer: Option<Rate>,
) -> bool where F: Fn(&str, &str, &Date) -> Result<Rate, String> {
    exists|from: &str, to: &str, date: &Date, reply: Result<Rate, String>|
        {
            &&& from@ == currency_from
            &&& to@ == currency_to
            &&& date@ == day
            &&& #[trigger] call_ensures(provider, (from, to, date), reply)
            &&& answer == rate_of(reply)
        }
}

/// Whether `answers` holds, for each of `days` in turn, what the provider
/// gave for it.
pub open spec fn provider_gave_all<F>(
    provider: F,
    currency_from: Seq<char>,
    currency_to: Seq<char>,
    days: Seq<int>,
    answers: Seq<Option<Rate>>,
) -> bool where F: Fn(&str, &str, &Date) -> Result<Rate, String> {
    &&& answers.len() == days.len()
    &&& forall|i: int|
        0 <= i < days.len() ==> #[trigger] provider_gave(
            provider,
            currency_from,
            currency_to,
            days[i],
            answers[i],
        )
}

/// A range holds at most as many business days as days.
pub proof fn business_days_are_at_most_the_days(from: int, to: int)
    requires
        from <= to + 1,
    ensures
        business_days(from, to).len() <= to - from + 1,
    decreases to - from + 1,
{
    if from <= to {
        business_days_are_at_most_the_days(from, to - 1);
    }
}

/// Obtains the exchange rates of a range of dates and sums them up.
///
/// The provider is asked once for each business day of the range, in the
/// order of the dates, and never where the request is refused as it
/// stands. Whatever it answers, the outcome is the overview of those
/// answers.
pub fn exchange_rate_overview<F>(opt: &Opt, exchange_provider: F) -> (outcome: Result<
    ExchangeValue,
    ExchangeError,
>) where F: Fn(&str, &str, &Date) -> Result<Rate, String>
    requires
        forall|from: &str, to: &str, date: &Date|
            from@ == opt.currency_from@ && to@ == opt.currency_to@ && opt.date_from@ <= date@
                <= opt.date_to@ && is_business_day(date@) ==> #[trigger] call_requires(
                exchange_provider,
                (from, to, date),
            ),
    ensures
        exists|answers: Seq<Option<Rate>>|
            {
                &&& #[trigger] provider_gave_all(
                    exchange_provider,
                    opt.currency_from@,
                    opt.currency_to@,
                    asked_days(
                        opt.currency_from@,
                        opt.currency_to@,
                        opt.date_from@,
                        opt.date_to@,
                    ),
                    answers,
                )
                &&& outcome_view(outcome) == overview(
                    opt.currency_from@,
                    opt.currency_to@,
                    opt.date_from@,
                    opt.date_to@,
                    answers,
                )
            },
{
    let lower_from = lowercase_of(opt.currency_from.as_str());
    let lower_to = lowercase_of(opt.currency_to.as_str());
    match check_request(lower_from.as_str(), lower_to.as_str(), &opt.date_from, &opt.date_to) {
        Some(fault) => {
            assert(provider_gave_all(
                exchange_provider,
                opt.currency_from@,
                opt.currency_to@,
                asked_days(opt.currency_from@, opt.currency_to@, opt.date_from@, opt.date_to@),
                Seq::<Option<Rate>>::empty(),
            ));
            return Err(ExchangeError::InvalidInput(fault));
        },
        None => {},
    }
    let first: i32 = opt.date_from.day_number();
    let last: i32 = opt.date_to.day_number();
    let mut day = opt.date_from;
    let mut tally = Tally::new();
    let ghost mut answers = Seq::<Option<Rate>>::empty();
    loop
        invariant_except_break
            first <= day@ <= last,
            provider_gave_all(
                exchange_provider,
                opt.currency_from@,
                opt.currency_to@,
                business_days(first as int, day@ - 1),
                answers,
            ),
            tally.expected_days() == business_days(first as int, day@ - 1).len(),
            tally.samples() == retrieved(business_days(first as int, day@ - 1), answers),
        invariant
            first == opt.date_from@,
            last == opt.date_to@,
            is_day_number(first as int),
            is_day_number(last as int),
            forall|from: &str, to: &str, date: &Date|
                from@ == opt.currency_from@ && to@ == opt.currency_to@ && opt.date_from@ <= date@
                    <= opt.date_to@ && is_business_day(date@) ==> #[trigger] call_requires(
                    exchange_provider,
                    (from, to, date),
                ),
        ensures
            provider_gave_all(
                exchange_provider,
                opt.currency_from@,
                opt.currency_to@,
                business_days(first as int, last as int),
                answers,
            ),
            tally.expected_days() == business_days(first as int, last as int).len(),
            tally.samples() == retrieved(business_days(first as int, last as int), answers),
        decreases last - day@,
    {
        let ghost days_before = business_days(first as int, day@ - 1);
        let ghost answers_before = answers;
        proof {
            business_days_are_at_most_the_days(first as int, day@ - 1);
        }
        if day.is_business_day() {
            let reply = exchange_provider(opt.currency_from.as_str(), opt.currency_to.as_str(), &day);
            let answer = match reply {
                Ok(value) => Some(value),
                Err(_) => None,
            };
            tally = tally.record(day, answer);
            proof {
                answers = answers_before.push(answer);
                let days = business_days(first as int, day@);
                assert(days == days_before.push(day@));
                assert(days.drop_last() =~= days_before);
                assert(answers.drop_last() =~= answers_before);
                assert(provider_gave(
                    exchange_provider,
                    opt.currency_from@,
                    opt.currency_to@,
                    day@,
                    answer,
                ));
                assert forall|i: int| 0 <= i < days.len() implies #[trigger] provider_gave(
                    exchange_provider,
                    opt.currency_from@,
                    opt.currency_to@,
                    days[i],
                    answers[i],
                ) by {
                    if i < days_before.len() {
                        assert(days[i] == days_before[i]);
                        assert(answers[i] == answers_before[i]);
                    }
                }
            }
        } else {
            assert(business_days(first as int, day@) == days_before);
        }
        match day.succ_up_to(&opt.date_to) {
            Some(next) => {
                day = next;
            },
            None => {
                break ;
            },
        }
    }
    let outcome = tally.finish();
    assert(provider_gave_all(
        exchange_provider,
        opt.currency_from@,
        opt.currency_to@,
        asked_days(opt.currency_from@, opt.currency_to@, opt.date_from@, opt.date_to@),
        answers,
    ));
    outcome
}

} // verus!
