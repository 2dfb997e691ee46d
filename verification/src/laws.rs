//! What holds of every overview, proved from the definitions.

use crate::date::{is_business_day, Date};
use crate::overview::{
    asked_days, business_days, earliest_max, earliest_min, overview, provider_gave,
    provider_gave_all, retrieved, same_currency,
};
use crate::rate::Rate;
use crate::types::{ExchangeError, ExchangeValueView, InputFault, SampleView};
use vstd::prelude::*;

verus! {

/// Every day that a range lists lies in the range and is a business day.
pub proof fn business_days_lie_in_the_range(from: int, to: int, i: int)
    requires
        0 <= i < business_days(from, to).len(),
    ensures
        from <= business_days(from, to)[i] <= to,
        is_business_day(business_days(from, to)[i]),
    decreases to - from + 1,
{
    if from <= to {
        if i < business_days(from, to - 1).len() {
            business_days_lie_in_the_range(from, to - 1, i);
        }
    }
}

/// A range lists its business days in ascending order, each once.
pub proof fn business_days_ascend(from: int, to: int, i: int, j: int)
    requires
        0 <= i < j < business_days(from, to).len(),
    ensures
        business_days(from, to)[i] < business_days(from, to)[j],
    decreases to - from + 1,
{
    if from <= to {
        let before = business_days(from, to - 1);
        if j < before.len() {
            business_days_ascend(from, to - 1, i, j);
        } else {
            business_days_lie_in_the_range(from, to - 1, i);
        }
    }
}

/// A range lists every business day that lies in it.
pub proof fn business_days_are_complete(from: int, to: int, day: int)
    requires
        from <= day <= to,
        is_business_day(day),
    ensures
        business_days(from, to).contains(day),
    decreases to - from + 1,
{
    if day < to {
        business_days_are_complete(from, to - 1, day);
        let before = business_days(from, to - 1);
        let i = choose|i: int| 0 <= i < before.len() && #[trigger] before[i] == day;
        assert(business_days(from, to)[i] == day);
    } else {
        let days = business_days(from, to);
        assert(days[days.len() - 1] == day);
    }
}

/// No more rates are retrieved than there are days.
pub proof fn retrieved_are_at_most_the_days(days: Seq<int>, answers: Seq<Option<Rate>>)
    ensures
        retrieved(days, answers).len() <= days.len(),
    decreases days.len(),
{
    if days.len() > 0 && answers.len() > 0 {
        retrieved_are_at_most_the_days(days.drop_last(), answers.drop_last());
    }
}

/// Where every day has its rate, the samples retrieved are the days with
/// their rates, one for one.
pub proof fn retrieved_is_all_where_none_failed(days: Seq<int>, answers: Seq<Option<Rate>>)
    requires
        answers.len() == days.len(),
        forall|i: int| 0 <= i < answers.len() ==> (#[trigger] answers[i]).is_some(),
    ensures
        retrieved(days, answers).len() == days.len(),
        forall|i: int|
            0 <= i < days.len() ==> #[trigger] retrieved(days, answers)[i] == (SampleView {
                value: answers[i].unwrap(),
                day: days[i],
            }),
    decreases days.len(),
{
    if days.len() > 0 {
        let fewer_days = days.drop_last();
        let fewer_answers = answers.drop_last();
        assert forall|i: int| 0 <= i < fewer_answers.len() implies (
        #[trigger] fewer_answers[i]).is_some() by {
            assert(fewer_answers[i] == answers[i]);
        }
        retrieved_is_all_where_none_failed(fewer_days, fewer_answers);
        assert forall|i: int| 0 <= i < days.len() implies #[trigger] retrieved(days, answers)[i]
            == (SampleView { value: answers[i].unwrap(), day: days[i] }) by {
            if i < fewer_days.len() {
                assert(retrieved(days, answers)[i] == retrieved(fewer_days, fewer_answers)[i]);
                assert(fewer_answers[i] == answers[i]);
                assert(fewer_days[i] == days[i]);
            }
        }
    }
}

/// Whether the days come in ascending order, each once.
pub open spec fn days_ascend(days: Seq<int>) -> bool {
    forall|i: int, j: int| 0 <= i < j < days.len() ==> days[i] < days[j]
}

/// Every sample that was retrieved is of one of the days, and of none
/// after the last of them.
pub proof fn retrieved_are_of_the_days(days: Seq<int>, answers: Seq<Option<Rate>>, i: int)
    requires
        days_ascend(days),
        0 <= i < retrieved(days, answers).len(),
    ensures
        days.contains(retrieved(days, answers)[i].day),
        retrieved(days, answers)[i].day <= days.last(),
    decreases days.len(),
{
    let fewer_days = days.drop_last();
    let fewer = retrieved(fewer_days, answers.drop_last());
    if i < fewer.len() {
        retrieved_are_of_the_days(fewer_days, answers.drop_last(), i);
        let k = choose|k: int| 0 <= k < fewer_days.len() && fewer_days[k] == fewer[i].day;
        assert(days[k] == fewer[i].day);
        assert(fewer_days.last() == days[days.len() - 2]);
    } else {
        assert(days[days.len() - 1] == retrieved(days, answers)[i].day);
    }
}

/// The samples that were retrieved come in the order of their days: where
/// the days ascend, so do the days of the samples.
pub proof fn retrieved_keep_the_order_of_the_days(
    days: Seq<int>,
    answers: Seq<Option<Rate>>,
    i: int,
    j: int,
)
    requires
        days_ascend(days),
        0 <= i < j < retrieved(days, answers).len(),
    ensures
        retrieved(days, answers)[i].day < retrieved(days, answers)[j].day,
    decreases days.len(),
{
    let fewer_days = days.drop_last();
    let fewer = retrieved(fewer_days, answers.drop_last());
    if j < fewer.len() {
        retrieved_keep_the_order_of_the_days(fewer_days, answers.drop_last(), i, j);
    } else {
        retrieved_are_of_the_days(fewer_days, answers.drop_last(), i);
        assert(fewer_days.last() == days[days.len() - 2]);
    }
}

/// An overview holds its rates in the order of their dates.
pub proof fn overview_rates_ascend(
    currency_from: Seq<char>,
    currency_to: Seq<char>,
    date_from: int,
    date_to: int,
    answers: Seq<Option<Rate>>,
    i: int,
    j: int,
)
    requires
        overview(currency_from, currency_to, date_from, date_to, answers) is Ok,
        0 <= i < j < overview(
            currency_from,
            currency_to,
            date_from,
            date_to,
            answers,
        )->Ok_0.rates.len(),
    ensures
        ({
            let rates = overview(
                currency_from,
                currency_to,
                date_from,
                date_to,
                answers,
            )->Ok_0.rates;
            rates[i].day < rates[j].day
        }),
{
    let days = business_days(date_from, date_to);
    assert(days_ascend(days)) by {
        assert forall|a: int, b: int| 0 <= a < b < days.len() implies days[a] < days[b] by {
            business_days_ascend(date_from, date_to, a, b);
        }
    }
    retrieved_keep_the_order_of_the_days(days, answers, i, j);
}

/// Whether none of the samples holds what is not a number.
pub open spec fn all_are_numbers(samples: Seq<SampleView>) -> bool {
    forall|i: int| 0 <= i < samples.len() ==> !(#[trigger] samples[i]).value.is_nan()
}

/// The least sample is one of the samples: the proof gives its place. No
/// sample after that place has a lesser rate.
pub proof fn earliest_min_has_a_place(samples: Seq<SampleView>) -> (place: int)
    requires
        samples.len() > 0,
    ensures
        0 <= place < samples.len(),
        samples[place] == earliest_min(samples),
        forall|i: int|
            place < i < samples.len() ==> !(#[trigger] samples[i]).value.less(
                earliest_min(samples).value,
            ),
    decreases samples.len(),
{
    if samples.len() <= 1 {
        0
    } else {
        let fewer = samples.drop_last();
        let place_before = earliest_min_has_a_place(fewer);
        assert(fewer[place_before] == samples[place_before]);
        if samples.last().value.less(earliest_min(fewer).value) {
            samples.len() - 1
        } else {
            assert forall|i: int| place_before < i < samples.len() implies !(
            #[trigger] samples[i]).value.less(earliest_min(samples).value) by {
                if i < fewer.len() {
                    assert(fewer[i] == samples[i]);
                }
            }
            place_before
        }
    }
}

/// Where every sample is a number, no sample has a rate less than the
/// least sample has, and every sample before its place has a greater one:
/// among equal rates the earliest is kept.
pub proof fn earliest_min_is_the_first_least(samples: Seq<SampleView>) -> (place: int)
    requires
        samples.len() > 0,
        all_are_numbers(samples),
    ensures
        0 <= place < samples.len(),
        samples[place] == earliest_min(samples),
        forall|i: int|
            0 <= i < samples.len() ==> !(#[trigger] samples[i]).value.less(
                earliest_min(samples).value,
            ),
        forall|i: int|
            0 <= i < place ==> earliest_min(samples).value.less((#[trigger] samples[i]).value),
    decreases samples.len(),
{
    if samples.len() <= 1 {
        0
    } else {
        let fewer = samples.drop_last();
        assert forall|i: int| 0 <= i < fewer.len() implies !(#[trigger] fewer[i]).value.is_nan() by {
            assert(fewer[i] == samples[i]);
        }
        let place_before = earliest_min_is_the_first_least(fewer);
        assert(fewer[place_before] == samples[place_before]);
        assert(!samples.last().value.is_nan());
        assert(!earliest_min(fewer).value.is_nan());
        assert forall|i: int| 0 <= i < samples.len() implies !(#[trigger] samples[i]).value.less(
            earliest_min(samples).value,
        ) by {
            if i < fewer.len() {
                assert(fewer[i] == samples[i]);
            }
        }
        if samples.last().value.less(earliest_min(fewer).value) {
            assert forall|i: int| 0 <= i < samples.len() - 1 implies earliest_min(
                samples,
            ).value.less((#[trigger] samples[i]).value) by {
                assert(fewer[i] == samples[i]);
                assert(!fewer[i].value.less(earliest_min(fewer).value));
            }
            samples.len() - 1
        } else {
            assert forall|i: int| 0 <= i < place_before implies earliest_min(samples).value.less(
                (#[trigger] samples[i]).value,
            ) by {
                assert(fewer[i] == samples[i]);
            }
            place_before
        }
    }
}

/// The greatest sample is one of the samples: the proof gives its place.
/// No sample after that place has a greater rate.
pub proof fn earliest_max_has_a_place(samples: Seq<SampleView>) -> (place: int)
    requires
        samples.len() > 0,
    ensures
        0 <= place < samples.len(),
        samples[place] == earliest_max(samples),
        forall|i: int|
            place < i < samples.len() ==> !earliest_max(samples).value.less(
                (#[trigger] samples[i]).value,
            ),
    decreases samples.len(),
{
    if samples.len() <= 1 {
        0
    } else {
        let fewer = samples.drop_last();
        let place_before = earliest_max_has_a_place(fewer);
        assert(fewer[place_before] == samples[place_before]);
        if earliest_max(fewer).value.less(samples.last().value) {
            samples.len() - 1
        } else {
            assert forall|i: int| place_before < i < samples.len() implies !earliest_max(
                samples,
            ).value.less((#[trigger] samples[i]).value) by {
                if i < fewer.len() {
                    assert(fewer[i] == samples[i]);
                }
            }
            place_before
        }
    }
}

/// Where every sample is a number, no sample has a rate greater than the
/// greatest sample has, and every sample before its place has a lesser
/// one: among equal rates the earliest is kept.
pub proof fn earliest_max_is_the_first_greatest(samples: Seq<SampleView>) -> (place: int)
    requires
        samples.len() > 0,
        all_are_numbers(samples),
    ensures
        0 <= place < samples.len(),
        samples[place] == earliest_max(samples),
        forall|i: int|
            0 <= i < samples.len() ==> !earliest_max(samples).value.less(
                (#[trigger] samples[i]).value,
            ),
        forall|i: int|
            0 <= i < place ==> (#[trigger] samples[i]).value.less(earliest_max(samples).value),
    decreases samples.len(),
{
    if samples.len() <= 1 {
        0
    } else {
        let fewer = samples.drop_last();
        assert forall|i: int| 0 <= i < fewer.len() implies !(#[trigger] fewer[i]).value.is_nan() by {
            assert(fewer[i] == samples[i]);
        }
        let place_before = earliest_max_is_the_first_greatest(fewer);
        assert(fewer[place_before] == samples[place_before]);
        assert(!samples.last().value.is_nan());
        assert(!earliest_max(fewer).value.is_nan());
        assert forall|i: int| 0 <= i < samples.len() implies !earliest_max(samples).value.less(
            (#[trigger] samples[i]).value,
        ) by {
            if i < fewer.len() {
                assert(fewer[i] == samples[i]);
            }
        }
        if earliest_max(fewer).value.less(samples.last().value) {
            assert forall|i: int| 0 <= i < samples.len() - 1 implies (
            #[trigger] samples[i]).value.less(earliest_max(samples).value) by {
                assert(fewer[i] == samples[i]);
                assert(!earliest_max(fewer).value.less(fewer[i].value));
            }
            samples.len() - 1
        } else {
            assert forall|i: int| 0 <= i < place_before implies (
            #[trigger] samples[i]).value.less(earliest_max(samples).value) by {
                assert(fewer[i] == samples[i]);
            }
            place_before
        }
    }
}

/// Where every sample has the same rate, the first sample is both the
/// least and the greatest.
pub proof fn equal_rates_keep_the_first(samples: Seq<SampleView>, rate: Rate)
    requires
        samples.len() > 0,
        forall|i: int| 0 <= i < samples.len() ==> (#[trigger] samples[i]).value == rate,
    ensures
        earliest_min(samples) == samples[0],
        earliest_max(samples) == samples[0],
    decreases samples.len(),
{
    if samples.len() > 1 {
        let fewer = samples.drop_last();
        assert forall|i: int| 0 <= i < fewer.len() implies (#[trigger] fewer[i]).value == rate by {
            assert(fewer[i] == samples[i]);
        }
        equal_rates_keep_the_first(fewer, rate);
        assert(fewer[0] == samples[0]);
        assert(samples.last() == samples[samples.len() - 1]);
    }
}

/// Two currency codes that are the same text name the same currency.
pub proof fn a_currency_is_the_same_as_itself(currency: Seq<char>)
    ensures
        same_currency(currency, currency),
{
}

/// A request for one currency twice, in whatever case, is refused, whatever
/// its dates and whatever the provider would answer.
pub proof fn same_currency_is_refused(
    currency_from: Seq<char>,
    currency_to: Seq<char>,
    date_from: int,
    date_to: int,
    answers: Seq<Option<Rate>>,
)
    requires
        same_currency(currency_from, currency_to),
    ensures
        overview(currency_from, currency_to, date_from, date_to, answers) == Err::<
            ExchangeValueView,
            ExchangeError,
        >(ExchangeError::InvalidInput(InputFault::SameCurrency)),
{
}

/// Where the provider gives the same rate for every business day of a
/// range that has one, the overview holds that rate for every business
/// day, the same rate as the least and as the greatest, both on the first
/// business day, and no notice.
pub proof fn constant_rate_gives_that_rate(
    currency_from: Seq<char>,
    currency_to: Seq<char>,
    date_from: int,
    date_to: int,
    answers: Seq<Option<Rate>>,
    rate: Rate,
)
    requires
        !same_currency(currency_from, currency_to),
        date_from <= date_to,
        business_days(date_from, date_to).len() > 0,
        answers.len() == business_days(date_from, date_to).len(),
        forall|i: int| 0 <= i < answers.len() ==> #[trigger] answers[i] == Some(rate),
    ensures
        overview(currency_from, currency_to, date_from, date_to, answers) matches Ok(value) && {
            &&& value.rates.len() == business_days(date_from, date_to).len()
            &&& forall|i: int|
                0 <= i < value.rates.len() ==> #[trigger] value.rates[i] == (SampleView {
                    value: rate,
                    day: business_days(date_from, date_to)[i],
                })
            &&& value.min_rate == value.rates[0]
            &&& value.max_rate == value.rates[0]
            &&& value.notice.is_none()
        },
{
    let days = business_days(date_from, date_to);
    retrieved_is_all_where_none_failed(days, answers);
    let samples = retrieved(days, answers);
    assert forall|i: int| 0 <= i < samples.len() implies (#[trigger] samples[i]).value == rate by {
        assert(samples[i] == SampleView { value: answers[i].unwrap(), day: days[i] });
    }
    equal_rates_keep_the_first(samples, rate);
}

/// With a provider that gives the same rate whenever it is asked, the
/// overview of a range that has a business day holds that rate for every
/// business day, the same rate as the least and as the greatest, and no
/// notice.
pub proof fn constant_provider_gives_that_rate<F>(
    provider: F,
    currency_from: Seq<char>,
    currency_to: Seq<char>,
    date_from: int,
    date_to: int,
    answers: Seq<Option<Rate>>,
    rate: Rate,
) where F: Fn(&str, &str, &Date) -> Result<Rate, String>
    requires
        forall|from: &str, to: &str, date: &Date, reply: Result<Rate, String>| #[trigger]
            call_ensures(provider, (from, to, date), reply) ==> reply == Ok::<Rate, String>(rate),
        !same_currency(currency_from, currency_to),
        date_from <= date_to,
        business_days(date_from, date_to).len() > 0,
        provider_gave_all(
            provider,
            currency_from,
            currency_to,
            asked_days(currency_from, currency_to, date_from, date_to),
            answers,
        ),
    ensures
        overview(currency_from, currency_to, date_from, date_to, answers) matches Ok(value) && {
            &&& value.rates.len() == business_days(date_from, date_to).len()
            &&& forall|i: int|
                0 <= i < value.rates.len() ==> (#[trigger] value.rates[i]).value == rate
            &&& value.min_rate.value == rate
            &&& value.max_rate.value == rate
            &&& value.notice.is_none()
        },
{
    let days = business_days(date_from, date_to);
    assert forall|i: int| 0 <= i < answers.len() implies #[trigger] answers[i] == Some(rate) by {
        assert(provider_gave(provider, currency_from, currency_to, days[i], answers[i]));
    }
    constant_rate_gives_that_rate(currency_from, currency_to, date_from, date_to, answers, rate);
}

} // verus!
