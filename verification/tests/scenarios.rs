use exchange::date::Date;
use exchange::overview::{
    check_request, exchange_rate_overview, failure_line, notice_string, Tally,
};
use exchange::rate::Rate;
use exchange::types::{ExchangeError, ExchangeValue, InputFault, Opt, RateSample};

fn bits_of(value: f64) -> Rate {
    Rate::from_bits(value.to_bits())
}

fn day(year: i32, month: u32, day: u32) -> Date {
    Date::from_ymd(year, month, day).unwrap()
}

fn sample_of(value: f64, date: Date) -> RateSample {
    RateSample { value: bits_of(value), date }
}

fn mean_of(overview: &ExchangeValue) -> f64 {
    let mut sum = 0f64;
    for sample in &overview.rates {
        sum += f64::from_bits(sample.value.bits);
    }
    sum / overview.rates.len() as f64
}

fn range(from: Date, to: Date) -> Opt {
    Opt {
        currency_from: "USD".to_string(),
        currency_to: "GBP".to_string(),
        date_from: from,
        date_to: to,
    }
}

#[test]
fn constant_rate_is_mean_least_and_greatest() {
    let opt = range(day(2020, 12, 25), day(2021, 4, 11));
    let value = 0.7224675544;
    let overview = exchange_rate_overview(&opt, |_, _, _| Ok(bits_of(value))).unwrap();
    assert_eq!(overview.rates.len(), 76);
    assert!(overview.rates.iter().all(|sample| sample.value == bits_of(value)));
    let halves = exchange_rate_overview(&opt, |_, _, _| Ok(bits_of(0.5))).unwrap();
    assert_eq!(mean_of(&halves), 0.5);
    assert_eq!(overview.min_rate, sample_of(value, day(2020, 12, 25)));
    assert_eq!(overview.max_rate, sample_of(value, day(2020, 12, 25)));
    assert_eq!(overview.notice, None);
}

#[test]
fn single_business_day() {
    let monday = day(2021, 3, 1);
    let opt = range(monday, monday);
    let overview = exchange_rate_overview(&opt, |_, _, _| Ok(bits_of(1.0))).unwrap();
    assert_eq!(mean_of(&overview), 1.0);
    assert_eq!(overview.rates, vec![sample_of(1.0, monday)]);
    assert_eq!(overview.min_rate, sample_of(1.0, monday));
    assert_eq!(overview.max_rate, sample_of(1.0, monday));
    assert_eq!(overview.notice, None);
}

#[test]
fn weekend_only_range_has_no_data() {
    let saturday = day(2021, 3, 6);
    let opt = range(saturday, saturday);
    let outcome = exchange_rate_overview(&opt, |_, _, _| Ok(bits_of(1.0)));
    assert_eq!(outcome.unwrap_err(), ExchangeError::NoData);
    let opt = range(saturday, day(2021, 3, 7));
    let outcome = exchange_rate_overview(&opt, |_, _, _| Ok(bits_of(1.0)));
    assert_eq!(outcome.unwrap_err(), ExchangeError::NoData);
}

#[test]
fn weekend_days_are_not_asked_for() {
    let opt = range(day(2021, 3, 5), day(2021, 3, 8));
    let asked = std::cell::RefCell::new(Vec::new());
    let overview = exchange_rate_overview(&opt, |from, to, date| {
        asked.borrow_mut().push((from.to_string(), to.to_string(), *date));
        Ok(bits_of(2.0))
    })
    .unwrap();
    let pair = ("USD".to_string(), "GBP".to_string());
    assert_eq!(
        asked.into_inner(),
        vec![
            (pair.0.clone(), pair.1.clone(), day(2021, 3, 5)),
            (pair.0.clone(), pair.1.clone(), day(2021, 3, 8)),
        ]
    );
    assert_eq!(overview.rates.len(), 2);
}

#[test]
fn five_business_days_with_the_day_of_the_month_as_rate() {
    let opt = range(day(2021, 3, 1), day(2021, 3, 5));
    let overview =
        exchange_rate_overview(&opt, |_, _, date| Ok(bits_of(date.day() as f64))).unwrap();
    assert_eq!(mean_of(&overview), 3.0);
    assert_eq!(overview.min_rate, sample_of(1.0, day(2021, 3, 1)));
    assert_eq!(overview.max_rate, sample_of(5.0, day(2021, 3, 5)));
    assert_eq!(overview.notice, None);
    let days: Vec<u32> = overview.rates.iter().map(|sample| sample.date.day()).collect();
    assert_eq!(days, vec![1, 2, 3, 4, 5]);
}

#[test]
fn one_failure_in_forty_six_gives_a_notice() {
    let opt = range(day(2021, 1, 1), day(2021, 3, 5));
    let overview = exchange_rate_overview(&opt, |_, _, date| {
        if date.month() == 3 && date.day() == 5 {
            Err("error".to_string())
        } else {
            Ok(bits_of(date.day() as f64))
        }
    })
    .unwrap();
    assert_eq!(overview.rates.len(), 45);
    assert_eq!(overview.notice, Some("we failed to retrieve 1 of 46 rates".to_string()));
    assert_eq!(mean_of(&overview), 13.577777777777778);
    assert_eq!(overview.min_rate, sample_of(1.0, day(2021, 1, 1)));
    assert_eq!(overview.max_rate, sample_of(29.0, day(2021, 1, 29)));
}

#[test]
fn five_failures_in_forty_six_are_too_many() {
    let opt = range(day(2021, 1, 1), day(2021, 3, 5));
    let outcome = exchange_rate_overview(&opt, |_, _, date| {
        if date.month() == 3 {
            Err("error".to_string())
        } else {
            Ok(bits_of(date.day() as f64))
        }
    });
    let error = outcome.unwrap_err();
    assert_eq!(error, ExchangeError::ExcessiveFailureRate);
    assert_eq!(error.message(), "Failure rate exceeded acceptable threshold (0.05)");
}

#[test]
fn three_failures_in_forty_six_are_too_many() {
    let opt = range(day(2021, 1, 1), day(2021, 3, 5));
    let outcome = exchange_rate_overview(&opt, |_, _, date| {
        if date.month() == 3 && date.day() >= 3 {
            Err("error".to_string())
        } else {
            Ok(bits_of(1.0))
        }
    });
    assert_eq!(outcome.unwrap_err(), ExchangeError::ExcessiveFailureRate);
}

#[test]
fn two_failures_in_forty_six_are_within_the_budget() {
    let opt = range(day(2021, 1, 1), day(2021, 3, 5));
    let overview = exchange_rate_overview(&opt, |_, _, date| {
        if date.month() == 3 && date.day() >= 4 {
            Err("error".to_string())
        } else {
            Ok(bits_of(1.0))
        }
    })
    .unwrap();
    assert_eq!(overview.notice, Some("we failed to retrieve 2 of 46 rates".to_string()));
}

#[test]
fn one_failure_in_twenty_is_within_the_budget() {
    let opt = range(day(2021, 3, 1), day(2021, 3, 26));
    let overview = exchange_rate_overview(&opt, |_, _, date| {
        if date.day() == 10 {
            Err("error".to_string())
        } else {
            Ok(bits_of(1.5))
        }
    })
    .unwrap();
    assert_eq!(overview.rates.len(), 19);
    assert_eq!(overview.notice, Some("we failed to retrieve 1 of 20 rates".to_string()));
}

#[test]
fn two_failures_in_twenty_are_too_many() {
    let opt = range(day(2021, 3, 1), day(2021, 3, 26));
    let outcome = exchange_rate_overview(&opt, |_, _, date| {
        if date.day() == 10 || date.day() == 11 {
            Err("error".to_string())
        } else {
            Ok(bits_of(1.5))
        }
    });
    assert_eq!(outcome.unwrap_err(), ExchangeError::ExcessiveFailureRate);
}

#[test]
fn nothing_retrieved_is_no_data() {
    let opt = range(day(2021, 3, 1), day(2021, 3, 5));
    let outcome = exchange_rate_overview(&opt, |_, _, _| Err("down".to_string()));
    let error = outcome.unwrap_err();
    assert_eq!(error, ExchangeError::NoData);
    assert_eq!(
        error.message(),
        "Could not retrieve even 1 rate. Perhaps pick a date range with more working days."
    );
}

#[test]
fn same_currency_is_refused_before_anything_is_asked() {
    for (from, to) in [("EUR", "EUR"), ("eur", "EUR"), ("EuR", "eUr"), ("", "")] {
        for (first, last) in [
            (day(2021, 3, 1), day(2021, 3, 5)),
            (day(2021, 3, 6), day(2021, 3, 6)),
            (day(2021, 3, 5), day(2021, 3, 1)),
        ] {
            let mut opt = range(first, last);
            opt.currency_from = from.to_string();
            opt.currency_to = to.to_string();
            let asked = std::cell::Cell::new(0);
            let outcome = exchange_rate_overview(&opt, |_, _, _| {
                asked.set(asked.get() + 1);
                Ok(bits_of(1.0))
            });
            assert_eq!(
                outcome.unwrap_err(),
                ExchangeError::InvalidInput(InputFault::SameCurrency)
            );
            assert_eq!(asked.get(), 0);
        }
    }
}

#[test]
fn range_that_ends_before_it_starts_is_refused() {
    let opt = range(day(2021, 3, 5), day(2021, 3, 1));
    let asked = std::cell::Cell::new(0);
    let outcome = exchange_rate_overview(&opt, |_, _, _| {
        asked.set(asked.get() + 1);
        Ok(bits_of(1.0))
    });
    let error = outcome.unwrap_err();
    assert_eq!(error, ExchangeError::InvalidInput(InputFault::DateOrder));
    assert_eq!(error.message(), "date_from must precede or be equal to date_to");
    assert_eq!(asked.get(), 0);
}

#[test]
fn among_equal_rates_the_earliest_date_is_kept() {
    let opt = range(day(2021, 3, 1), day(2021, 3, 5));
    let rates = [2.0, 1.0, 3.0, 1.0, 3.0];
    let overview = exchange_rate_overview(&opt, |_, _, date| {
        Ok(bits_of(rates[date.day() as usize - 1]))
    })
    .unwrap();
    assert_eq!(overview.min_rate, sample_of(1.0, day(2021, 3, 2)));
    assert_eq!(overview.max_rate, sample_of(3.0, day(2021, 3, 3)));
    assert_eq!(mean_of(&overview), 2.0);
}

#[test]
fn the_two_zeros_count_as_equal_rates() {
    let opt = range(day(2021, 3, 1), day(2021, 3, 2));
    let rates = [0.0, -0.0];
    let overview = exchange_rate_overview(&opt, |_, _, date| {
        Ok(bits_of(rates[date.day() as usize - 1]))
    })
    .unwrap();
    assert_eq!(overview.min_rate, sample_of(0.0, day(2021, 3, 1)));
    assert_eq!(overview.max_rate, sample_of(0.0, day(2021, 3, 1)));
}

#[test]
fn a_rate_that_is_not_a_number_replaces_nothing() {
    let opt = range(day(2021, 3, 1), day(2021, 3, 3));
    let rates = [2.0, f64::NAN, 1.0];
    let overview = exchange_rate_overview(&opt, |_, _, date| {
        Ok(bits_of(rates[date.day() as usize - 1]))
    })
    .unwrap();
    assert_eq!(overview.min_rate, sample_of(1.0, day(2021, 3, 3)));
    assert_eq!(overview.max_rate, sample_of(2.0, day(2021, 3, 1)));
    assert_eq!(overview.rates.len(), 3);
}

#[test]
fn range_may_end_on_the_last_day_of_the_calendar() {
    let last = Date::from_day_number(exchange::date::MAX_DAY_NUMBER).unwrap();
    let first = Date::from_day_number(exchange::date::MAX_DAY_NUMBER - 6).unwrap();
    let opt = range(first, last);
    let overview = exchange_rate_overview(&opt, |_, _, _| Ok(bits_of(1.0))).unwrap();
    assert_eq!(overview.rates.len(), 5);
}

#[test]
fn notice_string_names_both_counts() {
    assert_eq!(notice_string(1, 46), "we failed to retrieve 1 of 46 rates");
    assert_eq!(notice_string(0, 0), "we failed to retrieve 0 of 0 rates");
    assert_eq!(
        notice_string(u64::MAX, 1_000),
        "we failed to retrieve 18446744073709551615 of 1000 rates"
    );
}

#[test]
fn tally_counts_days_and_keeps_samples() {
    let tally = Tally::new();
    assert_eq!(tally.finish().unwrap_err(), ExchangeError::NoData);

    let tally = Tally::new().record(day(2021, 3, 1), None);
    assert_eq!(tally.finish().unwrap_err(), ExchangeError::NoData);

    let mut tally = Tally::new();
    for offset in 0..19 {
        tally = tally.record(day(2021, 3, 1 + offset), Some(bits_of(offset as f64)));
    }
    tally = tally.record(day(2021, 3, 20), None);
    let overview = tally.finish().unwrap();
    assert_eq!(overview.rates.len(), 19);
    assert_eq!(overview.min_rate, sample_of(0.0, day(2021, 3, 1)));
    assert_eq!(overview.max_rate, sample_of(18.0, day(2021, 3, 19)));
    assert_eq!(overview.notice, Some("we failed to retrieve 1 of 20 rates".to_string()));

    let tally = Tally::new()
        .record(day(2021, 3, 1), Some(bits_of(1.0)))
        .record(day(2021, 3, 2), None);
    assert_eq!(tally.finish().unwrap_err(), ExchangeError::ExcessiveFailureRate);
}

#[test]
fn failure_line_names_the_date_and_the_reason() {
    assert_eq!(
        failure_line(&day(2021, 3, 5), "error"),
        "2021-03-05 -> Failed to retrieve rates: error"
    );
    assert_eq!(failure_line(&day(2021, 12, 31), ""), "2021-12-31 -> Failed to retrieve rates: ");
}

#[test]
fn check_request_finds_the_fault() {
    let first = day(2021, 3, 1);
    let last = day(2021, 3, 5);
    assert_eq!(check_request("usd", "gbp", &first, &last), None);
    assert_eq!(check_request("usd", "gbp", &first, &first), None);
    assert_eq!(check_request("usd", "usd", &first, &last), Some(InputFault::SameCurrency));
    assert_eq!(check_request("usd", "usd", &last, &first), Some(InputFault::SameCurrency));
    assert_eq!(check_request("usd", "gbp", &last, &first), Some(InputFault::DateOrder));
    assert_eq!(check_request("usd", "USD", &first, &last), None);
}
