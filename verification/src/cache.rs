//! A model of the cache and of the rate service, and what holds of the
//! lookups that run against it.

use crate::date::iso_date_text;
use crate::json::Json;
use crate::provider::{
    cache_file_text, transition, ActionView, LookupEvent, LookupFailure, LookupView, Phase,
};
use crate::rate::Rate;
use vstd::prelude::*;

verus! {

/// What a lookup runs against.
pub struct World {
    /// What the cache holds under each file name: a rate, or `None` for an
    /// entry that is no rate.
    pub cache: Map<Seq<char>, Option<Rate>>,
    /// Whether the cache can be written to.
    pub writable: bool,
    /// What the rate service answers; `None` where it does not answer.
    pub service: Option<Json>,
    /// How often the rate service has been asked.
    pub requests: nat,
}

/// What the world reports when a lookup asks it to do something, and what
/// has become of the world by then. A lookup that is over is reported
/// nothing.
pub open spec fn react(world: World, action: ActionView) -> (World, Option<LookupEvent>) {
    match action {
        ActionView::ReadCache { file } => (
            world,
            Some(
                if !world.cache.contains_key(file) {
                    LookupEvent::CacheMissing
                } else {
                    match world.cache[file] {
                        Some(value) => LookupEvent::CacheHit(value),
                        None => LookupEvent::CacheCorrupt,
                    }
                },
            ),
        ),
        ActionView::Fetch { .. } => (
            World { requests: world.requests + 1, ..world },
            Some(
                match world.service {
                    Some(answer) => LookupEvent::Response(answer),
                    None => LookupEvent::NetworkFailure,
                },
            ),
        ),
        ActionView::Store { file, value } => if world.writable {
            (
                World { cache: world.cache.insert(file, Some(value)), ..world },
                Some(LookupEvent::Stored),
            )
        } else {
            (world, Some(LookupEvent::StoreFailed))
        },
        ActionView::Finish(_) => (world, None),
    }
}

/// Runs a lookup against a world for at most `steps` steps, beginning with
/// the given event: the result of the lookup, if it came to one, and what
/// has become of the world.
pub open spec fn run(lookup: LookupView, event: LookupEvent, world: World, steps: nat) -> (
    Option<Result<Rate, LookupFailure>>,
    World,
)
    decreases steps,
{
    if steps == 0 {
        (None, world)
    } else {
        let (phase, action) = transition(lookup, event);
        match react(world, action) {
            (after, Some(report)) => run(
                LookupView { phase, ..lookup },
                report,
                after,
                (steps - 1) as nat,
            ),
            (after, None) => (
                match action {
                    ActionView::Finish(result) => Some(result),
                    _ => None,
                },
                after,
            ),
        }
    }
}

/// Looks up the rate of two currencies on a day against a world.
pub open spec fn lookup_in(
    world: World,
    currency_from: Seq<char>,
    currency_to: Seq<char>,
    day: int,
) -> (Option<Result<Rate, LookupFailure>>, World) {
    run(
        LookupView { currency_from, currency_to, day, phase: Phase::Start },
        LookupEvent::Begin,
        world,
        4,
    )
}

/// Every lookup comes to a result within four steps.
pub proof fn lookup_comes_to_a_result(
    world: World,
    currency_from: Seq<char>,
    currency_to: Seq<char>,
    day: int,
)
    ensures
        lookup_in(world, currency_from, currency_to, day).0.is_some(),
{
    reveal_with_fuel(run, 5);
}

/// A lookup that finds a rate in the cache gives that rate, asks the rate
/// service nothing and leaves the cache as it is.
pub proof fn cached_rate_is_the_result(
    world: World,
    currency_from: Seq<char>,
    currency_to: Seq<char>,
    day: int,
    value: Rate,
)
    requires
        world.cache.contains_key(cache_file_text(currency_from, currency_to, iso_date_text(day))),
        world.cache[cache_file_text(currency_from, currency_to, iso_date_text(day))] == Some(value),
    ensures
        lookup_in(world, currency_from, currency_to, day) == (
            Some(Ok::<Rate, LookupFailure>(value)),
            world,
        ),
{
    reveal_with_fuel(run, 5);
}

/// A lookup that finds an entry in the cache that is no rate fails, and
/// asks the rate service nothing.
pub proof fn corrupt_entry_is_no_miss(
    world: World,
    currency_from: Seq<char>,
    currency_to: Seq<char>,
    day: int,
)
    requires
        world.cache.contains_key(cache_file_text(currency_from, currency_to, iso_date_text(day))),
        world.cache[cache_file_text(currency_from, currency_to, iso_date_text(day))].is_none(),
    ensures
        lookup_in(world, currency_from, currency_to, day) == (
            Some(Err::<Rate, LookupFailure>(LookupFailure::CacheCorrupt)),
            world,
        ),
{
    reveal_with_fuel(run, 5);
}

/// After a lookup has given a rate, the cache holds that rate for the same
/// currencies and day.
pub proof fn successful_lookup_leaves_the_rate_cached(
    world: World,
    currency_from: Seq<char>,
    currency_to: Seq<char>,
    day: int,
    value: Rate,
)
    requires
        lookup_in(world, currency_from, currency_to, day).0 == Some(
            Ok::<Rate, LookupFailure>(value),
        ),
    ensures
        ({
            let after = lookup_in(world, currency_from, currency_to, day).1;
            let file = cache_file_text(currency_from, currency_to, iso_date_text(day));
            after.cache.contains_key(file) && after.cache[file] == Some(value)
        }),
{
    reveal_with_fuel(run, 5);
}

/// After a lookup has given a rate, every later lookup for the same
/// currencies and day gives the same rate, asks the rate service nothing
/// and leaves the cache as it is, whatever the rate service would answer
/// by then.
pub proof fn repeated_lookup_gives_the_cached_rate(
    world: World,
    currency_from: Seq<char>,
    currency_to: Seq<char>,
    day: int,
    value: Rate,
    later: World,
)
    requires
        lookup_in(world, currency_from, currency_to, day).0 == Some(
            Ok::<Rate, LookupFailure>(value),
        ),
        later.cache == lookup_in(world, currency_from, currency_to, day).1.cache,
    ensures
        lookup_in(later, currency_from, currency_to, day) == (
            Some(Ok::<Rate, LookupFailure>(value)),
            later,
        ),
{
    successful_lookup_leaves_the_rate_cached(world, currency_from, currency_to, day, value);
    cached_rate_is_the_result(later, currency_from, currency_to, day, value);
}

} // verus!
